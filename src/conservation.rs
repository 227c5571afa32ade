//! The vault's counter and its custody balance move together.
use vstd::prelude::*;

use crate::deposit::deposit_applied;
use crate::vault_state::VaultState;
use crate::withdraw::withdraw_applied;

verus! {

/// One confirmed movement: the record goes from `before` to `after` by a
/// deposit (`is_deposit`) or a withdrawal of `amount`, and the custody
/// balance moves by that amount in the same direction.
pub open spec fn confirmed_step(
    before: VaultState,
    after: VaultState,
    custody_before: int,
    custody_after: int,
    is_deposit: bool,
    amount: u64,
) -> bool {
    if is_deposit {
        deposit_applied(before, amount, after) && custody_after == custody_before + amount
    } else {
        withdraw_applied(before, amount, after) && custody_after == custody_before - amount
    }
}

/// Conservation: starting from a record whose counter equals its custody
/// balance, after every step of any run of successful deposits and
/// withdrawals the counter still equals the custody balance.
pub proof fn lemma_conservation(
    states: Seq<VaultState>,
    custody: Seq<int>,
    is_deposit: Seq<bool>,
    amounts: Seq<u64>,
)
    requires
        states.len() == is_deposit.len() + 1,
        custody.len() == states.len(),
        amounts.len() == is_deposit.len(),
        states[0].deposited == custody[0],
        forall|i: int|
            0 <= i < is_deposit.len() ==> #[trigger] confirmed_step(
                states[i],
                states[i + 1],
                custody[i],
                custody[i + 1],
                is_deposit[i],
                amounts[i],
            ),
    ensures
        forall|i: int| 0 <= i < states.len() ==> #[trigger] states[i].deposited == custody[i],
    decreases is_deposit.len(),
{
    if is_deposit.len() > 0 {
        let n = is_deposit.len() - 1;
        lemma_conservation(
            states.drop_last(),
            custody.drop_last(),
            is_deposit.drop_last(),
            amounts.drop_last(),
        );
        assert(states.drop_last()[n].deposited == custody.drop_last()[n]);
        assert(confirmed_step(states[n], states[n + 1], custody[n], custody[n + 1], is_deposit[n], amounts[n]));
        assert forall|i: int| 0 <= i < states.len() implies #[trigger] states[i].deposited == custody[i] by {
            if i < states.len() - 1 {
                assert(states.drop_last()[i] == states[i]);
                assert(custody.drop_last()[i] == custody[i]);
            }
        }
    }
}

} // verus!
