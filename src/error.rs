use vstd::prelude::*;

verus! {

/// The vault's own failure codes.
#[derive(Clone, Copy, Debug, PartialEq, Eq, Structural)]
pub enum ErrorCode {
    VaultAlreadyExists,
    Unauthorized,
    InvalidMint,
    InsufficientBalance,
    NonZeroBalance,
    MathOverflow,
    InvalidArgument,
    CustomError,
}

/// The failure that the custody service reported for a transfer or an
/// account closure, by its numeric code.
#[derive(Clone, Copy, Debug, PartialEq, Eq, Structural)]
pub struct CustodyError {
    pub code: u64,
}

/// Why an instruction was rejected: one of the vault's own checks, or the
/// custody service refusing the movement that the vault ordered.
#[derive(Clone, Copy, Debug, PartialEq, Eq, Structural)]
pub enum VaultError {
    Vault(ErrorCode),
    Custody(CustodyError),
}

pub open spec fn error_message(code: ErrorCode) -> Seq<char> {
    match code {
        ErrorCode::VaultAlreadyExists => "Vault already exists"@,
        ErrorCode::Unauthorized => "Unauthorized"@,
        ErrorCode::InvalidMint => "Invalid mint"@,
        ErrorCode::InsufficientBalance => "Insufficient balance"@,
        ErrorCode::NonZeroBalance => "Non-zero balance"@,
        ErrorCode::MathOverflow => "Math overflow"@,
        ErrorCode::InvalidArgument => "Invalid argument"@,
        ErrorCode::CustomError => "Custom error message"@,
    }
}

impl ErrorCode {
    /// The human-readable message that goes with the code.
    pub fn message(&self) -> (r: &'static str)
        ensures
            r@ == error_message(*self),
    {
        match self {
            ErrorCode::VaultAlreadyExists => "Vault already exists",
            ErrorCode::Unauthorized => "Unauthorized",
            ErrorCode::InvalidMint => "Invalid mint",
            ErrorCode::InsufficientBalance => "Insufficient balance",
            ErrorCode::NonZeroBalance => "Non-zero balance",
            ErrorCode::MathOverflow => "Math overflow",
            ErrorCode::InvalidArgument => "Invalid argument",
            ErrorCode::CustomError => "Custom error message",
        }
    }
}

} // verus!
