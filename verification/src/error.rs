//! The conditions under which an operation is abandoned.

use vstd::prelude::*;

verus! {

/// The distributor's own failures. Each has a stable numeric code, its
/// position in this list, and a fixed message.
#[derive(Clone, Copy, Debug, PartialEq, Eq, Structural)]
pub enum DistributorError {
    /// The instruction could not be understood, or a field of it is out of
    /// its bounds.
    InvalidInstruction,
    /// The account that must sign did not sign.
    IncorrectSigner,
    /// The state account does not hold the balance that keeps it alive.
    NotRentExempt,
    /// The token type is not the expected one.
    InvalidMint,
    /// The custody account holds fewer tokens than the pool asks for.
    ExpectedAmountMismatch,
    /// An account was named that the caller may not use.
    UnauthorizedAccount,
    /// An account is owned by another party than the one required.
    IncorrectOwner,
    /// A supplied account is not the one the state or a derivation names.
    InvalidAccounts,
    /// The metadata record is not the one that belongs to the asset.
    InvalidMetadataAccount,
    /// The account in the system program's place is another one.
    InvalidSystemProgram,
    /// A sum of amounts would pass its upper bound: the amount claimed
    /// would pass the pool.
    AmountOverflow,
    /// A difference of amounts would pass below zero.
    AmountUnderflow,
    /// A stored record does not have the length of its type.
    DataTypeMismatch,
    /// The claim came before the start time.
    DistributionNotStarted,
    /// The asset's symbol is not the collection's.
    IncorrectSymbol,
    /// The reward of this asset has been paid before.
    TokensAlreadyClaimed,
}

/// Number of distinct distributor failures.
pub const DISTRIBUTOR_ERROR_COUNT: u32 = 16;

impl DistributorError {
    /// The numeric code of a failure.
    pub open spec fn spec_code(self) -> u32 {
        match self {
            DistributorError::InvalidInstruction => 0u32,
            DistributorError::IncorrectSigner => 1u32,
            DistributorError::NotRentExempt => 2u32,
            DistributorError::InvalidMint => 3u32,
            DistributorError::ExpectedAmountMismatch => 4u32,
            DistributorError::UnauthorizedAccount => 5u32,
            DistributorError::IncorrectOwner => 6u32,
            DistributorError::InvalidAccounts => 7u32,
            DistributorError::InvalidMetadataAccount => 8u32,
            DistributorError::InvalidSystemProgram => 9u32,
            DistributorError::AmountOverflow => 10u32,
            DistributorError::AmountUnderflow => 11u32,
            DistributorError::DataTypeMismatch => 12u32,
            DistributorError::DistributionNotStarted => 13u32,
            DistributorError::IncorrectSymbol => 14u32,
            DistributorError::TokensAlreadyClaimed => 15u32,
        }
    }

    /// The message of a failure.
    pub open spec fn spec_message(self) -> Seq<char> {
        match self {
            DistributorError::InvalidInstruction => "Invalid Instruction"@,
            DistributorError::IncorrectSigner => "Incorrect signer"@,
            DistributorError::NotRentExempt => "State account not rent exempt"@,
            DistributorError::InvalidMint => "Invalid mint"@,
            DistributorError::ExpectedAmountMismatch => "Expected amount mismatch"@,
            DistributorError::UnauthorizedAccount => "Unauthorized account"@,
            DistributorError::IncorrectOwner => "Incorrect account owner"@,
            DistributorError::InvalidAccounts => "Invalid accounts"@,
            DistributorError::InvalidMetadataAccount => "Invalid metadata account"@,
            DistributorError::InvalidSystemProgram => "Invalid system program"@,
            DistributorError::AmountOverflow => "Amount overflow transferring lamports"@,
            DistributorError::AmountUnderflow => "Amount underflow transferring lamports"@,
            DistributorError::DataTypeMismatch => "Data type mismatch"@,
            DistributorError::DistributionNotStarted => "Distribution not started"@,
            DistributorError::IncorrectSymbol => "Incorrect symbol in metadata"@,
            DistributorError::TokensAlreadyClaimed => "Tokens already claimed"@,
        }
    }

    /// The failure that a numeric code stands for, if any.
    pub open spec fn spec_from_code(code: u32) -> Option<DistributorError> {
        if code == 0 {
            Some(DistributorError::InvalidInstruction)
        } else if code == 1 {
            Some(DistributorError::IncorrectSigner)
        } else if code == 2 {
            Some(DistributorError::NotRentExempt)
        } else if code == 3 {
            Some(DistributorError::InvalidMint)
        } else if code == 4 {
            Some(DistributorError::ExpectedAmountMismatch)
        } else if code == 5 {
            Some(DistributorError::UnauthorizedAccount)
        } else if code == 6 {
            Some(DistributorError::IncorrectOwner)
        } else if code == 7 {
            Some(DistributorError::InvalidAccounts)
        } else if code == 8 {
            Some(DistributorError::InvalidMetadataAccount)
        } else if code == 9 {
            Some(DistributorError::InvalidSystemProgram)
        } else if code == 10 {
            Some(DistributorError::AmountOverflow)
        } else if code == 11 {
            Some(DistributorError::AmountUnderflow)
        } else if code == 12 {
            Some(DistributorError::DataTypeMismatch)
        } else if code == 13 {
            Some(DistributorError::DistributionNotStarted)
        } else if code == 14 {
            Some(DistributorError::IncorrectSymbol)
        } else if code == 15 {
            Some(DistributorError::TokensAlreadyClaimed)
        } else {
            None
        }
    }

    /// The numeric code under which the failure is reported.
    pub fn code(&self) -> (c: u32)
        ensures
            c == self.spec_code(),
            c < DISTRIBUTOR_ERROR_COUNT,
            DistributorError::spec_from_code(c) == Some(*self),
    {
        match self {
            DistributorError::InvalidInstruction => 0,
            DistributorError::IncorrectSigner => 1,
            DistributorError::NotRentExempt => 2,
            DistributorError::InvalidMint => 3,
            DistributorError::ExpectedAmountMismatch => 4,
            DistributorError::UnauthorizedAccount => 5,
            DistributorError::IncorrectOwner => 6,
            DistributorError::InvalidAccounts => 7,
            DistributorError::InvalidMetadataAccount => 8,
            DistributorError::InvalidSystemProgram => 9,
            DistributorError::AmountOverflow => 10,
            DistributorError::AmountUnderflow => 11,
            DistributorError::DataTypeMismatch => 12,
            DistributorError::DistributionNotStarted => 13,
            DistributorError::IncorrectSymbol => 14,
            DistributorError::TokensAlreadyClaimed => 15,
        }
    }

    /// The failure with the given code; `None` where no failure has it.
    pub fn from_code(code: u32) -> (e: Option<DistributorError>)
        ensures
            e == DistributorError::spec_from_code(code),
            e is Some <==> code < DISTRIBUTOR_ERROR_COUNT,
            e is Some ==> e->0.spec_code() == code,
    {
        match code {
            0 => Some(DistributorError::InvalidInstruction),
            1 => Some(DistributorError::IncorrectSigner),
            2 => Some(DistributorError::NotRentExempt),
            3 => Some(DistributorError::InvalidMint),
            4 => Some(DistributorError::ExpectedAmountMismatch),
            5 => Some(DistributorError::UnauthorizedAccount),
            6 => Some(DistributorError::IncorrectOwner),
            7 => Some(DistributorError::InvalidAccounts),
            8 => Some(DistributorError::InvalidMetadataAccount),
            9 => Some(DistributorError::InvalidSystemProgram),
            10 => Some(DistributorError::AmountOverflow),
            11 => Some(DistributorError::AmountUnderflow),
            12 => Some(DistributorError::DataTypeMismatch),
            13 => Some(DistributorError::DistributionNotStarted),
            14 => Some(DistributorError::IncorrectSymbol),
            15 => Some(DistributorError::TokensAlreadyClaimed),
            _ => None,
        }
    }

    /// The text that describes the failure.
    pub fn message(&self) -> (m: String)
        ensures
            m@ == self.spec_message(),
    {
        match self {
            DistributorError::InvalidInstruction => "Invalid Instruction".to_owned(),
            DistributorError::IncorrectSigner => "Incorrect signer".to_owned(),
            DistributorError::NotRentExempt => "State account not rent exempt".to_owned(),
            DistributorError::InvalidMint => "Invalid mint".to_owned(),
            DistributorError::ExpectedAmountMismatch => "Expected amount mismatch".to_owned(),
            DistributorError::UnauthorizedAccount => "Unauthorized account".to_owned(),
            DistributorError::IncorrectOwner => "Incorrect account owner".to_owned(),
            DistributorError::InvalidAccounts => "Invalid accounts".to_owned(),
            DistributorError::InvalidMetadataAccount => "Invalid metadata account".to_owned(),
            DistributorError::InvalidSystemProgram => "Invalid system program".to_owned(),
            DistributorError::AmountOverflow => "Amount overflow transferring lamports".to_owned(),
            DistributorError::AmountUnderflow => "Amount underflow transferring lamports".to_owned(),
            DistributorError::DataTypeMismatch => "Data type mismatch".to_owned(),
            DistributorError::DistributionNotStarted => "Distribution not started".to_owned(),
            DistributorError::IncorrectSymbol => "Incorrect symbol in metadata".to_owned(),
            DistributorError::TokensAlreadyClaimed => "Tokens already claimed".to_owned(),
        }
    }
}

/// Why an operation was abandoned: one of the distributor's own failures,
/// a failure of the run-time's own kind, or one that a collaborator reported.
#[derive(Clone, Copy, Debug, PartialEq, Eq, Structural)]
pub enum Failure {
    /// One of the distributor's own failures.
    Distributor(DistributorError),
    /// The asset's metadata carries no creator list at all.
    NoCreatorsPresentOnMetadata,
    /// The asset's metadata lists creators, and the collection's creator is
    /// not among them.
    CreatorNotFound,
    /// Fewer accounts were supplied than the operation refers to.
    NotEnoughAccountKeys,
    /// The account in the token program's place is another program.
    IncorrectProgramId,
    /// The slot that is to take a new campaign holds a live one.
    AccountAlreadyInitialized,
    /// No address can be derived from the seeds at hand.
    InvalidSeeds,
    /// A record's bytes do not decode, or a record does not fit its slot.
    BorshIoError,
    /// A collaborator failed; its code is handed on unchanged.
    Relayed(u64),
}

impl Failure {
    /// The number under which the run-time reports the failure. The
    /// distributor's own failures and the registry's are reported under
    /// their codes, but for the code zero, which the run-time keeps for
    /// success; the run-time's own kinds of failure are numbered in the
    /// upper half of the number.
    pub open spec fn spec_code(self) -> u64 {
        match self {
            Failure::Distributor(e) => if e.spec_code() == 0 {
                0x1_0000_0000u64
            } else {
                e.spec_code() as u64
            },
            Failure::NoCreatorsPresentOnMetadata => 39u64,
            Failure::CreatorNotFound => 40u64,
            Failure::NotEnoughAccountKeys => 0xB_0000_0000u64,
            Failure::IncorrectProgramId => 0x7_0000_0000u64,
            Failure::AccountAlreadyInitialized => 0x9_0000_0000u64,
            Failure::InvalidSeeds => 0xE_0000_0000u64,
            Failure::BorshIoError => 0xF_0000_0000u64,
            Failure::Relayed(code) => code,
        }
    }

    /// The number under which the run-time reports the failure.
    pub fn code(&self) -> (c: u64)
        ensures
            c == self.spec_code(),
            c != 0 || *self == Failure::Relayed(0),
    {
        match self {
            Failure::Distributor(e) => {
                let own: u32 = e.code();
                if own == 0 {
                    0x1_0000_0000
                } else {
                    own as u64
                }
            },
            Failure::NoCreatorsPresentOnMetadata => 39,
            Failure::CreatorNotFound => 40,
            Failure::NotEnoughAccountKeys => 0xB_0000_0000,
            Failure::IncorrectProgramId => 0x7_0000_0000,
            Failure::AccountAlreadyInitialized => 0x9_0000_0000,
            Failure::InvalidSeeds => 0xE_0000_0000,
            Failure::BorshIoError => 0xF_0000_0000,
            Failure::Relayed(code) => *code,
        }
    }
}

/// Two different failures never share a code.
pub proof fn codes_are_distinct(a: DistributorError, b: DistributorError)
    ensures
        a.spec_code() == b.spec_code() <==> a == b,
{
}

} // verus!
