//! The failure kinds of the escrow program and their codes.

use solana_program::program_error::ProgramError;
use vstd::prelude::*;

verus! {

/// Why the escrow program rejected an instruction. No kind carries a payload,
/// and none is retried by the program.
#[derive(Debug, Copy, Clone, PartialEq, Eq, Structural)]
pub enum EscrowError {
    /// The opcode is unknown, the payload is malformed or the account list
    /// does not have the shape the operation needs.
    InvalidInstruction,
    /// The record account holds too little to stay alive on the ledger.
    NotRentExempt,
    /// The amount delivered is not the amount recorded at initialization.
    ExpectedAmountMismatch,
    /// Arithmetic over amounts would leave the range of `u64`.
    AmountOverflow,
}

/// `solana_program::program_error::ProgramError`, the host runtime's failure
/// value. Nothing inside it is visible here; values are only carried through.
#[verifier::external_type_specification]
#[verifier::external_body]
pub struct ExProgramError(ProgramError);

/// The failure value that the host runtime builds for the program-defined
/// code `code`.
pub uninterp spec fn custom_program_error(code: u32) -> ProgramError;

/// Builds `ProgramError::Custom(code)`. Nothing is proved of it: the
/// contract only gives the value its name, so equal codes yield equal values.
#[verifier::external_body]
fn new_custom_program_error(code: u32) -> (e: ProgramError)
    ensures
        e == custom_program_error(code),
{
    ProgramError::Custom(code)
}

impl EscrowError {
    /// The number of this kind in the host runtime's custom code space.
    pub open spec fn spec_code(self) -> u32 {
        match self {
            EscrowError::InvalidInstruction => 0,
            EscrowError::NotRentExempt => 1,
            EscrowError::ExpectedAmountMismatch => 2,
            EscrowError::AmountOverflow => 3,
        }
    }

    /// The number of this kind in the host runtime's custom code space.
    #[verifier::when_used_as_spec(spec_code)]
    pub fn code(self) -> (c: u32)
        ensures
            c == self.spec_code(),
    {
        match self {
            EscrowError::InvalidInstruction => 0,
            EscrowError::NotRentExempt => 1,
            EscrowError::ExpectedAmountMismatch => 2,
            EscrowError::AmountOverflow => 3,
        }
    }

    /// The text shown for this kind.
    pub open spec fn spec_message(self) -> Seq<char> {
        match self {
            EscrowError::InvalidInstruction => "Invalid Instruction"@,
            EscrowError::NotRentExempt => "Not Rent Exempt"@,
            EscrowError::ExpectedAmountMismatch => "Expected Amount Mismatch"@,
            EscrowError::AmountOverflow => "Amount Overflow"@,
        }
    }

    /// The text shown for this kind.
    pub fn message(self) -> (s: &'static str)
        ensures
            s@ == self.spec_message(),
    {
        match self {
            EscrowError::InvalidInstruction => "Invalid Instruction",
            EscrowError::NotRentExempt => "Not Rent Exempt",
            EscrowError::ExpectedAmountMismatch => "Expected Amount Mismatch",
            EscrowError::AmountOverflow => "Amount Overflow",
        }
    }

    /// The text shown for this kind, as an owned string.
    pub fn to_string(self) -> (s: String)
        ensures
            s@ == self.spec_message(),
    {
        self.message().to_owned()
    }
}

impl From<EscrowError> for ProgramError {
    /// The host runtime's failure value for an escrow failure: the custom
    /// failure that carries the kind's code.
    fn from(e: EscrowError) -> (r: ProgramError) {
        new_custom_program_error(e.code())
    }
}

impl vstd::std_specs::convert::FromSpecImpl<EscrowError> for ProgramError {
    open spec fn obeys_from_spec() -> bool {
        true
    }

    open spec fn from_spec(e: EscrowError) -> ProgramError {
        custom_program_error(e.spec_code())
    }
}

/// Distinct kinds have distinct codes, and every code is below four.
pub proof fn lemma_codes_distinct(a: EscrowError, b: EscrowError)
    ensures
        a.spec_code() == b.spec_code() <==> a == b,
        a.spec_code() < 4,
{
}

} // verus!
