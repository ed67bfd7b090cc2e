use escrow::error::EscrowError;
use escrow::identity::{derive_authority, Identity, AUTHORITY_SEED};
use escrow::instruction::{EscrowInstruction, INSTRUCTION_LEN};
use escrow::state::{Escrow, ESCROW_LEN};
use escrow::wire::{u64_from_le, u64_to_le};
use solana_program::program_error::ProgramError;
use solana_program::pubkey::Pubkey;

fn id(n: u8) -> Identity {
    Identity::new([n; 32])
}

#[test]
fn error_codes_are_the_positions_of_the_kinds() {
    assert_eq!(EscrowError::InvalidInstruction.code(), 0);
    assert_eq!(EscrowError::NotRentExempt.code(), 1);
    assert_eq!(EscrowError::ExpectedAmountMismatch.code(), 2);
    assert_eq!(EscrowError::AmountOverflow.code(), 3);
}

#[test]
fn error_messages() {
    assert_eq!(EscrowError::InvalidInstruction.to_string(), "Invalid Instruction");
    assert_eq!(EscrowError::NotRentExempt.to_string(), "Not Rent Exempt");
    assert_eq!(EscrowError::ExpectedAmountMismatch.to_string(), "Expected Amount Mismatch");
    assert_eq!(EscrowError::AmountOverflow.to_string(), "Amount Overflow");
    assert_eq!(EscrowError::AmountOverflow.message(), "Amount Overflow");
}

#[test]
fn error_becomes_custom_program_error() {
    assert_eq!(ProgramError::from(EscrowError::InvalidInstruction), ProgramError::Custom(0));
    assert_eq!(ProgramError::from(EscrowError::NotRentExempt), ProgramError::Custom(1));
    assert_eq!(ProgramError::from(EscrowError::ExpectedAmountMismatch), ProgramError::Custom(2));
    assert_eq!(ProgramError::from(EscrowError::AmountOverflow), ProgramError::Custom(3));
    let e: ProgramError = EscrowError::AmountOverflow.into();
    assert_eq!(u64::from(e), 3);
}

#[test]
fn authority_seed_spells_escrow() {
    assert_eq!(&AUTHORITY_SEED, b"escrow");
}

#[test]
fn derived_authority_is_the_hosts_program_address() {
    for n in [0u8, 1, 7, 200, 255] {
        let program = id(n);
        let (expected, expected_bump) =
            Pubkey::find_program_address(&[b"escrow"], &Pubkey::new_from_array([n; 32]));
        let (authority, bump) = derive_authority(&program).unwrap();
        assert_eq!(authority.to_bytes(), expected.to_bytes());
        assert_eq!(bump, expected_bump);
        assert_ne!(authority, program);
        assert!(!Pubkey::new_from_array(authority.to_bytes()).is_on_curve());
    }
}

#[test]
fn derived_authority_depends_on_the_program() {
    let a = derive_authority(&id(1)).unwrap();
    let b = derive_authority(&id(2)).unwrap();
    assert_ne!(a.0, b.0);
    assert_eq!(derive_authority(&id(1)).unwrap(), a);
}

#[test]
fn identity_equality_is_by_bytes() {
    let mut bytes = [3u8; 32];
    assert_eq!(Identity::new(bytes), id(3));
    bytes[31] = 4;
    assert_ne!(Identity::new(bytes), id(3));
    bytes[31] = 3;
    bytes[0] = 0;
    assert_ne!(Identity::new(bytes), id(3));
    assert_eq!(Identity::zero().to_bytes(), [0u8; 32]);
}

#[test]
fn little_endian_values() {
    assert_eq!(u64_to_le(1_000_000), [0x40, 0x42, 0x0f, 0, 0, 0, 0, 0]);
    assert_eq!(u64_to_le(0), [0; 8]);
    assert_eq!(u64_to_le(u64::MAX), [0xff; 8]);
    assert_eq!(u64_to_le(0x0102_0304_0506_0708), [8, 7, 6, 5, 4, 3, 2, 1]);
    assert_eq!(u64_from_le(&[0x40, 0x42, 0x0f, 0, 0, 0, 0, 0], 0), 1_000_000);
    assert_eq!(u64_from_le(&[9, 8, 7, 6, 5, 4, 3, 2, 1], 1), 0x0102_0304_0506_0708);
    assert_eq!(u64_from_le(&[0xff; 8], 0), u64::MAX);
    for v in [0u64, 1, 255, 256, 65_535, 1 << 32, u64::MAX - 1, u64::MAX] {
        assert_eq!(u64_to_le(v), v.to_le_bytes());
        assert_eq!(u64_from_le(&u64_to_le(v), 0), v);
    }
}

#[test]
fn unpack_init_escrow() {
    let data = [0u8, 0x40, 0x42, 0x0f, 0, 0, 0, 0, 0];
    assert_eq!(
        EscrowInstruction::unpack(&data),
        Ok(EscrowInstruction::InitEscrow { amount: 1_000_000 })
    );
}

#[test]
fn unpack_exchange() {
    let data = [1u8, 0xff, 0xff, 0xff, 0xff, 0xff, 0xff, 0xff, 0xff];
    assert_eq!(EscrowInstruction::unpack(&data), Ok(EscrowInstruction::Exchange { amount: u64::MAX }));
    let data = [1u8, 1, 0, 0, 0, 0, 0, 0, 0];
    assert_eq!(EscrowInstruction::unpack(&data), Ok(EscrowInstruction::Exchange { amount: 1 }));
}

#[test]
fn unpack_rejects_unknown_opcode() {
    for tag in [2u8, 3, 127, 255] {
        let data = [tag, 1, 0, 0, 0, 0, 0, 0, 0];
        assert_eq!(EscrowInstruction::unpack(&data), Err(EscrowError::InvalidInstruction));
    }
}

#[test]
fn unpack_rejects_other_lengths() {
    assert_eq!(EscrowInstruction::unpack(&[]), Err(EscrowError::InvalidInstruction));
    assert_eq!(EscrowInstruction::unpack(&[0]), Err(EscrowError::InvalidInstruction));
    assert_eq!(EscrowInstruction::unpack(&[0; 8]), Err(EscrowError::InvalidInstruction));
    assert_eq!(EscrowInstruction::unpack(&[1; 10]), Err(EscrowError::InvalidInstruction));
    assert_eq!(INSTRUCTION_LEN, 9);
}

#[test]
fn pack_then_unpack_instruction() {
    for amount in [0u64, 1, 999_999, 1_000_000, u64::MAX] {
        let init = EscrowInstruction::InitEscrow { amount };
        let exchange = EscrowInstruction::Exchange { amount };
        assert_eq!(init.pack()[0], 0);
        assert_eq!(exchange.pack()[0], 1);
        assert_eq!(init.pack()[1..], amount.to_le_bytes());
        assert_eq!(EscrowInstruction::unpack(&init.pack()), Ok(init));
        assert_eq!(EscrowInstruction::unpack(&exchange.pack()), Ok(exchange));
    }
}

fn sample_record() -> Escrow {
    Escrow {
        is_initialized: true,
        initializer_pubkey: id(1),
        temp_token_account_pubkey: id(2),
        initializer_token_to_receive_account_pubkey: id(3),
        expected_amount: 1_000_000,
    }
}

#[test]
fn record_layout() {
    let bytes = sample_record().pack();
    assert_eq!(bytes.len(), 105);
    assert_eq!(ESCROW_LEN, 105);
    assert_eq!(bytes[0], 1);
    assert_eq!(bytes[1..33], [1u8; 32]);
    assert_eq!(bytes[33..65], [2u8; 32]);
    assert_eq!(bytes[65..97], [3u8; 32]);
    assert_eq!(bytes[97..105], 1_000_000u64.to_le_bytes());
}

#[test]
fn record_round_trip() {
    let record = sample_record();
    assert_eq!(Escrow::unpack_unchecked(&record.pack()), Some(record));
    assert_eq!(Escrow::unpack(&record.pack()), Some(record));
    assert!(record.is_initialized());
    let max = Escrow { expected_amount: u64::MAX, ..record };
    assert_eq!(Escrow::unpack(&max.pack()), Some(max));
}

#[test]
fn zeroed_record_is_zero_bytes_and_not_live() {
    let zeroed = Escrow::zeroed();
    assert!(!zeroed.is_initialized());
    assert_eq!(zeroed.pack(), [0u8; 105]);
    assert_eq!(Escrow::unpack_unchecked(&[0u8; 105]), Some(zeroed));
    assert_eq!(Escrow::unpack(&[0u8; 105]), None);
}

#[test]
fn record_that_is_not_live_unpacks_unchecked_only() {
    let record = Escrow { is_initialized: false, ..sample_record() };
    assert_eq!(record.pack()[0], 0);
    assert_eq!(Escrow::unpack_unchecked(&record.pack()), Some(record));
    assert_eq!(Escrow::unpack(&record.pack()), None);
}

#[test]
fn record_rejects_malformed_bytes() {
    let mut bytes = sample_record().pack();
    bytes[0] = 2;
    assert_eq!(Escrow::unpack_unchecked(&bytes), None);
    assert_eq!(Escrow::unpack(&bytes), None);
    let good = sample_record().pack();
    assert_eq!(Escrow::unpack_unchecked(&good[..104]), None);
    assert_eq!(Escrow::unpack_unchecked(&[]), None);
    let mut long = good.to_vec();
    long.push(0);
    assert_eq!(Escrow::unpack_unchecked(&long), None);
}
