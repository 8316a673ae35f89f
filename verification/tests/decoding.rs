//! From a payload to a typed instruction.

use instruction_dispatch::{decode, lookup, AuthorityType, Failure, Instruction, Opcode};

fn identifier_payload() -> (Vec<u8>, [u8; 32]) {
    let mut id = [0u8; 32];
    for i in 0..32usize {
        id[i] = 100 + i as u8;
    }
    (id.to_vec(), id)
}

#[test]
fn opcode_of_an_instruction() {
    assert_eq!(Instruction::Transfer { lamports: 1 }.opcode(), Opcode::Transfer);
    assert_eq!(Instruction::TokenTransfer { amount: 1 }.opcode(), Opcode::TokenTransfer);
    assert_eq!(Instruction::AllocateWithSeed.opcode(), Opcode::AllocateWithSeed);
    assert_eq!(Instruction::SyncNative.opcode(), Opcode::SyncNative);
    assert_eq!(
        Instruction::SetAuthority { authority_type: AuthorityType::MintTokens, new_authority: None }
            .opcode(),
        Opcode::SetAuthority
    );
}

#[test]
fn a_decoded_instruction_is_of_the_opcode_asked_for() {
    let payload = [0u8; 64];
    for discriminator in 0..=255u8 {
        if let Some(entry) = lookup(discriminator) {
            let instruction = decode(entry.opcode, &payload).unwrap();
            assert_eq!(instruction.opcode(), entry.opcode);
        }
    }
}

#[test]
fn authority_type_codes() {
    assert_eq!(AuthorityType::from_code(0), Some(AuthorityType::MintTokens));
    assert_eq!(AuthorityType::from_code(1), Some(AuthorityType::FreezeAccount));
    assert_eq!(AuthorityType::from_code(2), Some(AuthorityType::AccountOwner));
    assert_eq!(AuthorityType::from_code(3), Some(AuthorityType::CloseAccount));
    for code in 4..=255u8 {
        assert_eq!(AuthorityType::from_code(code), None);
    }
    for code in 0..4u8 {
        assert_eq!(AuthorityType::from_code(code).unwrap().code(), code);
    }
}

#[test]
fn operations_without_fields() {
    let empty: [u8; 0] = [];
    assert_eq!(decode(Opcode::AdvanceNonce, &empty), Ok(Instruction::AdvanceNonce));
    assert_eq!(decode(Opcode::UpdateNonce, &empty), Ok(Instruction::UpdateNonce));
    assert_eq!(decode(Opcode::InitAccount, &empty), Ok(Instruction::InitAccount));
    assert_eq!(decode(Opcode::Revoke, &empty), Ok(Instruction::Revoke));
    assert_eq!(decode(Opcode::CloseAccount, &empty), Ok(Instruction::CloseAccount));
    assert_eq!(decode(Opcode::FreezeAccount, &empty), Ok(Instruction::FreezeAccount));
    assert_eq!(decode(Opcode::ThawAccount, &empty), Ok(Instruction::ThawAccount));
    assert_eq!(decode(Opcode::SyncNative, &empty), Ok(Instruction::SyncNative));
    assert_eq!(decode(Opcode::Revoke, &[1, 2, 3]), Ok(Instruction::Revoke));
}

#[test]
fn seed_operations_read_nothing() {
    let empty: [u8; 0] = [];
    assert_eq!(decode(Opcode::AllocateWithSeed, &empty), Ok(Instruction::AllocateWithSeed));
    assert_eq!(decode(Opcode::AssignWithSeed, &[5]), Ok(Instruction::AssignWithSeed));
    assert_eq!(
        decode(Opcode::CreateAccountWithSeed, &[0xff; 100]),
        Ok(Instruction::CreateAccountWithSeed)
    );
    assert_eq!(
        decode(Opcode::TransferWithSeed, &1_000_000u64.to_le_bytes()),
        Ok(Instruction::TransferWithSeed)
    );
}

#[test]
fn amounts() {
    let payload = 1_000_000u64.to_le_bytes();
    assert_eq!(
        decode(Opcode::Transfer, &payload),
        Ok(Instruction::Transfer { lamports: 1_000_000 })
    );
    assert_eq!(decode(Opcode::Allocate, &payload), Ok(Instruction::Allocate { space: 1_000_000 }));
    assert_eq!(
        decode(Opcode::WithdrawNonce, &payload),
        Ok(Instruction::WithdrawNonce { lamports: 1_000_000 })
    );
    assert_eq!(
        decode(Opcode::TokenTransfer, &payload),
        Ok(Instruction::TokenTransfer { amount: 1_000_000 })
    );
    assert_eq!(decode(Opcode::Approve, &payload), Ok(Instruction::Approve { amount: 1_000_000 }));
    assert_eq!(decode(Opcode::MintTo, &payload), Ok(Instruction::MintTo { amount: 1_000_000 }));
    assert_eq!(decode(Opcode::Burn, &payload), Ok(Instruction::Burn { amount: 1_000_000 }));
}

#[test]
fn amounts_with_decimals() {
    let mut payload = 100_000u64.to_le_bytes().to_vec();
    payload.push(9);
    assert_eq!(
        decode(Opcode::TransferChecked, &payload),
        Ok(Instruction::TransferChecked { amount: 100_000, decimals: 9 })
    );
    assert_eq!(
        decode(Opcode::ApproveChecked, &payload),
        Ok(Instruction::ApproveChecked { amount: 100_000, decimals: 9 })
    );
    assert_eq!(
        decode(Opcode::MintToChecked, &payload),
        Ok(Instruction::MintToChecked { amount: 100_000, decimals: 9 })
    );
    assert_eq!(
        decode(Opcode::BurnChecked, &payload),
        Ok(Instruction::BurnChecked { amount: 100_000, decimals: 9 })
    );
}

#[test]
fn identifiers() {
    let (payload, id) = identifier_payload();
    assert_eq!(decode(Opcode::Assign, &payload), Ok(Instruction::Assign { owner: id }));
    assert_eq!(decode(Opcode::InitNonce, &payload), Ok(Instruction::InitNonce { authority: id }));
    assert_eq!(
        decode(Opcode::AuthorizeNonce, &payload),
        Ok(Instruction::AuthorizeNonce { new_authority: id })
    );
}

#[test]
fn account_creation() {
    let (tail, id) = identifier_payload();
    let mut payload = 1_000_000u64.to_le_bytes().to_vec();
    payload.extend_from_slice(&100u64.to_le_bytes());
    payload.extend_from_slice(&tail);
    assert_eq!(payload.len(), 48);
    assert_eq!(
        decode(Opcode::CreateAccount, &payload),
        Ok(Instruction::CreateAccount { lamports: 1_000_000, space: 100, owner: id })
    );
}

#[test]
fn new_mint() {
    assert_eq!(decode(Opcode::InitMint, &[9]), Ok(Instruction::InitMint { decimals: 9 }));
    assert_eq!(decode(Opcode::InitMint, &[0, 7, 7]), Ok(Instruction::InitMint { decimals: 0 }));
    assert_eq!(decode(Opcode::InitMint, &[255]), Ok(Instruction::InitMint { decimals: 255 }));
}

#[test]
fn set_authority_with_a_new_authority() {
    let (tail, id) = identifier_payload();
    for (code, authority_type) in [
        (0u8, AuthorityType::MintTokens),
        (1, AuthorityType::FreezeAccount),
        (2, AuthorityType::AccountOwner),
        (3, AuthorityType::CloseAccount),
    ] {
        let mut payload = vec![code, 1];
        payload.extend_from_slice(&tail);
        assert_eq!(
            decode(Opcode::SetAuthority, &payload),
            Ok(Instruction::SetAuthority { authority_type, new_authority: Some(id) })
        );
    }
}

#[test]
fn set_authority_without_a_new_authority() {
    let none = Ok(Instruction::SetAuthority {
        authority_type: AuthorityType::AccountOwner,
        new_authority: None,
    });
    assert_eq!(decode(Opcode::SetAuthority, &[2]), none);
    assert_eq!(decode(Opcode::SetAuthority, &[2, 0]), none);
    let mut ignored = vec![2u8, 0];
    ignored.extend_from_slice(&[7u8; 32]);
    assert_eq!(decode(Opcode::SetAuthority, &ignored), none);
}

#[test]
fn set_authority_with_an_unknown_selector() {
    for code in [4u8, 5, 100, 255] {
        assert_eq!(decode(Opcode::SetAuthority, &[code]), Err(Failure::InvalidFieldValue));
        let mut payload = vec![code, 1];
        payload.extend_from_slice(&[7u8; 32]);
        assert_eq!(decode(Opcode::SetAuthority, &payload), Err(Failure::InvalidFieldValue));
    }
    assert_eq!(decode(Opcode::SetAuthority, &[4, 9]), Err(Failure::InvalidFieldValue));
}

#[test]
fn set_authority_with_a_bad_flag() {
    let mut payload = vec![0u8, 2];
    payload.extend_from_slice(&[7u8; 32]);
    assert_eq!(decode(Opcode::SetAuthority, &payload), Err(Failure::InvalidFieldValue));
    assert_eq!(decode(Opcode::SetAuthority, &[0, 255]), Err(Failure::InvalidFieldValue));
}

#[test]
fn set_authority_cut_short() {
    let empty: [u8; 0] = [];
    assert_eq!(decode(Opcode::SetAuthority, &empty), Err(Failure::PayloadTooShort));
    let mut payload = vec![0u8, 1];
    payload.extend_from_slice(&[7u8; 31]);
    assert_eq!(decode(Opcode::SetAuthority, &payload), Err(Failure::PayloadTooShort));
    assert_eq!(decode(Opcode::SetAuthority, &[0, 1]), Err(Failure::PayloadTooShort));
}

#[test]
fn one_byte_short_is_too_short() {
    for discriminator in 0..=255u8 {
        if let Some(entry) = lookup(discriminator) {
            let exact = vec![0u8; entry.min_payload_len];
            assert!(decode(entry.opcode, &exact).is_ok(), "{}", discriminator);
            if entry.min_payload_len > 0 {
                let short = vec![0u8; entry.min_payload_len - 1];
                assert_eq!(
                    decode(entry.opcode, &short),
                    Err(Failure::PayloadTooShort),
                    "{}",
                    discriminator
                );
                let empty: [u8; 0] = [];
                assert_eq!(
                    decode(entry.opcode, &empty),
                    Err(Failure::PayloadTooShort),
                    "{}",
                    discriminator
                );
            }
        }
    }
}

#[test]
fn bytes_behind_the_last_field_are_ignored() {
    let mut payload = 42u64.to_le_bytes().to_vec();
    let plain = decode(Opcode::Transfer, &payload);
    payload.extend_from_slice(&[1, 2, 3, 4]);
    assert_eq!(decode(Opcode::Transfer, &payload), plain);
    assert_eq!(plain, Ok(Instruction::Transfer { lamports: 42 }));

    let mut checked = 42u64.to_le_bytes().to_vec();
    checked.push(6);
    let plain = decode(Opcode::BurnChecked, &checked);
    checked.push(99);
    assert_eq!(decode(Opcode::BurnChecked, &checked), plain);
}

#[test]
fn payloads_that_agree_on_the_fields_decode_alike() {
    let (tail, _) = identifier_payload();
    let mut first = vec![1u8, 1];
    first.extend_from_slice(&tail);
    let mut second = first.clone();
    second.extend_from_slice(&[0xee; 5]);
    assert_eq!(decode(Opcode::SetAuthority, &first), decode(Opcode::SetAuthority, &second));

    let mut third = first.clone();
    third[33] ^= 1;
    assert_ne!(decode(Opcode::SetAuthority, &first), decode(Opcode::SetAuthority, &third));
}
