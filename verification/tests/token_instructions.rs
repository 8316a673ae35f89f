//! Whole instructions for the token program, as a client would send them.

use instruction_dispatch::{
    process_instruction, Account, Action, AuthorityType, Identifier, Invocation,
};

fn key(n: u8) -> Identifier {
    [n; 32]
}

fn writable(n: u8, is_signer: bool) -> Account {
    Account { address: key(n), is_signer, is_writable: true }
}

fn readonly(n: u8, is_signer: bool) -> Account {
    Account { address: key(n), is_signer, is_writable: false }
}

const PROGRAM: u8 = 200;
const TOKEN_PROGRAM: u8 = 100;

#[test]
fn test_approve() {
    let amount: u64 = 500_000;
    let mut data = vec![23u8];
    data.extend_from_slice(&amount.to_le_bytes());
    let accounts = vec![
        writable(1, false),
        readonly(2, false),
        readonly(3, true),
        readonly(TOKEN_PROGRAM, false),
    ];

    let result = process_instruction(&key(PROGRAM), &accounts, &data);

    assert!(!result.is_err(), "Result: {:?}", result);
    assert_eq!(
        result,
        Ok(Action::Invoke(Invocation::Approve {
            source: 0,
            delegate: 1,
            authority: 2,
            amount: 500_000,
        }))
    );
}

#[test]
fn test_approve_checked() {
    let amount: u64 = 500_000;
    let decimals: u8 = 9;
    let mut data = vec![32u8];
    data.extend_from_slice(&amount.to_le_bytes());
    data.push(decimals);
    let accounts = vec![
        writable(1, false),
        readonly(2, false),
        readonly(3, false),
        readonly(4, true),
        readonly(TOKEN_PROGRAM, false),
    ];

    let result = process_instruction(&key(PROGRAM), &accounts, &data);

    assert!(!result.is_err(), "Result: {:?}", result);
    assert_eq!(
        result,
        Ok(Action::Invoke(Invocation::ApproveChecked {
            source: 0,
            mint: 1,
            delegate: 2,
            authority: 3,
            amount: 500_000,
            decimals: 9,
        }))
    );
}

#[test]
fn test_burn() {
    let amount: u64 = 100_000;
    let mut instruction_data = vec![27u8];
    instruction_data.extend_from_slice(&amount.to_le_bytes());
    let accounts = vec![
        writable(1, false),
        writable(2, false),
        readonly(3, true),
        readonly(TOKEN_PROGRAM, false),
    ];

    let result = process_instruction(&key(PROGRAM), &accounts, &instruction_data);

    assert!(!result.is_err(), "Result: {:?}", result);
    assert_eq!(
        result,
        Ok(Action::Invoke(Invocation::Burn { account: 0, mint: 1, authority: 2, amount: 100_000 }))
    );
}

#[test]
fn test_burn_checked() {
    let amount: u64 = 100_000;
    let decimals: u8 = 9;
    let mut data = vec![34u8];
    data.extend_from_slice(&amount.to_le_bytes());
    data.push(decimals);
    let accounts = vec![
        writable(1, false),
        writable(2, false),
        readonly(3, true),
        readonly(TOKEN_PROGRAM, false),
    ];

    let result = process_instruction(&key(PROGRAM), &accounts, &data);

    assert!(!result.is_err(), "Result: {:?}", result);
    assert_eq!(
        result,
        Ok(Action::Invoke(Invocation::BurnChecked {
            account: 0,
            mint: 1,
            authority: 2,
            amount: 100_000,
            decimals: 9,
        }))
    );
}

#[test]
fn test_close_account() {
    let accounts = vec![
        writable(1, false),
        writable(2, false),
        readonly(3, true),
        readonly(TOKEN_PROGRAM, false),
    ];

    let result = process_instruction(&key(PROGRAM), &accounts, &[28u8]);

    assert!(!result.is_err(), "Result: {:?}", result);
    assert_eq!(
        result,
        Ok(Action::Invoke(Invocation::CloseAccount { account: 0, destination: 1, authority: 2 }))
    );
}

#[test]
fn test_freeze_account() {
    let accounts = vec![
        writable(1, false),
        readonly(2, false),
        readonly(3, true),
        readonly(TOKEN_PROGRAM, false),
    ];

    let result = process_instruction(&key(PROGRAM), &accounts, &[29u8]);

    assert!(!result.is_err(), "Result: {:?}", result);
    assert_eq!(
        result,
        Ok(Action::Invoke(Invocation::FreezeAccount { account: 0, mint: 1, freeze_authority: 2 }))
    );
}

#[test]
fn test_mint_to_checked() {
    let amount: u64 = 1_000_000;
    let decimals: u8 = 9;
    let mut data = vec![33u8];
    data.extend_from_slice(&amount.to_le_bytes());
    data.push(decimals);
    let accounts = vec![
        writable(1, false),
        writable(2, false),
        readonly(3, true),
        readonly(TOKEN_PROGRAM, false),
    ];

    let result = process_instruction(&key(PROGRAM), &accounts, &data);

    assert!(!result.is_err(), "Result: {:?}", result);
    assert_eq!(
        result,
        Ok(Action::Invoke(Invocation::MintToChecked {
            mint: 0,
            account: 1,
            mint_authority: 2,
            amount: 1_000_000,
            decimals: 9,
        }))
    );
}

#[test]
fn test_revoke() {
    let accounts = vec![writable(1, false), readonly(2, true), readonly(TOKEN_PROGRAM, false)];

    let result = process_instruction(&key(PROGRAM), &accounts, &[24u8]);

    assert!(!result.is_err(), "Result: {:?}", result);
    assert_eq!(result, Ok(Action::Invoke(Invocation::Revoke { source: 0, authority: 1 })));
}

#[test]
fn test_set_authority() {
    let new_authority = key(9);
    let mut data = vec![25u8];
    data.push(0); // the authority that may mint
    data.push(1); // a new authority follows
    data.extend_from_slice(new_authority.as_ref());
    let accounts = vec![writable(1, false), readonly(2, true), readonly(TOKEN_PROGRAM, false)];

    let result = process_instruction(&key(PROGRAM), &accounts, &data);

    assert!(!result.is_err(), "Result: {:?}", result);
    assert_eq!(
        result,
        Ok(Action::Invoke(Invocation::SetAuthority {
            account: 0,
            authority: 1,
            authority_type: AuthorityType::MintTokens,
            new_authority: Some(new_authority),
        }))
    );
}

#[test]
fn test_sync_native() {
    let accounts = vec![writable(1, false), readonly(TOKEN_PROGRAM, false)];

    let result = process_instruction(&key(PROGRAM), &accounts, &[35u8]);

    assert!(!result.is_err(), "Result: {:?}", result);
    assert_eq!(result, Ok(Action::Invoke(Invocation::SyncNative { native_token: 0 })));
}

#[test]
fn test_thaw_account() {
    let accounts = vec![
        writable(1, false),
        readonly(2, false),
        readonly(3, true),
        readonly(TOKEN_PROGRAM, false),
    ];

    let result = process_instruction(&key(PROGRAM), &accounts, &[30u8]);

    assert!(!result.is_err(), "Result: {:?}", result);
    assert_eq!(
        result,
        Ok(Action::Invoke(Invocation::ThawAccount { account: 0, mint: 1, freeze_authority: 2 }))
    );
}

#[test]
fn test_transfer_checked() {
    let amount: u64 = 100_000;
    let decimals: u8 = 9;
    let mut data = vec![31u8];
    data.extend_from_slice(&amount.to_le_bytes());
    data.push(decimals);
    let accounts = vec![
        writable(1, false),
        readonly(2, false),
        writable(3, false),
        readonly(4, true),
        readonly(TOKEN_PROGRAM, false),
    ];

    let result = process_instruction(&key(PROGRAM), &accounts, &data);

    assert!(!result.is_err(), "Result: {:?}", result);
    assert_eq!(
        result,
        Ok(Action::Invoke(Invocation::TransferChecked {
            from: 0,
            mint: 1,
            to: 2,
            authority: 3,
            amount: 100_000,
            decimals: 9,
        }))
    );
}
