use escrow::account::Account;
use escrow::error::{ErrorKind, EscrowError, ProcessError};
use escrow::processor::{assert_owned_by, close_escrow_account, Processor};
use escrow::pubkey::Pubkey;
use escrow::token::{AuthorityType, TokenOperation};
use solana_program::program_error::ProgramError;
use solana_program::pubkey::Pubkey as Address;

fn key(n: u8) -> Pubkey {
    Pubkey::new_from_array([n; 32])
}

fn address(key: &Pubkey) -> Address {
    Address::new_from_array(key.bytes)
}

fn token_program_key() -> Pubkey {
    Pubkey::new_from_array(spl_token::id().to_bytes())
}

fn account(key: Pubkey, owner: Pubkey, lamports: u64, data: Vec<u8>) -> Account {
    Account {
        key,
        is_signer: false,
        is_writable: true,
        lamports,
        data,
        owner,
        executable: false,
        rent_epoch: 0,
    }
}

fn rent_sysvar(lamports_per_byte_year: u64) -> Account {
    let mut data = Vec::new();
    data.extend_from_slice(&lamports_per_byte_year.to_le_bytes());
    data.extend_from_slice(&2.0f64.to_le_bytes());
    data.push(50);
    account(
        Pubkey::new_from_array(solana_program::sysvar::rent::id().to_bytes()),
        Pubkey::new_from_array(solana_program::sysvar::id().to_bytes()),
        1,
        data,
    )
}

#[test]
fn authority_seed_spells_escrow() {
    assert_eq!(Processor::authority_seed(), b"escrow".to_vec());
}

#[test]
fn authority_is_the_derived_program_address() {
    for n in [0u8, 1, 77, 255] {
        let id = address(&key(n));
        let (expected, bump) = Address::find_program_address(&[b"escrow", id.as_ref()], &id);
        let found = Processor::authority(&key(n));
        assert_eq!(found, Some((Pubkey::new_from_array(expected.to_bytes()), bump)));
        assert_ne!(found.unwrap().0, key(n));
    }
}

#[test]
fn authority_is_reproducible() {
    let first = Processor::authority(&key(42));
    let second = Processor::authority(&Pubkey::new_from_array([42; 32]));
    assert!(first.is_some());
    assert_eq!(first, second);
    assert_ne!(first, Processor::authority(&key(43)));
}

fn listed(n: u8) -> Vec<Account> {
    let mut accounts: Vec<Account> =
        (0..n).map(|n| account(key(n), key(100), 0, Vec::new())).collect();
    if accounts.len() > 5 {
        accounts[5].key = token_program_key();
    }
    if accounts.len() > 7 {
        accounts[7].key = token_program_key();
    }
    accounts
}

#[test]
fn init_call_hands_custody_to_the_authority() {
    let (authority, _) = Processor::authority(&key(77)).unwrap();
    let call = Processor::init_call(&key(77), &listed(6)).unwrap();
    assert_eq!(
        call.operation,
        TokenOperation::SetAuthority {
            account: key(1),
            authority_type: AuthorityType::AccountOwner,
            new_authority: authority,
            current_authority: key(0),
        }
    );
    assert_eq!(call.accounts, vec![1, 0, 5]);
    assert!(call.signer_seeds.is_empty());
    let expected = spl_token::instruction::set_authority(
        &spl_token::id(),
        &address(&key(1)),
        Some(&address(&authority)),
        spl_token::instruction::AuthorityType::AccountOwner,
        &address(&key(0)),
        &[&address(&key(0))],
    )
    .unwrap();
    assert_eq!(call.instruction, expected);
}

#[test]
fn init_call_needs_the_token_program() {
    let mut accounts = listed(6);
    accounts[5].key = key(5);
    assert_eq!(
        Processor::init_call(&key(77), &accounts),
        Err(ProcessError::Collaborator(ProgramError::IncorrectProgramId))
    );
}

#[test]
fn exchange_calls_name_accounts_amounts_and_seeds() {
    let accounts = listed(9);
    let record = escrow::state::Escrow {
        is_initialized: true,
        initializer_pubkey: key(4),
        temp_token_account_pubkey: key(3),
        initializer_token_to_receive_account_pubkey: key(5),
        expected_amount: 50,
    };
    let (authority, bump) = Processor::authority(&key(77)).unwrap();
    let (to_initializer, to_taker, close) =
        Processor::exchange_calls(&key(77), &accounts, &record, 100).unwrap();
    let seeds = vec![b"escrow".to_vec(), vec![77u8; 32], vec![bump]];
    assert_eq!(Processor::authority_signer_seeds(&key(77), bump), seeds);

    assert_eq!(
        to_initializer.operation,
        TokenOperation::Transfer {
            source: key(1),
            destination: token_program_key(),
            authority: key(0),
            amount: 50
        }
    );
    assert_eq!(to_initializer.accounts, vec![1, 5, 0, 7]);
    assert!(to_initializer.signer_seeds.is_empty());
    assert_eq!(
        Ok(to_initializer.instruction),
        to_initializer.operation.instruction(&token_program_key())
    );

    assert_eq!(
        to_taker.operation,
        TokenOperation::Transfer {
            source: key(3),
            destination: key(2),
            authority,
            amount: 100
        }
    );
    assert_eq!(to_taker.accounts, vec![3, 2, 8, 7]);
    assert_eq!(to_taker.signer_seeds, seeds);
    let expected = spl_token::instruction::transfer(
        &spl_token::id(),
        &address(&key(3)),
        &address(&key(2)),
        &address(&authority),
        &[&address(&authority)],
        100,
    )
    .unwrap();
    assert_eq!(to_taker.instruction, expected);

    assert_eq!(
        close.operation,
        TokenOperation::CloseAccount { account: key(3), destination: key(4), authority }
    );
    assert_eq!(close.accounts, vec![3, 4, 8, 7]);
    assert_eq!(close.signer_seeds, seeds);
    assert_eq!(close.operation.authority(), authority);
    assert_eq!(Ok(close.instruction), close.operation.instruction(&token_program_key()));
}

#[test]
fn exchange_calls_need_the_token_program() {
    let mut accounts = listed(9);
    accounts[7].key = key(7);
    let record = escrow::state::Escrow {
        is_initialized: true,
        initializer_pubkey: key(4),
        temp_token_account_pubkey: key(3),
        initializer_token_to_receive_account_pubkey: key(5),
        expected_amount: 50,
    };
    assert_eq!(
        Processor::exchange_calls(&key(77), &accounts, &record, 100),
        Err(ProcessError::Collaborator(ProgramError::IncorrectProgramId))
    );
}

#[test]
fn send_leaves_unlisted_accounts_alone() {
    // No ledger stands behind this call: it is answered without effect.
    let mut accounts = listed(6);
    let before = accounts.clone();
    let call = Processor::init_call(&key(77), &accounts).unwrap();
    let result = Processor::send(&call, &mut accounts);
    assert!(result.is_ok() || result.unwrap_err().kind() == ErrorKind::Collaborator);
    assert_eq!(accounts[2], before[2]);
    assert_eq!(accounts[3], before[3]);
    assert_eq!(accounts[4], before[4]);
}

#[test]
fn transfer_instruction_is_what_the_token_program_expects() {
    let operation = TokenOperation::Transfer {
        source: key(1),
        destination: key(2),
        authority: key(3),
        amount: 50,
    };
    let expected = spl_token::instruction::transfer(
        &spl_token::id(),
        &address(&key(1)),
        &address(&key(2)),
        &address(&key(3)),
        &[&address(&key(3))],
        50,
    )
    .unwrap();
    assert_eq!(operation.instruction(&token_program_key()), Ok(expected.clone()));
    assert_eq!(expected.data, vec![3u8, 50, 0, 0, 0, 0, 0, 0, 0]);
    assert_eq!(expected.accounts.len(), 4);
}

#[test]
fn set_authority_instruction_is_what_the_token_program_expects() {
    let operation = TokenOperation::SetAuthority {
        account: key(1),
        authority_type: AuthorityType::AccountOwner,
        new_authority: key(2),
        current_authority: key(3),
    };
    let expected = spl_token::instruction::set_authority(
        &spl_token::id(),
        &address(&key(1)),
        Some(&address(&key(2))),
        spl_token::instruction::AuthorityType::AccountOwner,
        &address(&key(3)),
        &[&address(&key(3))],
    )
    .unwrap();
    assert_eq!(operation.instruction(&token_program_key()), Ok(expected));
    let other = TokenOperation::SetAuthority {
        account: key(1),
        authority_type: AuthorityType::CloseAccount,
        new_authority: key(2),
        current_authority: key(3),
    };
    let expected = spl_token::instruction::set_authority(
        &spl_token::id(),
        &address(&key(1)),
        Some(&address(&key(2))),
        spl_token::instruction::AuthorityType::CloseAccount,
        &address(&key(3)),
        &[&address(&key(3))],
    )
    .unwrap();
    assert_eq!(other.instruction(&token_program_key()), Ok(expected));
}

#[test]
fn close_account_instruction_is_what_the_token_program_expects() {
    let operation =
        TokenOperation::CloseAccount { account: key(1), destination: key(2), authority: key(3) };
    let expected = spl_token::instruction::close_account(
        &spl_token::id(),
        &address(&key(1)),
        &address(&key(2)),
        &address(&key(3)),
        &[&address(&key(3))],
    )
    .unwrap();
    assert_eq!(operation.instruction(&token_program_key()), Ok(expected));
}

#[test]
fn instruction_for_another_program_is_refused() {
    let operations = [
        TokenOperation::Transfer {
            source: key(1),
            destination: key(2),
            authority: key(3),
            amount: 50,
        },
        TokenOperation::CloseAccount { account: key(1), destination: key(2), authority: key(3) },
        TokenOperation::SetAuthority {
            account: key(1),
            authority_type: AuthorityType::AccountOwner,
            new_authority: key(2),
            current_authority: key(3),
        },
    ];
    for operation in operations {
        assert_eq!(operation.instruction(&key(9)), Err(ProgramError::IncorrectProgramId));
    }
}

#[test]
fn token_program_owns_what_it_owns() {
    let owned = account(key(1), token_program_key(), 0, Vec::new());
    assert_eq!(assert_owned_by(&owned, &token_program_key()), Ok(()));
    assert_eq!(
        assert_owned_by(&owned, &key(1)),
        Err(ProcessError::Escrow(EscrowError::IncorrectProgramId))
    );
}

#[test]
fn rent_exemption_at_the_minimum_balance() {
    let sysvar = rent_sysvar(3480);
    // (128 + 105) bytes at 3480 lamports for two years.
    assert_eq!(Processor::is_rent_exempt(&sysvar, 1_621_680, 105), Ok(true));
    assert_eq!(Processor::is_rent_exempt(&sysvar, 1_621_679, 105), Ok(false));
    assert_eq!(Processor::is_rent_exempt(&sysvar, 128 * 3480 * 2, 0), Ok(true));
    assert_eq!(Processor::is_rent_exempt(&sysvar, 128 * 3480 * 2 - 1, 0), Ok(false));
}

#[test]
fn rent_schedule_out_of_range_exempts_none() {
    let sysvar = rent_sysvar(u64::MAX / 200);
    assert_eq!(Processor::is_rent_exempt(&sysvar, u64::MAX, 105), Ok(false));
    let sysvar = rent_sysvar(u64::MAX / 233);
    assert_eq!(Processor::is_rent_exempt(&sysvar, u64::MAX, 105), Ok(true));
}

#[test]
fn rent_is_read_from_the_rent_sysvar_only() {
    let mut sysvar = rent_sysvar(3480);
    sysvar.key = key(5);
    let result = Processor::is_rent_exempt(&sysvar, u64::MAX, 105);
    assert_eq!(result, Err(ProcessError::Collaborator(ProgramError::InvalidArgument)));
    let mut sysvar = rent_sysvar(3480);
    sysvar.data.truncate(16);
    let result = Processor::is_rent_exempt(&sysvar, u64::MAX, 105);
    assert_eq!(result.unwrap_err().kind(), ErrorKind::Collaborator);
}

#[test]
fn closing_moves_the_balance_and_clears_the_data() {
    let mut accounts = vec![
        account(key(1), key(0), 1_000, vec![1, 2, 3]),
        account(key(2), key(0), 5, Vec::new()),
        account(key(3), key(9), 234, vec![7u8; 105]),
    ];
    assert_eq!(close_escrow_account(&mut accounts, 0, 2), Ok(()));
    assert_eq!(accounts[0], account(key(1), key(0), 1_234, vec![1, 2, 3]));
    assert_eq!(accounts[1], account(key(2), key(0), 5, Vec::new()));
    assert_eq!(accounts[2], account(key(3), key(9), 0, Vec::new()));
    // Closing again moves nothing more.
    assert_eq!(close_escrow_account(&mut accounts, 0, 2), Ok(()));
    assert_eq!(accounts[0].lamports, 1_234);
    assert_eq!(accounts[2], account(key(3), key(9), 0, Vec::new()));
}

#[test]
fn closing_refuses_a_sum_out_of_range() {
    let mut accounts = vec![
        account(key(1), key(0), u64::MAX - 233, Vec::new()),
        account(key(3), key(9), 234, vec![7u8; 105]),
    ];
    let before = accounts.clone();
    assert_eq!(
        close_escrow_account(&mut accounts, 0, 1),
        Err(ProcessError::Escrow(EscrowError::AmountOverflow))
    );
    assert_eq!(accounts, before);
    accounts[0].lamports = u64::MAX - 234;
    assert_eq!(close_escrow_account(&mut accounts, 0, 1), Ok(()));
    assert_eq!(accounts[0].lamports, u64::MAX);
}

#[test]
fn error_kinds() {
    assert_eq!(
        ProcessError::Escrow(EscrowError::NotRentExempt).kind(),
        ErrorKind::Escrow(EscrowError::NotRentExempt)
    );
    assert_eq!(ProcessError::NotEnoughAccountKeys.kind(), ErrorKind::NotEnoughAccountKeys);
    assert_eq!(ProcessError::NoProgramAuthority.kind(), ErrorKind::NoProgramAuthority);
    assert_eq!(
        ProcessError::Collaborator(ProgramError::Custom(3)).kind(),
        ErrorKind::Collaborator
    );
}
