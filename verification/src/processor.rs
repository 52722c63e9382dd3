//! The escrow state machine: the handlers of the two instructions.

use vstd::prelude::*;
use crate::account::{views, Account, AccountView};
use crate::error::{ErrorKind, EscrowError, ProcessError};
use crate::instruction::EscrowInstruction;
use crate::ledger::{
    byte_lists, find_program_address, invoke, invoke_signed, program_address, rent_exemption,
    rent_is_exempt, rent_lamports_per_byte_year, rent_rate, touched_only,
};
use crate::pubkey::Pubkey;
use crate::state::{escrow_pack, escrow_unpack, Escrow, EscrowView};
use crate::token::{
    token_account_amount, token_balance, token_program_address, token_program_id, AuthorityType,
    TokenCall, TokenCallView, TokenOperation, TokenOperationView,
};

verus! {

/// The seed of the program authority: the ASCII bytes of `escrow`.
pub open spec fn authority_seed() -> Seq<u8> {
    seq![101u8, 115, 99, 114, 111, 119]
}

/// The authority that holds the deposits of the program `program_id`, with
/// its bump seed: the address derived from the seed and from the program's
/// own identity, for that program.
pub open spec fn escrow_authority(program_id: Seq<u8>) -> Option<(Seq<u8>, u8)> {
    program_address(seq![authority_seed(), program_id], program_id)
}

/// Whether, under the rent schedule that the account `sysvar` holds, a
/// balance of `lamports` exempts an account of `data_len` bytes from rent.
/// A schedule under which the minimum balance is out of range exempts none.
pub open spec fn rent_covers(sysvar: AccountView, lamports: u64, data_len: nat) -> bool {
    &&& rent_rate(sysvar.key, sysvar.data) matches Some(rate)
    &&& 128 + data_len <= u64::MAX
    &&& (128 + data_len) * rate <= u64::MAX
    &&& rent_exemption(sysvar.key, sysvar.data, lamports, data_len) == Some(true)
}

/// The record that `init` writes for the accounts of a request.
pub open spec fn init_record(accounts: Seq<AccountView>, amount: u64) -> EscrowView {
    EscrowView {
        is_initialized: true,
        initializer_pubkey: accounts[0].key,
        temp_token_account_pubkey: accounts[1].key,
        initializer_token_to_receive_account_pubkey: accounts[2].key,
        expected_amount: amount,
    }
}

/// The accounts of an `init` request once the record is written: the
/// record account holds the packed record, and nothing else has changed.
pub open spec fn init_recorded(accounts: Seq<AccountView>, amount: u64) -> Seq<AccountView> {
    accounts.update(
        3,
        AccountView { data: escrow_pack(init_record(accounts, amount)), ..accounts[3] },
    )
}

/// Why `init` refuses a request before it changes anything, or `None`
/// where it refuses nothing. The accounts are, in order: the initializer,
/// the custody token account, the token account in which the initializer
/// receives, the escrow-record account, the rent sysvar and the token
/// program. The checks are made in the order written; the first that fails
/// decides.
pub open spec fn init_rejection(program_id: Seq<u8>, accounts: Seq<AccountView>) -> Option<
    ErrorKind,
> {
    if accounts.len() < 1 {
        Some(ErrorKind::NotEnoughAccountKeys)
    } else if !accounts[0].is_signer {
        Some(ErrorKind::Escrow(EscrowError::MissingRequiredSignature))
    } else if accounts.len() < 3 {
        Some(ErrorKind::NotEnoughAccountKeys)
    } else if accounts[2].owner != token_program_address() {
        Some(ErrorKind::Escrow(EscrowError::IncorrectProgramId))
    } else if accounts.len() < 5 {
        Some(ErrorKind::NotEnoughAccountKeys)
    } else if rent_rate(accounts[4].key, accounts[4].data) is None {
        Some(ErrorKind::Collaborator)
    } else if !rent_covers(accounts[4], accounts[3].lamports, accounts[3].data.len()) {
        Some(ErrorKind::Escrow(EscrowError::NotRentExempt))
    } else if escrow_unpack(accounts[3].data) is None {
        Some(ErrorKind::Escrow(EscrowError::InvalidAccountData))
    } else if escrow_unpack(accounts[3].data)->0.is_initialized {
        Some(ErrorKind::Escrow(EscrowError::AccountAlreadyInitialized))
    } else if accounts.len() < 6 {
        Some(ErrorKind::NotEnoughAccountKeys)
    } else if escrow_authority(program_id) is None {
        Some(ErrorKind::NoProgramAuthority)
    } else if accounts[5].key != token_program_address() {
        Some(ErrorKind::Collaborator)
    } else {
        None
    }
}

/// Why `exchange` refuses a request before it moves anything, or `None`
/// where it refuses nothing. The accounts are, in order: the taker, the
/// token account from which the taker sends, the token account in which
/// the taker receives, the custody token account, the main account of the
/// initializer, the token account in which the initializer receives, the
/// escrow-record account, the token program and the program authority. The
/// checks are made in the order written; the first that fails decides. All
/// of them are made before the token program is asked for anything.
pub open spec fn exchange_rejection(
    program_id: Seq<u8>,
    accounts: Seq<AccountView>,
    amount: u64,
) -> Option<ErrorKind> {
    if accounts.len() < 1 {
        Some(ErrorKind::NotEnoughAccountKeys)
    } else if !accounts[0].is_signer {
        Some(ErrorKind::Escrow(EscrowError::MissingRequiredSignature))
    } else if accounts.len() < 4 {
        Some(ErrorKind::NotEnoughAccountKeys)
    } else if token_balance(accounts[3].data) is None {
        Some(ErrorKind::Collaborator)
    } else if token_balance(accounts[3].data) != Some(amount) {
        Some(ErrorKind::Escrow(EscrowError::ExpectedAmountMismatch))
    } else if accounts.len() < 7 {
        Some(ErrorKind::NotEnoughAccountKeys)
    } else if escrow_unpack(accounts[6].data) is None {
        Some(ErrorKind::Escrow(EscrowError::InvalidAccountData))
    } else if !record_matches(escrow_unpack(accounts[6].data)->0, accounts) {
        Some(ErrorKind::Escrow(EscrowError::InvalidAccountData))
    } else if accounts.len() < 8 {
        Some(ErrorKind::NotEnoughAccountKeys)
    } else if escrow_authority(program_id) is None {
        Some(ErrorKind::NoProgramAuthority)
    } else if accounts[7].key != token_program_address() {
        Some(ErrorKind::Collaborator)
    } else if accounts.len() < 9 {
        Some(ErrorKind::NotEnoughAccountKeys)
    } else {
        None
    }
}

/// Whether the accounts of an `exchange` request are those that the record
/// names: the custody account, the initializer and the account in which
/// the initializer receives.
pub open spec fn record_matches(record: EscrowView, accounts: Seq<AccountView>) -> bool {
    &&& record.temp_token_account_pubkey == accounts[3].key
    &&& record.initializer_pubkey == accounts[4].key
    &&& record.initializer_token_to_receive_account_pubkey == accounts[5].key
}

/// How an `exchange` that no check refused may end, and what it leaves:
/// on success the record account is closed in favour of the initializer,
/// who holds at least what the record account held; on failure the record
/// account is as it was. It fails where the token program fails, and where
/// the initializer cannot hold the refund on top of what the token program
/// has left it.
pub open spec fn exchange_settled(
    before: Seq<AccountView>,
    after: Seq<AccountView>,
    result: Result<(), ProcessError>,
) -> bool {
    &&& touched_only(before, after, seq![0usize, 1, 2, 3, 4, 5, 6, 7, 8])
    &&& match result {
        Ok(()) => {
            &&& after[6] == (AccountView { lamports: 0, data: Seq::<u8>::empty(), ..before[6] })
            &&& after[4].lamports >= before[6].lamports
        },
        Err(e) => {
            &&& after[6] == before[6]
            &&& e is Collaborator || (e == ProcessError::Escrow(EscrowError::AmountOverflow)
                && after[4].lamports + before[6].lamports > u64::MAX)
        },
    }
}

/// The seeds with which the program signs as its authority: the seed of
/// the authority, the identity of the program, and the bump seed.
pub open spec fn authority_signer_seeds(program_id: Seq<u8>, bump: u8) -> Seq<Seq<u8>> {
    seq![authority_seed(), program_id, seq![bump]]
}

/// The operation by which `init` locks the deposit: the ownership of the
/// custody account goes from the initializer to `authority`.
pub open spec fn init_operation(accounts: Seq<AccountView>, authority: Seq<u8>) -> TokenOperationView {
    TokenOperationView::SetAuthority {
        account: accounts[1].key,
        authority_type: AuthorityType::AccountOwner,
        new_authority: authority,
        current_authority: accounts[0].key,
    }
}

/// The request that `init` makes of the token program: the handover of the
/// custody account to the authority of the program, asked of the program at
/// position 5. The token program is handed the custody account, the
/// initializer and the token program account, in this order; the program
/// does not sign. There is none where the program has no authority, or
/// where the token program's builder makes no instruction.
pub open spec fn init_call(program_id: Seq<u8>, accounts: Seq<AccountView>) -> Option<
    TokenCallView,
> {
    match escrow_authority(program_id) {
        Some((authority, _)) => {
            let operation = init_operation(accounts, authority);
            match operation.instruction(accounts[5].key) {
                Some(instruction) => Some(
                    TokenCallView {
                        operation,
                        instruction,
                        accounts: seq![1usize, 0, 5],
                        signer_seeds: Seq::<Seq<u8>>::empty(),
                    },
                ),
                None => None,
            }
        },
        None => None,
    }
}

/// The three operations by which `exchange` settles a swap, in the order
/// in which they are asked for: the taker pays the initializer what the
/// record expects; `authority` pays the taker the whole of the deposit;
/// and the custody account is closed in favour of the initializer.
pub open spec fn exchange_operations(
    accounts: Seq<AccountView>,
    expected_amount: u64,
    balance: u64,
    authority: Seq<u8>,
) -> (TokenOperationView, TokenOperationView, TokenOperationView) {
    (
        TokenOperationView::Transfer {
            source: accounts[1].key,
            destination: accounts[5].key,
            authority: accounts[0].key,
            amount: expected_amount,
        },
        TokenOperationView::Transfer {
            source: accounts[3].key,
            destination: accounts[2].key,
            authority,
            amount: balance,
        },
        TokenOperationView::CloseAccount {
            account: accounts[3].key,
            destination: accounts[4].key,
            authority,
        },
    )
}

/// The three requests that `exchange` makes of the token program, in
/// order, each asked of the program at position 7. The first is signed by
/// the taker alone and is handed the accounts at positions 1, 5, 0, 7. The
/// other two are signed by the program as its authority, with the seeds of
/// the authority, and are handed the accounts at positions 3, 2, 8, 7 and
/// 3, 4, 8, 7. There are none where the program has no authority, or where
/// the token program's builders make no instruction.
pub open spec fn exchange_calls(
    program_id: Seq<u8>,
    accounts: Seq<AccountView>,
    expected_amount: u64,
    balance: u64,
) -> Option<(TokenCallView, TokenCallView, TokenCallView)> {
    match escrow_authority(program_id) {
        Some((authority, bump)) => {
            let operations = exchange_operations(accounts, expected_amount, balance, authority);
            let token_program = accounts[7].key;
            match (
                operations.0.instruction(token_program),
                operations.1.instruction(token_program),
                operations.2.instruction(token_program),
            ) {
                (Some(first), Some(second), Some(third)) => Some(
                    (
                        TokenCallView {
                            operation: operations.0,
                            instruction: first,
                            accounts: seq![1usize, 5, 0, 7],
                            signer_seeds: Seq::<Seq<u8>>::empty(),
                        },
                        TokenCallView {
                            operation: operations.1,
                            instruction: second,
                            accounts: seq![3usize, 2, 8, 7],
                            signer_seeds: authority_signer_seeds(program_id, bump),
                        },
                        TokenCallView {
                            operation: operations.2,
                            instruction: third,
                            accounts: seq![3usize, 4, 8, 7],
                            signer_seeds: authority_signer_seeds(program_id, bump),
                        },
                    ),
                ),
                _ => None,
            }
        },
        None => None,
    }
}

/// One invocation after another touches what either touches.
pub proof fn lemma_touched_twice(
    first: Seq<AccountView>,
    second: Seq<AccountView>,
    third: Seq<AccountView>,
    order: Seq<usize>,
    next: Seq<usize>,
    all: Seq<usize>,
)
    requires
        touched_only(first, second, order),
        touched_only(second, third, next),
        forall|i: int| 0 <= i < order.len() ==> all.contains(#[trigger] order[i]),
        forall|i: int| 0 <= i < next.len() ==> all.contains(#[trigger] next[i]),
    ensures
        touched_only(first, third, all),
{
    assert forall|i: int| 0 <= i < first.len() && !all.contains(i as usize) implies #[trigger] third[i]
        == first[i] by {
        assert(!order.contains(i as usize));
        assert(!next.contains(i as usize));
    }
}

/// `init` refuses a record that is already initialized, whatever else the
/// record holds, once the request is signed, the receiving account belongs
/// to the token program and the record account is exempt from rent.
pub proof fn lemma_init_refuses_initialized(program_id: Seq<u8>, accounts: Seq<AccountView>)
    requires
        accounts.len() >= 5,
        accounts[0].is_signer,
        accounts[2].owner == token_program_address(),
        rent_covers(accounts[4], accounts[3].lamports, accounts[3].data.len()),
        escrow_unpack(accounts[3].data) matches Some(record) && record.is_initialized,
    ensures
        init_rejection(program_id, accounts) == Some(
            ErrorKind::Escrow(EscrowError::AccountAlreadyInitialized),
        ),
{
}

/// The authority of a program depends on the identity of the program
/// alone: deriving it again gives the same address and the same bump seed.
pub proof fn lemma_authority_reproducible(first: Pubkey, second: Pubkey)
    requires
        first@ == second@,
    ensures
        escrow_authority(first@) == escrow_authority(second@),
{
}

/// `exchange` refuses with `ExpectedAmountMismatch` every amount that is
/// not the balance of the custody account, once the request is signed.
pub proof fn lemma_exchange_refuses_mismatch(
    program_id: Seq<u8>,
    accounts: Seq<AccountView>,
    amount: u64,
    balance: u64,
)
    requires
        accounts.len() >= 4,
        accounts[0].is_signer,
        token_balance(accounts[3].data) == Some(balance),
        amount != balance,
    ensures
        exchange_rejection(program_id, accounts, amount) == Some(
            ErrorKind::Escrow(EscrowError::ExpectedAmountMismatch),
        ),
{
}

/// `exchange` refuses with `InvalidAccountData` a request in which the
/// custody account, the initializer or the account in which the initializer
/// receives is not the one that the record names, though the amount is
/// right.
pub proof fn lemma_exchange_refuses_substitution(
    program_id: Seq<u8>,
    accounts: Seq<AccountView>,
    amount: u64,
)
    requires
        accounts.len() >= 7,
        accounts[0].is_signer,
        token_balance(accounts[3].data) == Some(amount),
        escrow_unpack(accounts[6].data) matches Some(record) && !record_matches(record, accounts),
    ensures
        exchange_rejection(program_id, accounts, amount) == Some(
            ErrorKind::Escrow(EscrowError::InvalidAccountData),
        ),
{
}

/// An unsigned request is refused with `MissingRequiredSignature` by both
/// handlers, whatever else it holds.
pub proof fn lemma_unsigned_refused(program_id: Seq<u8>, accounts: Seq<AccountView>, amount: u64)
    requires
        accounts.len() >= 1,
        !accounts[0].is_signer,
    ensures
        init_rejection(program_id, accounts) == Some(
            ErrorKind::Escrow(EscrowError::MissingRequiredSignature),
        ),
        exchange_rejection(program_id, accounts, amount) == Some(
            ErrorKind::Escrow(EscrowError::MissingRequiredSignature),
        ),
{
}

/// Fails with `IncorrectProgramId` unless `owner` owns the account.
pub fn assert_owned_by(account: &Account, owner: &Pubkey) -> (result: Result<(), ProcessError>)
    ensures
        account@.owner == owner@ ==> result is Ok,
        account@.owner != owner@ ==> result == Err::<(), ProcessError>(
            ProcessError::Escrow(EscrowError::IncorrectProgramId),
        ),
{
    if !account.owner.same(owner) {
        Err(ProcessError::Escrow(EscrowError::IncorrectProgramId))
    } else {
        Ok(())
    }
}

/// The accounts once the record account at `escrow` is closed in favour of
/// the account at `main`: the balance of the record account has gone to the
/// main account, and the record account holds no balance and no data.
pub open spec fn escrow_closed(accounts: Seq<AccountView>, main: int, escrow: int) -> Seq<
    AccountView,
> {
    accounts.update(
        main,
        AccountView {
            lamports: (accounts[main].lamports + accounts[escrow].lamports) as u64,
            ..accounts[main]
        },
    ).update(escrow, AccountView { lamports: 0, data: Seq::<u8>::empty(), ..accounts[escrow] })
}

/// Closes the escrow-record account at position `escrow`: its balance goes
/// to the account at position `main`, and its data is cleared. Fails with
/// `AmountOverflow`, and changes nothing, where the main account cannot
/// hold the sum.
pub fn close_escrow_account(accounts: &mut Vec<Account>, main: usize, escrow: usize) -> (result:
    Result<(), ProcessError>)
    requires
        main < old(accounts)@.len(),
        escrow < old(accounts)@.len(),
        main != escrow,
    ensures
        old(accounts)@[main as int].lamports + old(accounts)@[escrow as int].lamports <= u64::MAX
            ==> result is Ok && views(final(accounts)@) == escrow_closed(
            views(old(accounts)@),
            main as int,
            escrow as int,
        ),
        old(accounts)@[main as int].lamports + old(accounts)@[escrow as int].lamports > u64::MAX
            ==> result == Err::<(), ProcessError>(
            ProcessError::Escrow(EscrowError::AmountOverflow),
        ) && views(final(accounts)@) == views(old(accounts)@),
{
    let returned_amount: u64 = match accounts[main].lamports.checked_add(accounts[escrow].lamports) {
        Some(sum) => sum,
        None => {
            return Err(ProcessError::Escrow(EscrowError::AmountOverflow));
        },
    };
    accounts[main].lamports = returned_amount;
    accounts[escrow].lamports = 0;
    accounts[escrow].data = Vec::new();
    assert(views(accounts@) =~= escrow_closed(views(old(accounts)@), main as int, escrow as int));
    Ok(())
}

/// The instruction processor of the escrow program.
pub struct Processor;

impl Processor {
    /// The seed of the program authority.
    pub fn authority_seed() -> (seed: Vec<u8>)
        ensures
            seed@ == authority_seed(),
    {
        let mut seed: Vec<u8> = Vec::new();
        seed.push(101);
        seed.push(115);
        seed.push(99);
        seed.push(114);
        seed.push(111);
        seed.push(119);
        assert(seed@ =~= authority_seed());
        seed
    }

    /// Derives the authority that holds the deposits of `program_id`, and
    /// its bump seed. The same program always gives the same authority.
    pub fn authority(program_id: &Pubkey) -> (found: Option<(Pubkey, u8)>)
        ensures
            match found {
                Some((address, bump)) => escrow_authority(program_id@) == Some((address@, bump)),
                None => escrow_authority(program_id@) is None,
            },
    {
        let mut id: Vec<u8> = Vec::new();
        program_id.push_to(&mut id);
        let mut seeds: Vec<Vec<u8>> = Vec::new();
        seeds.push(Self::authority_seed());
        seeds.push(id);
        assert(byte_lists(seeds@) =~= seq![authority_seed(), program_id@]);
        find_program_address(&seeds, program_id)
    }

    /// Whether the balance `lamports` exempts an account of `data_len`
    /// bytes from rent, under the schedule that `sysvar` holds. Fails where
    /// `sysvar` holds no schedule.
    pub fn is_rent_exempt(sysvar: &Account, lamports: u64, data_len: usize) -> (result: Result<
        bool,
        ProcessError,
    >)
        ensures
            match result {
                Ok(exempt) => rent_rate(sysvar@.key, sysvar@.data) is Some && exempt == rent_covers(
                    sysvar@,
                    lamports,
                    data_len as nat,
                ),
                Err(e) => rent_rate(sysvar@.key, sysvar@.data) is None
                    && e is Collaborator,
            },
    {
        let rate = match rent_lamports_per_byte_year(sysvar) {
            Ok(rate) => rate,
            Err(e) => {
                return Err(ProcessError::Collaborator(e));
            },
        };
        let size: u64 = match (data_len as u64).checked_add(128) {
            Some(size) => size,
            None => {
                return Ok(false);
            },
        };
        assert((128 + data_len) * rate == rate * size) by (nonlinear_arith)
            requires
                size == 128 + data_len,
        ;
        if rate.checked_mul(size).is_none() {
            return Ok(false);
        }
        match rent_is_exempt(sysvar, lamports, data_len) {
            Ok(exempt) => Ok(exempt),
            Err(e) => Err(ProcessError::Collaborator(e)),
        }
    }
    /// The signer seeds of the authority of `program_id` with the bump seed
    /// `bump`.
    pub fn authority_signer_seeds(program_id: &Pubkey, bump: u8) -> (seeds: Vec<Vec<u8>>)
        ensures
            byte_lists(seeds@) == authority_signer_seeds(program_id@, bump),
    {
        let mut id: Vec<u8> = Vec::new();
        program_id.push_to(&mut id);
        let mut last: Vec<u8> = Vec::new();
        last.push(bump);
        let mut seeds: Vec<Vec<u8>> = Vec::new();
        seeds.push(Self::authority_seed());
        seeds.push(id);
        seeds.push(last);
        assert(last@ =~= seq![bump]);
        assert(byte_lists(seeds@) =~= authority_signer_seeds(program_id@, bump));
        seeds
    }

    /// Makes the request that `init` sends to the token program: the
    /// operation, the instruction built from it, the positions of the
    /// accounts handed over, and no signer seeds. Fails with
    /// `NoProgramAuthority` where the program has no authority, and with
    /// the builder's error where the account at position 5 is not the token
    /// program.
    pub fn init_call(program_id: &Pubkey, accounts: &Vec<Account>) -> (result: Result<
        TokenCall,
        ProcessError,
    >)
        requires
            accounts@.len() >= 6,
        ensures
            result is Ok <==> escrow_authority(program_id@) is Some && accounts@[5].key@
                == token_program_address(),
            match result {
                Ok(call) => init_call(program_id@, views(accounts@)) == Some(call@),
                Err(e) => if escrow_authority(program_id@) is None {
                    e == ProcessError::NoProgramAuthority
                } else {
                    e is Collaborator && init_call(program_id@, views(accounts@)) is None
                },
            },
    {
        let (authority, _bump_seed) = match Self::authority(program_id) {
            Some(found) => found,
            None => {
                return Err(ProcessError::NoProgramAuthority);
            },
        };
        let operation = TokenOperation::SetAuthority {
            account: accounts[1].key,
            authority_type: AuthorityType::AccountOwner,
            new_authority: authority,
            current_authority: accounts[0].key,
        };
        assert(operation@ == init_operation(views(accounts@), authority@));
        let instruction = match operation.instruction(&accounts[5].key) {
            Ok(instruction) => instruction,
            Err(e) => {
                return Err(ProcessError::Collaborator(e));
            },
        };
        let positions: Vec<usize> = vec![1, 0, 5];
        let call = TokenCall {
            operation,
            instruction,
            accounts: positions,
            signer_seeds: Vec::new(),
        };
        assert(call@.accounts =~= seq![1usize, 0, 5]);
        assert(call@.signer_seeds =~= Seq::<Seq<u8>>::empty());
        Ok(call)
    }

    /// Sends a request to the token program: the instruction of the
    /// request, with the accounts at its positions and, where it has any,
    /// its signer seeds. Nothing is known of the outcome; the accounts that
    /// the request does not name stay as they are.
    pub fn send(call: &TokenCall, accounts: &mut Vec<Account>) -> (result: Result<(), ProcessError>)
        requires
            forall|i: int|
                0 <= i < call@.accounts.len() ==> call@.accounts[i] < old(accounts)@.len(),
        ensures
            touched_only(views(old(accounts)@), views(final(accounts)@), call@.accounts),
            result matches Err(e) ==> e is Collaborator,
    {
        assert(call@.accounts == call.accounts@);
        let sent = if call.signer_seeds.len() == 0 {
            invoke(&call.instruction, accounts, &call.accounts)
        } else {
            let mut seeds: Vec<&[u8]> = Vec::new();
            let mut i: usize = 0;
            while i < call.signer_seeds.len()
                invariant
                    i <= call.signer_seeds@.len(),
                    accounts@ == old(accounts)@,
                    forall|k: int|
                        0 <= k < call.accounts@.len() ==> call.accounts@[k] < accounts@.len(),
                decreases call.signer_seeds@.len() - i,
            {
                seeds.push(call.signer_seeds[i].as_slice());
                i += 1;
            }
            invoke_signed(&call.instruction, accounts, &call.accounts, &seeds)
        };
        match sent {
            Ok(()) => Ok(()),
            Err(e) => Err(ProcessError::Collaborator(e)),
        }
    }

    /// Handles `InitEscrow`: checks the request, writes the record, and
    /// sends the token program the request of `init_call`. A request that a
    /// check refuses changes nothing. Once the checks have passed the
    /// record is written, and only the token program can still fail the
    /// instruction; it is handed the custody account, the initializer and
    /// the token program account, and no other.
    pub fn process_init_escrow(program_id: &Pubkey, accounts: &mut Vec<Account>, amount: u64) -> (result:
        Result<(), ProcessError>)
        ensures
            match init_rejection(program_id@, views(old(accounts)@)) {
                Some(kind) => {
                    &&& result matches Err(e) && e.spec_kind() == kind
                    &&& views(final(accounts)@) == views(old(accounts)@)
                },
                None => {
                    &&& result matches Err(e) ==> e is Collaborator
                    &&& init_call(program_id@, views(old(accounts)@)) is Some
                    &&& touched_only(
                        init_recorded(views(old(accounts)@), amount),
                        views(final(accounts)@),
                        seq![1usize, 0, 5],
                    )
                },
            },
    {
        if accounts.len() < 1 {
            return Err(ProcessError::NotEnoughAccountKeys);
        }
        if !accounts[0].is_signer {
            return Err(ProcessError::Escrow(EscrowError::MissingRequiredSignature));
        }
        if accounts.len() < 3 {
            return Err(ProcessError::NotEnoughAccountKeys);
        }
        // The token account that receives must belong to the token program.
        match assert_owned_by(&accounts[2], &token_program_id()) {
            Ok(()) => {},
            Err(e) => {
                return Err(e);
            },
        }
        if accounts.len() < 5 {
            return Err(ProcessError::NotEnoughAccountKeys);
        }
        let exempt = match Self::is_rent_exempt(
            &accounts[4],
            accounts[3].lamports,
            accounts[3].data.len(),
        ) {
            Ok(exempt) => exempt,
            Err(e) => {
                return Err(e);
            },
        };
        if !exempt {
            return Err(ProcessError::Escrow(EscrowError::NotRentExempt));
        }
        let escrow_info = match Escrow::unpack_unchecked(accounts[3].data.as_slice()) {
            Ok(escrow_info) => escrow_info,
            Err(e) => {
                return Err(ProcessError::Escrow(e));
            },
        };
        if escrow_info.is_initialized() {
            return Err(ProcessError::Escrow(EscrowError::AccountAlreadyInitialized));
        }
        if accounts.len() < 6 {
            return Err(ProcessError::NotEnoughAccountKeys);
        }
        let call = match Self::init_call(program_id, accounts) {
            Ok(call) => call,
            Err(e) => {
                return Err(e);
            },
        };
        let record = Escrow {
            is_initialized: true,
            initializer_pubkey: accounts[0].key,
            temp_token_account_pubkey: accounts[1].key,
            initializer_token_to_receive_account_pubkey: accounts[2].key,
            expected_amount: amount,
        };
        match Escrow::pack(record, &mut accounts[3].data) {
            Ok(()) => {},
            Err(e) => {
                return Err(ProcessError::Escrow(e));
            },
        }
        assert(views(accounts@) =~= init_recorded(views(old(accounts)@), amount));
        // The custody account passes to the program authority.
        Self::send(&call, accounts)
    }

    /// Makes the three requests that `exchange` sends to the token
    /// program, in order: for each the operation, the instruction built
    /// from it, the positions of the accounts handed over, and the signer
    /// seeds. Fails with `NoProgramAuthority` where the program has no
    /// authority, and with the builder's error where the account at
    /// position 7 is not the token program. `balance` is what the custody
    /// account holds.
    pub fn exchange_calls(
        program_id: &Pubkey,
        accounts: &Vec<Account>,
        record: &Escrow,
        balance: u64,
    ) -> (result: Result<(TokenCall, TokenCall, TokenCall), ProcessError>)
        requires
            accounts@.len() >= 8,
        ensures
            result is Ok <==> escrow_authority(program_id@) is Some && accounts@[7].key@
                == token_program_address(),
            match result {
                Ok(calls) => exchange_calls(
                    program_id@,
                    views(accounts@),
                    record.expected_amount,
                    balance,
                ) == Some((calls.0@, calls.1@, calls.2@)),
                Err(e) => if escrow_authority(program_id@) is None {
                    e == ProcessError::NoProgramAuthority
                } else {
                    e is Collaborator && exchange_calls(
                        program_id@,
                        views(accounts@),
                        record.expected_amount,
                        balance,
                    ) is None
                },
            },
    {
        let (authority, bump_seed) = match Self::authority(program_id) {
            Some(found) => found,
            None => {
                return Err(ProcessError::NoProgramAuthority);
            },
        };
        let to_initializer = TokenOperation::Transfer {
            source: accounts[1].key,
            destination: accounts[5].key,
            authority: accounts[0].key,
            amount: record.expected_amount,
        };
        let to_taker = TokenOperation::Transfer {
            source: accounts[3].key,
            destination: accounts[2].key,
            authority,
            amount: balance,
        };
        let close = TokenOperation::CloseAccount {
            account: accounts[3].key,
            destination: accounts[4].key,
            authority,
        };
        let ghost operations = exchange_operations(
            views(accounts@),
            record.expected_amount,
            balance,
            authority@,
        );
        assert(to_initializer@ == operations.0);
        assert(to_taker@ == operations.1);
        assert(close@ == operations.2);
        let transfer_to_initializer_instruction = match to_initializer.instruction(
            &accounts[7].key,
        ) {
            Ok(instruction) => instruction,
            Err(e) => {
                return Err(ProcessError::Collaborator(e));
            },
        };
        let transfer_to_taker_instruction = match to_taker.instruction(&accounts[7].key) {
            Ok(instruction) => instruction,
            Err(e) => {
                return Err(ProcessError::Collaborator(e));
            },
        };
        let close_pda_temp_account_instruction = match close.instruction(&accounts[7].key) {
            Ok(instruction) => instruction,
            Err(e) => {
                return Err(ProcessError::Collaborator(e));
            },
        };
        let first = TokenCall {
            operation: to_initializer,
            instruction: transfer_to_initializer_instruction,
            accounts: vec![1, 5, 0, 7],
            signer_seeds: Vec::new(),
        };
        let second = TokenCall {
            operation: to_taker,
            instruction: transfer_to_taker_instruction,
            accounts: vec![3, 2, 8, 7],
            signer_seeds: Self::authority_signer_seeds(program_id, bump_seed),
        };
        let third = TokenCall {
            operation: close,
            instruction: close_pda_temp_account_instruction,
            accounts: vec![3, 4, 8, 7],
            signer_seeds: Self::authority_signer_seeds(program_id, bump_seed),
        };
        assert(first@.accounts =~= seq![1usize, 5, 0, 7]);
        assert(first@.signer_seeds =~= Seq::<Seq<u8>>::empty());
        assert(second@.accounts =~= seq![3usize, 2, 8, 7]);
        assert(second@.signer_seeds =~= authority_signer_seeds(program_id@, bump_seed));
        assert(third@.accounts =~= seq![3usize, 4, 8, 7]);
        assert(third@.signer_seeds =~= authority_signer_seeds(program_id@, bump_seed));
        Ok((first, second, third))
    }

    /// Handles `Exchange`: checks the request, sends the token program the
    /// three requests of `exchange_calls`, then closes the escrow-record
    /// account in favour of the initializer. A request that a check refuses
    /// changes nothing, and every check is made before the first request
    /// is sent. Once the checks have passed, the token program can still
    /// fail the instruction, and the refund can overflow.
    pub fn process_exchange(program_id: &Pubkey, accounts: &mut Vec<Account>, amount: u64) -> (result:
        Result<(), ProcessError>)
        ensures
            match exchange_rejection(program_id@, views(old(accounts)@), amount) {
                Some(kind) => {
                    &&& result matches Err(e) && e.spec_kind() == kind
                    &&& views(final(accounts)@) == views(old(accounts)@)
                },
                None => {
                    &&& exchange_calls(
                        program_id@,
                        views(old(accounts)@),
                        escrow_unpack(old(accounts)@[6].data@)->0.expected_amount,
                        amount,
                    ) is Some
                    &&& exchange_settled(views(old(accounts)@), views(final(accounts)@), result)
                },
            },
    {
        if accounts.len() < 1 {
            return Err(ProcessError::NotEnoughAccountKeys);
        }
        if !accounts[0].is_signer {
            return Err(ProcessError::Escrow(EscrowError::MissingRequiredSignature));
        }
        if accounts.len() < 4 {
            return Err(ProcessError::NotEnoughAccountKeys);
        }
        let balance = match token_account_amount(&accounts[3].data) {
            Ok(balance) => balance,
            Err(e) => {
                return Err(ProcessError::Collaborator(e));
            },
        };
        if amount != balance {
            return Err(ProcessError::Escrow(EscrowError::ExpectedAmountMismatch));
        }
        if accounts.len() < 7 {
            return Err(ProcessError::NotEnoughAccountKeys);
        }
        let escrow_info = match Escrow::unpack_unchecked(accounts[6].data.as_slice()) {
            Ok(escrow_info) => escrow_info,
            Err(e) => {
                return Err(ProcessError::Escrow(e));
            },
        };
        if !escrow_info.temp_token_account_pubkey.same(&accounts[3].key) {
            return Err(ProcessError::Escrow(EscrowError::InvalidAccountData));
        }
        if !escrow_info.initializer_pubkey.same(&accounts[4].key) {
            return Err(ProcessError::Escrow(EscrowError::InvalidAccountData));
        }
        if !escrow_info.initializer_token_to_receive_account_pubkey.same(&accounts[5].key) {
            return Err(ProcessError::Escrow(EscrowError::InvalidAccountData));
        }
        if accounts.len() < 8 {
            return Err(ProcessError::NotEnoughAccountKeys);
        }
        let (to_initializer, to_taker, close) = match Self::exchange_calls(
            program_id,
            accounts,
            &escrow_info,
            balance,
        ) {
            Ok(calls) => calls,
            Err(e) => {
                return Err(e);
            },
        };
        if accounts.len() < 9 {
            return Err(ProcessError::NotEnoughAccountKeys);
        }
        let ghost before = views(accounts@);
        let ghost touched = seq![0usize, 1, 2, 3, 4, 5, 6, 7, 8];
        proof {
            assert(forall|i: int| 0 <= i < 9 ==> touched.contains(#[trigger] touched[i]));
            assert(!seq![1usize, 5, 0, 7].contains(6usize));
            assert(!seq![3usize, 2, 8, 7].contains(6usize));
            assert(!seq![3usize, 4, 8, 7].contains(6usize));
        }
        // The taker pays the initializer.
        match Self::send(&to_initializer, accounts) {
            Ok(()) => {},
            Err(e) => {
                proof {
                    lemma_touched_twice(
                        before,
                        before,
                        views(accounts@),
                        seq![],
                        to_initializer@.accounts,
                        touched,
                    );
                }
                return Err(e);
            },
        }
        let ghost paid = views(accounts@);
        proof {
            lemma_touched_twice(before, before, paid, seq![], to_initializer@.accounts, touched);
        }
        // The program authority pays the taker.
        match Self::send(&to_taker, accounts) {
            Ok(()) => {},
            Err(e) => {
                proof {
                    lemma_touched_twice(
                        before,
                        paid,
                        views(accounts@),
                        touched,
                        to_taker@.accounts,
                        touched,
                    );
                }
                return Err(e);
            },
        }
        let ghost delivered = views(accounts@);
        proof {
            lemma_touched_twice(before, paid, delivered, touched, to_taker@.accounts, touched);
        }
        // The custody account is closed in favour of the initializer.
        match Self::send(&close, accounts) {
            Ok(()) => {},
            Err(e) => {
                proof {
                    lemma_touched_twice(
                        before,
                        delivered,
                        views(accounts@),
                        touched,
                        close@.accounts,
                        touched,
                    );
                }
                return Err(e);
            },
        }
        let ghost closed = views(accounts@);
        proof {
            lemma_touched_twice(before, delivered, closed, touched, close@.accounts, touched);
        }
        // Last, the record account itself is closed.
        close_escrow_account(accounts, 4, 6)
    }

    /// Decodes the instruction and hands it to its handler. Fails with
    /// `InvalidInstruction`, and changes nothing, on a payload that stands
    /// for no instruction.
    pub fn process(program_id: &Pubkey, accounts: &mut Vec<Account>, instruction_data: &[u8]) -> (result:
        Result<(), ProcessError>)
        ensures
            match EscrowInstruction::spec_unpack(instruction_data@) {
                None => {
                    &&& result == Err::<(), ProcessError>(
                        ProcessError::Escrow(EscrowError::InvalidInstruction),
                    )
                    &&& views(final(accounts)@) == views(old(accounts)@)
                },
                Some(EscrowInstruction::InitEscrow { amount }) => match init_rejection(
                    program_id@,
                    views(old(accounts)@),
                ) {
                    Some(kind) => {
                        &&& result matches Err(e) && e.spec_kind() == kind
                        &&& views(final(accounts)@) == views(old(accounts)@)
                    },
                    None => {
                        &&& result matches Err(e) ==> e is Collaborator
                        &&& init_call(program_id@, views(old(accounts)@)) is Some
                        &&& touched_only(
                            init_recorded(views(old(accounts)@), amount),
                            views(final(accounts)@),
                            seq![1usize, 0, 5],
                        )
                    },
                },
                Some(EscrowInstruction::Exchange { amount }) => match exchange_rejection(
                    program_id@,
                    views(old(accounts)@),
                    amount,
                ) {
                    Some(kind) => {
                        &&& result matches Err(e) && e.spec_kind() == kind
                        &&& views(final(accounts)@) == views(old(accounts)@)
                    },
                    None => {
                        &&& exchange_calls(
                            program_id@,
                            views(old(accounts)@),
                            escrow_unpack(old(accounts)@[6].data@)->0.expected_amount,
                            amount,
                        ) is Some
                        &&& exchange_settled(
                            views(old(accounts)@),
                            views(final(accounts)@),
                            result,
                        )
                    },
                },
            },
    {
        let instruction = match EscrowInstruction::unpack(instruction_data) {
            Ok(instruction) => instruction,
            Err(e) => {
                return Err(ProcessError::Escrow(e));
            },
        };
        match instruction {
            EscrowInstruction::InitEscrow { amount } => Self::process_init_escrow(
                program_id,
                accounts,
                amount,
            ),
            EscrowInstruction::Exchange { amount } => Self::process_exchange(
                program_id,
                accounts,
                amount,
            ),
        }
    }
}

} // verus!
