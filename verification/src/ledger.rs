//! What the escrow asks of the ledger: derived addresses, the rent rule and
//! cross-program invocation. The functions marked `external_body` call into
//! `solana_program`; their contracts are believed, not proved.

use vstd::prelude::*;
use solana_program::account_info::AccountInfo;
use solana_program::instruction::Instruction;
use solana_program::program;
use solana_program::program_error::ProgramError;
use solana_program::pubkey::Pubkey as Address;
use solana_program::rent::Rent;
use solana_program::sysvar::Sysvar;
use crate::account::{views, Account, AccountView};
use crate::pubkey::Pubkey;

verus! {

/// `solana_program::program_error::ProgramError`, carried through as it is.
#[verifier::external_type_specification]
#[verifier::external_body]
pub struct ExProgramError(ProgramError);

/// `solana_program::instruction::Instruction`, carried through as it is.
#[verifier::external_type_specification]
#[verifier::external_body]
pub struct ExInstruction(Instruction);

/// The address and bump seed that `Pubkey::try_find_program_address` derives
/// from the given seeds and program, or `None` where it derives none.
pub uninterp spec fn program_address(seeds: Seq<Seq<u8>>, program_id: Seq<u8>) -> Option<
    (Seq<u8>, u8),
>;

/// The `lamports_per_byte_year` of the rent schedule that
/// `Rent::from_account_info` reads from an account with the given key and
/// data, or `None` where it reads none.
pub uninterp spec fn rent_rate(key: Seq<u8>, data: Seq<u8>) -> Option<u64>;

/// Whether `Rent::is_exempt` holds a balance of `lamports` to be enough for
/// `data_len` bytes, under the rent schedule that `Rent::from_account_info`
/// reads from an account with the given key and data; `None` where it reads
/// none.
pub uninterp spec fn rent_exemption(
    key: Seq<u8>,
    data: Seq<u8>,
    lamports: u64,
    data_len: nat,
) -> Option<bool>;

/// The byte sequences that a list of byte vectors holds.
pub open spec fn byte_lists(lists: Seq<Vec<u8>>) -> Seq<Seq<u8>> {
    Seq::new(lists.len(), |i: int| lists[i]@)
}

/// Whether `after` is `before` but for the balances and the data of the
/// accounts whose positions `order` lists.
pub open spec fn touched_only(
    before: Seq<AccountView>,
    after: Seq<AccountView>,
    order: Seq<usize>,
) -> bool {
    &&& after.len() == before.len()
    &&& forall|i: int| 0 <= i < before.len() ==> (#[trigger] after[i]).same_identity(before[i])
    &&& forall|i: int|
        0 <= i < before.len() && !order.contains(i as usize) ==> #[trigger] after[i] == before[i]
}

/// Calls `Pubkey::try_find_program_address`. The contract claims that the
/// result depends on the seeds and the program alone.
#[verifier::external_body]
pub(crate) fn find_program_address(seeds: &Vec<Vec<u8>>, program_id: &Pubkey) -> (found: Option<
    (Pubkey, u8),
>)
    ensures
        match found {
            Some((address, bump)) => program_address(byte_lists(seeds@), program_id@) == Some(
                (address@, bump),
            ),
            None => program_address(byte_lists(seeds@), program_id@) is None,
        },
{
    let seeds: Vec<_> = seeds.iter().map(Vec::as_slice).collect();
    Address::try_find_program_address(&seeds, &program_id.bytes.into()).map(
        |(address, bump)| (Pubkey { bytes: address.to_bytes() }, bump),
    )
}

/// Calls `Rent::from_account_info` on a copy of the account and hands out
/// the `lamports_per_byte_year` of what was read. The contract claims that
/// the result depends on the key and the data of the account alone.
#[verifier::external_body]
pub(crate) fn rent_lamports_per_byte_year(sysvar: &Account) -> (rate: Result<u64, ProgramError>)
    ensures
        match rate {
            Ok(r) => rent_rate(sysvar@.key, sysvar@.data) == Some(r),
            Err(_) => rent_rate(sysvar@.key, sysvar@.data) is None,
        },
{
    let (key, owner): (Address, Address) = (sysvar.key.bytes.into(), sysvar.owner.bytes.into());
    let (mut lamports, mut data) = (sysvar.lamports, sysvar.data.clone());
    let info = AccountInfo::new(
        &key, sysvar.is_signer, sysvar.is_writable, &mut lamports, &mut data, &owner,
        sysvar.executable, sysvar.rent_epoch,
    );
    Rent::from_account_info(&info).map(|rent| rent.lamports_per_byte_year)
}

/// Calls `Rent::from_account_info` on a copy of the account and
/// `Rent::is_exempt` on what was read. The contract claims that the result
/// depends on the key and the data of the account, the balance and the
/// length alone, and that the account is read as
/// `rent_lamports_per_byte_year` reads it. `Rent::is_exempt` adds an
/// overhead of 128 bytes to the length and multiplies the sum by
/// `lamports_per_byte_year`: the precondition keeps both in range.
#[verifier::external_body]
pub(crate) fn rent_is_exempt(sysvar: &Account, lamports: u64, data_len: usize) -> (exempt: Result<
    bool,
    ProgramError,
>)
    requires
        128 + data_len <= u64::MAX,
        rent_rate(sysvar@.key, sysvar@.data) matches Some(rate) ==> (128 + data_len) * rate
            <= u64::MAX,
    ensures
        exempt is Ok <==> rent_rate(sysvar@.key, sysvar@.data) is Some,
        match exempt {
            Ok(e) => rent_exemption(sysvar@.key, sysvar@.data, lamports, data_len as nat) == Some(
                e,
            ),
            Err(_) => rent_exemption(sysvar@.key, sysvar@.data, lamports, data_len as nat) is None,
        },
{
    let (key, owner): (Address, Address) = (sysvar.key.bytes.into(), sysvar.owner.bytes.into());
    let (mut balance, mut data) = (sysvar.lamports, sysvar.data.clone());
    let info = AccountInfo::new(
        &key, sysvar.is_signer, sysvar.is_writable, &mut balance, &mut data, &owner,
        sysvar.executable, sysvar.rent_epoch,
    );
    Rent::from_account_info(&info).map(|rent| rent.is_exempt(lamports, data_len))
}

/// Calls `solana_program::program::invoke` with the instruction and the
/// accounts at the positions that `order` lists, in that order. Nothing is
/// claimed of the outcome, nor of what the callee does to the balances and
/// the data of those accounts. The callee is handed the balance and the
/// data of each of them to change, and a copy of the rest: the contract
/// claims that the rest stays as it was, and that the accounts that are not
/// listed are not handed over.
#[verifier::external_body]
pub(crate) fn invoke(instruction: &Instruction, accounts: &mut Vec<Account>, order: &Vec<usize>) -> (result:
    Result<(), ProgramError>)
    requires
        forall|i: int| 0 <= i < order@.len() ==> order@[i] < old(accounts)@.len(),
    ensures
        touched_only(views(old(accounts)@), views(final(accounts)@), order@),
{
    let ids: Vec<(Address, Address)> =
        accounts.iter().map(|a| (a.key.bytes.into(), a.owner.bytes.into())).collect();
    let all: Vec<_> = accounts.iter_mut().zip(&ids).map(|(a, id)| AccountInfo::new(
        &id.0, a.is_signer, a.is_writable, &mut a.lamports, &mut a.data, &id.1, a.executable,
        a.rent_epoch,
    )).collect();
    let passed: Vec<_> = order.iter().map(|i| all[*i].clone()).collect();
    program::invoke(instruction, &passed)
}

/// Calls `solana_program::program::invoke_signed` with the instruction, the
/// accounts at the positions that `order` lists, in that order, and one set
/// of signer seeds. Nothing is claimed of the outcome, nor of what the
/// callee does to the balances and the data of those accounts. The callee
/// is handed the balance and the data of each of them to change, and a copy
/// of the rest: the contract claims that the rest stays as it was, and that
/// the accounts that are not listed are not handed over.
#[verifier::external_body]
pub(crate) fn invoke_signed(
    instruction: &Instruction,
    accounts: &mut Vec<Account>,
    order: &Vec<usize>,
    seeds: &Vec<&[u8]>,
) -> (result: Result<(), ProgramError>)
    requires
        forall|i: int| 0 <= i < order@.len() ==> order@[i] < old(accounts)@.len(),
    ensures
        touched_only(views(old(accounts)@), views(final(accounts)@), order@),
{
    let ids: Vec<(Address, Address)> =
        accounts.iter().map(|a| (a.key.bytes.into(), a.owner.bytes.into())).collect();
    let all: Vec<_> = accounts.iter_mut().zip(&ids).map(|(a, id)| AccountInfo::new(
        &id.0, a.is_signer, a.is_writable, &mut a.lamports, &mut a.data, &id.1, a.executable,
        a.rent_epoch,
    )).collect();
    let passed: Vec<_> = order.iter().map(|i| all[*i].clone()).collect();
    program::invoke_signed(instruction, &passed, &[seeds])
}

} // verus!
