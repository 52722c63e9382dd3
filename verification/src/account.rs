//! Accounts as the escrow sees them: plain values.

use vstd::prelude::*;
use crate::pubkey::Pubkey;

verus! {

/// One account of the ledger, as it is handed to an instruction.
#[derive(Clone, Debug, PartialEq, Eq)]
pub struct Account {
    /// The address of the account.
    pub key: Pubkey,
    /// Whether the transaction was signed by the key of this account.
    pub is_signer: bool,
    /// Whether the instruction may change the account.
    pub is_writable: bool,
    /// The balance of the account.
    pub lamports: u64,
    /// The data that the account holds.
    pub data: Vec<u8>,
    /// The program that owns the account.
    pub owner: Pubkey,
    /// Whether the data of the account is a loaded program.
    pub executable: bool,
    /// The epoch at which the account next owes rent.
    pub rent_epoch: u64,
}

/// An account as a mathematical value.
pub struct AccountView {
    pub key: Seq<u8>,
    pub is_signer: bool,
    pub is_writable: bool,
    pub lamports: u64,
    pub data: Seq<u8>,
    pub owner: Seq<u8>,
    pub executable: bool,
    pub rent_epoch: u64,
}

impl View for Account {
    type V = AccountView;

    open spec fn view(&self) -> AccountView {
        AccountView {
            key: self.key@,
            is_signer: self.is_signer,
            is_writable: self.is_writable,
            lamports: self.lamports,
            data: self.data@,
            owner: self.owner@,
            executable: self.executable,
            rent_epoch: self.rent_epoch,
        }
    }
}

impl AccountView {
    /// Whether `other` is this account but for its balance and its data.
    pub open spec fn same_identity(self, other: AccountView) -> bool {
        &&& self.key == other.key
        &&& self.owner == other.owner
        &&& self.is_signer == other.is_signer
        &&& self.is_writable == other.is_writable
        &&& self.executable == other.executable
        &&& self.rent_epoch == other.rent_epoch
    }
}

/// The accounts of a list as mathematical values.
pub open spec fn views(accounts: Seq<Account>) -> Seq<AccountView> {
    Seq::new(accounts.len(), |i: int| accounts[i]@)
}

} // verus!
