//! The escrow record: the persistent state of one pending swap, and its
//! fixed 105-byte layout.

use vstd::prelude::*;
use crate::codec::{
    lemma_u64_from_le_bounds, lemma_u64_le_bytes_roundtrip, lemma_u64_le_roundtrip, push_u64_le,
    read_u64_le, u64_from_le, u64_to_le,
};
use crate::error::EscrowError;
use crate::pubkey::Pubkey;

verus! {

/// The number of bytes of a packed escrow record.
pub const ESCROW_LEN: usize = 105;

/// The state of one pending swap.
#[derive(Clone, Copy, Debug, PartialEq, Eq)]
pub struct Escrow {
    /// Guards against a second initialization and against reading an
    /// account that holds no record yet.
    pub is_initialized: bool,
    /// The depositor.
    pub initializer_pubkey: Pubkey,
    /// The custody account that holds the deposit.
    pub temp_token_account_pubkey: Pubkey,
    /// The account in which the depositor wants to receive the other asset.
    pub initializer_token_to_receive_account_pubkey: Pubkey,
    /// How much of the other asset the depositor demands.
    pub expected_amount: u64,
}

/// An escrow record as a mathematical value: addresses are byte sequences.
pub struct EscrowView {
    pub is_initialized: bool,
    pub initializer_pubkey: Seq<u8>,
    pub temp_token_account_pubkey: Seq<u8>,
    pub initializer_token_to_receive_account_pubkey: Seq<u8>,
    pub expected_amount: u64,
}

impl EscrowView {
    /// Every address of the record has 32 bytes.
    pub open spec fn wf(self) -> bool {
        &&& self.initializer_pubkey.len() == 32
        &&& self.temp_token_account_pubkey.len() == 32
        &&& self.initializer_token_to_receive_account_pubkey.len() == 32
    }
}

impl View for Escrow {
    type V = EscrowView;

    open spec fn view(&self) -> EscrowView {
        EscrowView {
            is_initialized: self.is_initialized,
            initializer_pubkey: self.initializer_pubkey@,
            temp_token_account_pubkey: self.temp_token_account_pubkey@,
            initializer_token_to_receive_account_pubkey: self.initializer_token_to_receive_account_pubkey@,
            expected_amount: self.expected_amount,
        }
    }
}

/// The 105 bytes that hold a record: the flag, the three addresses, then
/// the amount, least significant byte first.
pub open spec fn escrow_pack(record: EscrowView) -> Seq<u8> {
    seq![if record.is_initialized { 1u8 } else { 0u8 }] + record.initializer_pubkey
        + record.temp_token_account_pubkey + record.initializer_token_to_receive_account_pubkey
        + u64_to_le(record.expected_amount)
}

/// The record that a buffer holds, if it holds one: the buffer has exactly
/// 105 bytes and its first byte is 0 or 1. Nothing else is validated.
pub open spec fn escrow_unpack(data: Seq<u8>) -> Option<EscrowView> {
    if data.len() != 105 || data[0] > 1 {
        None
    } else {
        Some(
            EscrowView {
                is_initialized: data[0] == 1,
                initializer_pubkey: data.subrange(1, 33),
                temp_token_account_pubkey: data.subrange(33, 65),
                initializer_token_to_receive_account_pubkey: data.subrange(65, 97),
                expected_amount: u64_from_le(data.subrange(97, 105)) as u64,
            },
        )
    }
}

impl Escrow {
    /// Whether the record has been initialized.
    pub fn is_initialized(&self) -> (initialized: bool)
        ensures
            initialized == self@.is_initialized,
    {
        self.is_initialized
    }

    /// Reads a record from a buffer without asking whether it has been
    /// initialized. Fails with `InvalidAccountData` unless the buffer has
    /// the size of a record and starts with 0 or 1.
    pub fn unpack_unchecked(input: &[u8]) -> (result: Result<Escrow, EscrowError>)
        ensures
            match escrow_unpack(input@) {
                Some(record) => result matches Ok(escrow) && escrow@ == record,
                None => result == Err::<Escrow, EscrowError>(EscrowError::InvalidAccountData),
            },
    {
        if input.len() != ESCROW_LEN {
            return Err(EscrowError::InvalidAccountData);
        }
        let flag = input[0];
        if flag > 1 {
            return Err(EscrowError::InvalidAccountData);
        }
        Ok(
            Escrow {
                is_initialized: flag == 1,
                initializer_pubkey: Pubkey::read_from(input, 1),
                temp_token_account_pubkey: Pubkey::read_from(input, 33),
                initializer_token_to_receive_account_pubkey: Pubkey::read_from(input, 65),
                expected_amount: read_u64_le(input, 97),
            },
        )
    }

    /// The bytes that hold this record.
    pub fn to_bytes(&self) -> (bytes: Vec<u8>)
        ensures
            bytes@ == escrow_pack(self@),
            bytes@.len() == ESCROW_LEN,
    {
        let mut bytes: Vec<u8> = Vec::new();
        bytes.push(if self.is_initialized { 1 } else { 0 });
        self.initializer_pubkey.push_to(&mut bytes);
        self.temp_token_account_pubkey.push_to(&mut bytes);
        self.initializer_token_to_receive_account_pubkey.push_to(&mut bytes);
        push_u64_le(&mut bytes, self.expected_amount);
        assert(bytes@ =~= escrow_pack(self@));
        bytes
    }

    /// Writes the record over a buffer that has the size of a record.
    /// Fails with `InvalidAccountData`, and leaves the buffer as it is, on
    /// a buffer of another size.
    pub fn pack(src: Escrow, dst: &mut Vec<u8>) -> (result: Result<(), EscrowError>)
        ensures
            old(dst)@.len() == ESCROW_LEN ==> result is Ok && final(dst)@ == escrow_pack(src@),
            old(dst)@.len() != ESCROW_LEN ==> result == Err::<(), EscrowError>(
                EscrowError::InvalidAccountData,
            ) && final(dst)@ == old(dst)@,
    {
        if dst.len() != ESCROW_LEN {
            return Err(EscrowError::InvalidAccountData);
        }
        *dst = src.to_bytes();
        Ok(())
    }
}

/// A packed record has the size of a record.
pub proof fn lemma_escrow_pack_len(record: EscrowView)
    requires
        record.wf(),
    ensures
        escrow_pack(record).len() == 105,
{
}

/// Unpacking a packed record gives the field values back.
pub proof fn lemma_escrow_roundtrip(record: EscrowView)
    requires
        record.wf(),
    ensures
        escrow_unpack(escrow_pack(record)) == Some(record),
{
    let data = escrow_pack(record);
    lemma_u64_le_roundtrip(record.expected_amount);
    assert(data.subrange(1, 33) =~= record.initializer_pubkey);
    assert(data.subrange(33, 65) =~= record.temp_token_account_pubkey);
    assert(data.subrange(65, 97) =~= record.initializer_token_to_receive_account_pubkey);
    assert(data.subrange(97, 105) =~= u64_to_le(record.expected_amount));
}

/// Packing what was unpacked gives the buffer back.
pub proof fn lemma_escrow_bytes_roundtrip(data: Seq<u8>)
    requires
        escrow_unpack(data) is Some,
    ensures
        escrow_unpack(data)->0.wf(),
        escrow_pack(escrow_unpack(data)->0) == data,
{
    let record = escrow_unpack(data)->0;
    lemma_u64_from_le_bounds(data.subrange(97, 105));
    lemma_u64_le_bytes_roundtrip(data.subrange(97, 105));
    assert(escrow_pack(record) =~= data);
}

} // verus!
