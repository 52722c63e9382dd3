//! What the escrow asks of the token program: its identity, the balance of
//! a token account, and the instructions that move tokens. The functions
//! marked `external_body` call into `spl_token`; their contracts are
//! believed, not proved.

use vstd::prelude::*;
use solana_program::instruction::Instruction;
use solana_program::program_error::ProgramError;
use solana_program::program_pack::Pack;
use crate::pubkey::Pubkey;

verus! {

/// The address of the token program.
pub open spec fn token_program_address() -> Seq<u8> {
    seq![
        6u8, 221, 246, 225, 215, 101, 161, 147, 217, 203, 225, 70, 206, 235, 121, 172,
        28, 180, 133, 237, 95, 91, 55, 145, 58, 140, 245, 133, 126, 255, 0, 169,
    ]
}

/// The amount that `spl_token::state::Account::unpack` reads from the data
/// of a token account, or `None` where it refuses the data.
pub uninterp spec fn token_balance(data: Seq<u8>) -> Option<u64>;

/// The instruction that `spl_token::instruction::set_authority` builds from
/// the given program, account, new authority, kind of authority, present
/// authority and signers, or `None` where it builds none.
pub uninterp spec fn set_authority_instruction(
    token_program: Seq<u8>,
    owned: Seq<u8>,
    new_authority: Option<Seq<u8>>,
    authority_type: AuthorityType,
    owner: Seq<u8>,
    signers: Seq<Seq<u8>>,
) -> Option<Instruction>;

/// The instruction that `spl_token::instruction::transfer` builds from the
/// given program, source, destination, authority, signers and amount, or
/// `None` where it builds none.
pub uninterp spec fn transfer_instruction(
    token_program: Seq<u8>,
    source: Seq<u8>,
    destination: Seq<u8>,
    authority: Seq<u8>,
    signers: Seq<Seq<u8>>,
    amount: u64,
) -> Option<Instruction>;

/// The instruction that `spl_token::instruction::close_account` builds from
/// the given program, account, destination, owner and signers, or `None`
/// where it builds none.
pub uninterp spec fn close_account_instruction(
    token_program: Seq<u8>,
    account: Seq<u8>,
    destination: Seq<u8>,
    owner: Seq<u8>,
    signers: Seq<Seq<u8>>,
) -> Option<Instruction>;

/// The byte sequences of a list of addresses.
pub open spec fn key_lists(keys: Seq<Pubkey>) -> Seq<Seq<u8>> {
    Seq::new(keys.len(), |i: int| keys[i]@)
}

/// Which authority over a mint or a token account an instruction changes.
#[derive(Clone, Copy, Debug, PartialEq, Eq, Structural)]
pub enum AuthorityType {
    /// The authority to mint new tokens.
    MintTokens,
    /// The authority to freeze any account of a mint.
    FreezeAccount,
    /// The owner of a token account.
    AccountOwner,
    /// The authority to close a token account.
    CloseAccount,
}

/// An operation that the escrow asks of the token program. Each is
/// authorized by a single authority, which is also its only signer.
#[derive(Clone, Copy, Debug, PartialEq, Eq)]
pub enum TokenOperation {
    /// Hands an authority over `account` from `current_authority` to
    /// `new_authority`.
    SetAuthority {
        account: Pubkey,
        authority_type: AuthorityType,
        new_authority: Pubkey,
        current_authority: Pubkey,
    },
    /// Moves `amount` tokens from `source` to `destination`.
    Transfer { source: Pubkey, destination: Pubkey, authority: Pubkey, amount: u64 },
    /// Closes `account` and sends its balance to `destination`.
    CloseAccount { account: Pubkey, destination: Pubkey, authority: Pubkey },
}

/// A token operation as a mathematical value: addresses are byte
/// sequences.
pub enum TokenOperationView {
    SetAuthority {
        account: Seq<u8>,
        authority_type: AuthorityType,
        new_authority: Seq<u8>,
        current_authority: Seq<u8>,
    },
    Transfer { source: Seq<u8>, destination: Seq<u8>, authority: Seq<u8>, amount: u64 },
    CloseAccount { account: Seq<u8>, destination: Seq<u8>, authority: Seq<u8> },
}

impl View for TokenOperation {
    type V = TokenOperationView;

    open spec fn view(&self) -> TokenOperationView {
        match *self {
            TokenOperation::SetAuthority {
                account,
                authority_type,
                new_authority,
                current_authority,
            } => TokenOperationView::SetAuthority {
                account: account@,
                authority_type,
                new_authority: new_authority@,
                current_authority: current_authority@,
            },
            TokenOperation::Transfer {
                source,
                destination,
                authority,
                amount,
            } => TokenOperationView::Transfer {
                source: source@,
                destination: destination@,
                authority: authority@,
                amount,
            },
            TokenOperation::CloseAccount {
                account,
                destination,
                authority,
            } => TokenOperationView::CloseAccount {
                account: account@,
                destination: destination@,
                authority: authority@,
            },
        }
    }
}

impl TokenOperationView {
    /// The instruction that asks `token_program` for the operation, as the
    /// token program's own builders make it from the fields of the
    /// operation, with its authority as the only signer; `None` where they
    /// make none.
    pub open spec fn instruction(self, token_program: Seq<u8>) -> Option<Instruction> {
        match self {
            TokenOperationView::SetAuthority {
                account,
                authority_type,
                new_authority,
                current_authority,
            } => set_authority_instruction(
                token_program,
                account,
                Some(new_authority),
                authority_type,
                current_authority,
                seq![current_authority],
            ),
            TokenOperationView::Transfer {
                source,
                destination,
                authority,
                amount,
            } => transfer_instruction(
                token_program,
                source,
                destination,
                authority,
                seq![authority],
                amount,
            ),
            TokenOperationView::CloseAccount {
                account,
                destination,
                authority,
            } => close_account_instruction(
                token_program,
                account,
                destination,
                authority,
                seq![authority],
            ),
        }
    }
}

/// A request to the token program, ready to be sent: the operation, the
/// instruction that asks for it, the positions in the account list of the
/// accounts that the token program is handed, in the order in which it is
/// handed them, and the seeds with which the program signs as its
/// authority. Where the seeds are empty the program does not sign.
#[derive(Debug, PartialEq, Eq)]
pub struct TokenCall {
    pub operation: TokenOperation,
    pub instruction: Instruction,
    pub accounts: Vec<usize>,
    pub signer_seeds: Vec<Vec<u8>>,
}

/// A request to the token program as a mathematical value.
pub struct TokenCallView {
    pub operation: TokenOperationView,
    pub instruction: Instruction,
    pub accounts: Seq<usize>,
    pub signer_seeds: Seq<Seq<u8>>,
}

impl View for TokenCall {
    type V = TokenCallView;

    open spec fn view(&self) -> TokenCallView {
        TokenCallView {
            operation: self.operation@,
            instruction: self.instruction,
            accounts: self.accounts@,
            signer_seeds: Seq::new(self.signer_seeds@.len(), |i: int| self.signer_seeds@[i]@),
        }
    }
}

/// Calls `spl_token::id`. The contract states the 32 bytes that the address
/// `TokenkegQfeZyiNwAJbNbGKPFXCWuBvf9Ss623VQ5DA` stands for.
#[verifier::external_body]
pub(crate) fn token_program_id() -> (id: Pubkey)
    ensures
        id@ == token_program_address(),
{
    Pubkey { bytes: spl_token::id().to_bytes() }
}

/// Calls `spl_token::state::Account::unpack` and hands out the amount of
/// what was read. The contract claims that the result depends on the data
/// alone.
#[verifier::external_body]
pub(crate) fn token_account_amount(data: &Vec<u8>) -> (amount: Result<u64, ProgramError>)
    ensures
        match amount {
            Ok(a) => token_balance(data@) == Some(a),
            Err(_) => token_balance(data@) is None,
        },
{
    spl_token::state::Account::unpack(data).map(|account| account.amount)
}

/// Calls `spl_token::instruction::set_authority`. The contract claims that
/// the result depends on the arguments alone, and that it fails on any
/// program but the token program, and on no other input.
#[verifier::external_body]
pub(crate) fn set_authority(
    token_program: &Pubkey,
    owned: &Pubkey,
    new_authority: Option<Pubkey>,
    authority_type: AuthorityType,
    owner: &Pubkey,
    signers: &Vec<Pubkey>,
) -> (instruction: Result<Instruction, ProgramError>)
    ensures
        instruction is Ok <==> token_program@ == token_program_address(),
        match instruction {
            Ok(built) => set_authority_instruction(
                token_program@,
                owned@,
                match new_authority {
                    Some(key) => Some(key@),
                    None => None,
                },
                authority_type,
                owner@,
                key_lists(signers@),
            ) == Some(built),
            Err(_) => set_authority_instruction(
                token_program@,
                owned@,
                match new_authority {
                    Some(key) => Some(key@),
                    None => None,
                },
                authority_type,
                owner@,
                key_lists(signers@),
            ) is None,
        },
{
    let kind = match authority_type {
        AuthorityType::MintTokens => spl_token::instruction::AuthorityType::MintTokens,
        AuthorityType::FreezeAccount => spl_token::instruction::AuthorityType::FreezeAccount,
        AuthorityType::AccountOwner => spl_token::instruction::AuthorityType::AccountOwner,
        AuthorityType::CloseAccount => spl_token::instruction::AuthorityType::CloseAccount,
    };
    let new_authority = new_authority.map(|key| key.bytes.into());
    let signers: Vec<_> = signers.iter().map(|key| key.bytes.into()).collect();
    let signers: Vec<_> = signers.iter().collect();
    spl_token::instruction::set_authority(
        &token_program.bytes.into(), &owned.bytes.into(), new_authority.as_ref(), kind,
        &owner.bytes.into(), &signers,
    )
}

/// Calls `spl_token::instruction::transfer`. The contract claims that the
/// result depends on the arguments alone, and that it fails on any program
/// but the token program, and on no other input.
#[verifier::external_body]
pub(crate) fn transfer(
    token_program: &Pubkey,
    source: &Pubkey,
    destination: &Pubkey,
    authority: &Pubkey,
    signers: &Vec<Pubkey>,
    amount: u64,
) -> (instruction: Result<Instruction, ProgramError>)
    ensures
        instruction is Ok <==> token_program@ == token_program_address(),
        match instruction {
            Ok(built) => transfer_instruction(
                token_program@,
                source@,
                destination@,
                authority@,
                key_lists(signers@),
                amount,
            ) == Some(built),
            Err(_) => transfer_instruction(
                token_program@,
                source@,
                destination@,
                authority@,
                key_lists(signers@),
                amount,
            ) is None,
        },
{
    let signers: Vec<_> = signers.iter().map(|key| key.bytes.into()).collect();
    let signers: Vec<_> = signers.iter().collect();
    spl_token::instruction::transfer(
        &token_program.bytes.into(), &source.bytes.into(), &destination.bytes.into(),
        &authority.bytes.into(), &signers, amount,
    )
}

/// Calls `spl_token::instruction::close_account`. The contract claims that
/// the result depends on the arguments alone, and that it fails on any
/// program but the token program, and on no other input.
#[verifier::external_body]
pub(crate) fn close_account(
    token_program: &Pubkey,
    account: &Pubkey,
    destination: &Pubkey,
    owner: &Pubkey,
    signers: &Vec<Pubkey>,
) -> (instruction: Result<Instruction, ProgramError>)
    ensures
        instruction is Ok <==> token_program@ == token_program_address(),
        match instruction {
            Ok(built) => close_account_instruction(
                token_program@,
                account@,
                destination@,
                owner@,
                key_lists(signers@),
            ) == Some(built),
            Err(_) => close_account_instruction(
                token_program@,
                account@,
                destination@,
                owner@,
                key_lists(signers@),
            ) is None,
        },
{
    let signers: Vec<_> = signers.iter().map(|key| key.bytes.into()).collect();
    let signers: Vec<_> = signers.iter().collect();
    spl_token::instruction::close_account(
        &token_program.bytes.into(), &account.bytes.into(), &destination.bytes.into(),
        &owner.bytes.into(), &signers,
    )
}

impl TokenOperation {
    /// The authority that authorizes the operation.
    pub open spec fn spec_authority(self) -> Pubkey {
        match self {
            TokenOperation::SetAuthority { current_authority, .. } => current_authority,
            TokenOperation::Transfer { authority, .. } => authority,
            TokenOperation::CloseAccount { authority, .. } => authority,
        }
    }

    /// The authority that authorizes the operation.
    pub fn authority(&self) -> (authority: Pubkey)
        ensures
            authority == self.spec_authority(),
    {
        match self {
            TokenOperation::SetAuthority { current_authority, .. } => *current_authority,
            TokenOperation::Transfer { authority, .. } => *authority,
            TokenOperation::CloseAccount { authority, .. } => *authority,
        }
    }

    /// The instruction that asks `token_program` for the operation. Fails
    /// on any program but the token program, and on no other input.
    pub fn instruction(&self, token_program: &Pubkey) -> (instruction: Result<
        Instruction,
        ProgramError,
    >)
        ensures
            instruction is Ok <==> token_program@ == token_program_address(),
            match instruction {
                Ok(built) => self@.instruction(token_program@) == Some(built),
                Err(_) => self@.instruction(token_program@) is None,
            },
    {
        let mut signers: Vec<Pubkey> = Vec::new();
        signers.push(self.authority());
        assert(key_lists(signers@) =~= seq![self.spec_authority()@]);
        match self {
            TokenOperation::SetAuthority {
                account,
                authority_type,
                new_authority,
                current_authority,
            } => set_authority(
                token_program,
                account,
                Some(*new_authority),
                *authority_type,
                current_authority,
                &signers,
            ),
            TokenOperation::Transfer { source, destination, authority, amount } => transfer(
                token_program,
                source,
                destination,
                authority,
                &signers,
                *amount,
            ),
            TokenOperation::CloseAccount { account, destination, authority } => close_account(
                token_program,
                account,
                destination,
                authority,
                &signers,
            ),
        }
    }
}

} // verus!
