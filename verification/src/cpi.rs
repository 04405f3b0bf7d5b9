//! Cross-program calls as plain values: the instructions that the programs
//! hand to the token program, built by `spl_token_2022`'s instruction
//! builders, and the forwarding of extra accounts to a transfer hook.
use vstd::prelude::*;
use anchor_lang::prelude::Pubkey as ChainPubkey;
use anchor_spl::token_2022::spl_token_2022;
use vstd::arithmetic::power::{pow, lemma_pow_positive};
use vstd::arithmetic::div_mod::lemma_div_denominator;
use crate::pubkey::{Pubkey, is_token_program, ASSOCIATED_TOKEN_PROGRAM_ID, SYSTEM_PROGRAM_ID};
use crate::pda::spec_associated_token_address;
use crate::accounts::AccountError;

verus! {

/// One account of an instruction.
#[derive(Clone, Copy, Debug)]
pub struct AccountMeta {
    pub pubkey: Pubkey,
    pub is_signer: bool,
    pub is_writable: bool,
}

/// An instruction for another program: its id, its accounts and its data.
#[derive(Debug)]
pub struct Instruction {
    pub program_id: Pubkey,
    pub accounts: Vec<AccountMeta>,
    pub data: Vec<u8>,
}

/// An extra account passed to an instruction beyond its declared ones.
#[derive(Clone, Copy, Debug)]
pub struct RemainingAccount {
    pub key: Pubkey,
    pub is_signer: bool,
    pub is_writable: bool,
}

pub open spec fn meta(pubkey: Pubkey, is_signer: bool, is_writable: bool) -> AccountMeta {
    AccountMeta { pubkey, is_signer, is_writable }
}

/// The account entry that forwards a remaining account: same key, same
/// signer and writable flags.
pub open spec fn forwarded(acc: RemainingAccount) -> AccountMeta {
    AccountMeta { pubkey: acc.key, is_signer: acc.is_signer, is_writable: acc.is_writable }
}

pub open spec fn forwarded_all(accs: Seq<RemainingAccount>) -> Seq<AccountMeta> {
    accs.map_values(|a: RemainingAccount| forwarded(a))
}

/// The eight little-endian bytes of `x`.
pub open spec fn le_bytes(x: u64) -> Seq<u8> {
    Seq::new(8, |i: int| ((x as int / pow(256, i as nat)) % 256) as u8)
}

/// The data of a token `TransferChecked` instruction.
pub open spec fn transfer_checked_data(amount: u64, decimals: u8) -> Seq<u8> {
    seq![12u8] + le_bytes(amount) + seq![decimals]
}

/// The data of a token `MintTo` instruction.
pub open spec fn mint_to_data(amount: u64) -> Seq<u8> {
    seq![7u8] + le_bytes(amount)
}

/// The data of a token `CloseAccount` instruction.
pub open spec fn close_account_data() -> Seq<u8> {
    seq![9u8]
}

/// A token `TransferChecked` instruction with a single authority.
pub open spec fn is_transfer_checked(
    ix: Instruction,
    token_program: Pubkey,
    source: Pubkey,
    mint: Pubkey,
    destination: Pubkey,
    authority: Pubkey,
    amount: u64,
    decimals: u8,
) -> bool {
    &&& ix.program_id == token_program
    &&& ix.accounts@ == seq![
        meta(source, false, true),
        meta(mint, false, false),
        meta(destination, false, true),
        meta(authority, true, false),
    ]
    &&& ix.data@ == transfer_checked_data(amount, decimals)
}

/// Calls `spl_token_2022::instruction::transfer_checked` with no multisig
/// signers. As its source shows: it fails with `IncorrectProgramId` unless
/// the program id is one of the two token programs; otherwise the
/// instruction has the source and destination writable, the mint read-only,
/// the authority as read-only signer, and the packed `TransferChecked` data.
#[verifier::external_body]
pub(crate) fn transfer_checked(
    token_program: &Pubkey,
    source: &Pubkey,
    mint: &Pubkey,
    destination: &Pubkey,
    authority: &Pubkey,
    amount: u64,
    decimals: u8,
) -> (r: Result<Instruction, AccountError>)
    ensures
        r is Ok <==> is_token_program(*token_program),
        r matches Err(e) ==> e == AccountError::IncorrectProgramId,
        r matches Ok(ix) ==> is_transfer_checked(ix, *token_program, *source, *mint, *destination, *authority, amount, decimals),
{
    let k = |p: &Pubkey| ChainPubkey::new_from_array(p.bytes);
    match spl_token_2022::instruction::transfer_checked(&k(token_program), &k(source), &k(mint), &k(destination), &k(authority), &[], amount, decimals) {
        Ok(ix) => Ok(Instruction {
            program_id: Pubkey { bytes: ix.program_id.to_bytes() },
            accounts: ix.accounts.iter().map(|m| AccountMeta { pubkey: Pubkey { bytes: m.pubkey.to_bytes() }, is_signer: m.is_signer, is_writable: m.is_writable }).collect(),
            data: ix.data,
        }),
        Err(_) => Err(AccountError::IncorrectProgramId),
    }
}

/// Calls `spl_token_2022::instruction::mint_to` with no multisig signers. As
/// its source shows: it fails with `IncorrectProgramId` unless the program id
/// is one of the two token programs; otherwise the instruction has the mint
/// and the destination writable, the mint authority as read-only signer, and
/// the packed `MintTo` data.
#[verifier::external_body]
pub(crate) fn mint_to(token_program: &Pubkey, mint: &Pubkey, destination: &Pubkey, authority: &Pubkey, amount: u64) -> (r: Result<Instruction, AccountError>)
    ensures
        r is Ok <==> is_token_program(*token_program),
        r matches Err(e) ==> e == AccountError::IncorrectProgramId,
        r matches Ok(ix) ==> {
            &&& ix.program_id == *token_program
            &&& ix.accounts@ == seq![meta(*mint, false, true), meta(*destination, false, true), meta(*authority, true, false)]
            &&& ix.data@ == mint_to_data(amount)
        },
{
    let k = |p: &Pubkey| ChainPubkey::new_from_array(p.bytes);
    match spl_token_2022::instruction::mint_to(&k(token_program), &k(mint), &k(destination), &k(authority), &[], amount) {
        Ok(ix) => Ok(Instruction {
            program_id: Pubkey { bytes: ix.program_id.to_bytes() },
            accounts: ix.accounts.iter().map(|m| AccountMeta { pubkey: Pubkey { bytes: m.pubkey.to_bytes() }, is_signer: m.is_signer, is_writable: m.is_writable }).collect(),
            data: ix.data,
        }),
        Err(_) => Err(AccountError::IncorrectProgramId),
    }
}

/// Calls `spl_token_2022::instruction::close_account` with no multisig
/// signers. As its source shows: it fails with `IncorrectProgramId` unless
/// the program id is one of the two token programs; otherwise the
/// instruction has the closed account and the destination writable, the
/// owner as read-only signer, and the one-byte `CloseAccount` data.
#[verifier::external_body]
pub(crate) fn close_account(token_program: &Pubkey, account: &Pubkey, destination: &Pubkey, owner: &Pubkey) -> (r: Result<Instruction, AccountError>)
    ensures
        r is Ok <==> is_token_program(*token_program),
        r matches Err(e) ==> e == AccountError::IncorrectProgramId,
        r matches Ok(ix) ==> {
            &&& ix.program_id == *token_program
            &&& ix.accounts@ == seq![meta(*account, false, true), meta(*destination, false, true), meta(*owner, true, false)]
            &&& ix.data@ == close_account_data()
        },
{
    let k = |p: &Pubkey| ChainPubkey::new_from_array(p.bytes);
    match spl_token_2022::instruction::close_account(&k(token_program), &k(account), &k(destination), &k(owner), &[]) {
        Ok(ix) => Ok(Instruction {
            program_id: Pubkey { bytes: ix.program_id.to_bytes() },
            accounts: ix.accounts.iter().map(|m| AccountMeta { pubkey: Pubkey { bytes: m.pubkey.to_bytes() }, is_signer: m.is_signer, is_writable: m.is_writable }).collect(),
            data: ix.data,
        }),
        Err(_) => Err(AccountError::IncorrectProgramId),
    }
}

/// Appends the remaining accounts to an instruction, in order, each with its
/// own signer and writable flags, so that the token program can hand them on
/// to the mint's transfer hook.
pub fn forward_remaining_accounts(ix: &mut Instruction, remaining: &Vec<RemainingAccount>)
    ensures
        final(ix).program_id == old(ix).program_id,
        final(ix).data@ == old(ix).data@,
        final(ix).accounts@ == old(ix).accounts@ + forwarded_all(remaining@),
{
    let ghost start = ix.accounts@;
    let mut i: usize = 0;
    while i < remaining.len()
        invariant
            i <= remaining.len(),
            ix.program_id == old(ix).program_id,
            ix.data@ == old(ix).data@,
            ix.accounts@ =~= start + forwarded_all(remaining@.take(i as int)),
        decreases remaining.len() - i,
    {
        let acc = remaining[i];
        let entry = if acc.is_writable {
            AccountMeta { pubkey: acc.key, is_signer: acc.is_signer, is_writable: true }
        } else {
            AccountMeta { pubkey: acc.key, is_signer: acc.is_signer, is_writable: false }
        };
        ix.accounts.push(entry);
        i = i + 1;
        assert(remaining@.take(i as int) =~= remaining@.take(i - 1).push(acc));
        assert(forwarded_all(remaining@.take(i as int)) =~= forwarded_all(remaining@.take(i - 1)).push(forwarded(acc)));
    }
    assert(remaining@.take(remaining.len() as int) =~= remaining@);
}

/// A `TransferChecked` instruction followed by the forwarded remaining
/// accounts, as a transfer through a mint with a transfer hook is sent.
pub open spec fn is_hooked_transfer(
    ix: Instruction,
    token_program: Pubkey,
    source: Pubkey,
    mint: Pubkey,
    destination: Pubkey,
    authority: Pubkey,
    amount: u64,
    decimals: u8,
    remaining: Seq<RemainingAccount>,
) -> bool {
    &&& ix.program_id == token_program
    &&& ix.accounts@ == seq![
        meta(source, false, true),
        meta(mint, false, false),
        meta(destination, false, true),
        meta(authority, true, false),
    ] + forwarded_all(remaining)
    &&& ix.data@ == transfer_checked_data(amount, decimals)
}

/// Builds a `TransferChecked` instruction and appends the remaining accounts
/// for the mint's transfer hook.
pub fn hooked_transfer_checked(
    token_program: &Pubkey,
    source: &Pubkey,
    mint: &Pubkey,
    destination: &Pubkey,
    authority: &Pubkey,
    amount: u64,
    decimals: u8,
    remaining: &Vec<RemainingAccount>,
) -> (r: Result<Instruction, AccountError>)
    ensures
        r is Ok <==> is_token_program(*token_program),
        r matches Err(e) ==> e == AccountError::IncorrectProgramId,
        r matches Ok(ix) ==> is_hooked_transfer(ix, *token_program, *source, *mint, *destination, *authority, amount, decimals, remaining@),
{
    let mut ix = transfer_checked(token_program, source, mint, destination, authority, amount, decimals)?;
    forward_remaining_accounts(&mut ix, remaining);
    Ok(ix)
}

/// The eight little-endian bytes of `x`, as `u64::to_le_bytes` gives them.
pub fn u64_le_bytes(x: u64) -> (r: Vec<u8>)
    ensures
        r@ == le_bytes(x),
{
    let mut out: Vec<u8> = Vec::new();
    let mut rest: u64 = x;
    let mut i: usize = 0;
    assert(pow(256, 0) == 1) by {
        reveal(pow);
    }
    while i < 8
        invariant
            i <= 8,
            rest as int == x as int / pow(256, i as nat),
            out@ == le_bytes(x).take(i as int),
        decreases 8 - i,
    {
        let byte = (rest % 256) as u8;
        proof {
            lemma_pow_positive(256, i as nat);
            lemma_div_denominator(x as int, pow(256, i as nat), 256);
            assert(pow(256, (i + 1) as nat) == 256 * pow(256, i as nat)) by {
                reveal(pow);
            }
            assert(pow(256, i as nat) * 256 == 256 * pow(256, i as nat)) by (nonlinear_arith);
        }
        out.push(byte);
        rest = rest / 256;
        i = i + 1;
        assert(out@ =~= le_bytes(x).take(i as int));
    }
    assert(le_bytes(x).take(8) =~= le_bytes(x));
    out
}

/// An associated-token-account creation instruction: to the associated
/// token program, with the funder (writable signer), the new account
/// (writable), the wallet, the mint, the system program and the token
/// program (read-only), and the one-byte data `kind` (0 create, 1 create if
/// missing).
pub open spec fn is_ata_creation(ix: Instruction, funder: Pubkey, wallet: Pubkey, mint: Pubkey, token_program: Pubkey, kind: u8) -> bool {
    &&& ix.program_id.bytes@ == ASSOCIATED_TOKEN_PROGRAM_ID@
    &&& ix.accounts@.len() == 6
    &&& ix.accounts@[0] == meta(funder, true, true)
    &&& Some(ix.accounts@[1].pubkey.bytes@) == spec_associated_token_address(wallet, mint, token_program)
    &&& !ix.accounts@[1].is_signer && ix.accounts@[1].is_writable
    &&& ix.accounts@[2] == meta(wallet, false, false)
    &&& ix.accounts@[3] == meta(mint, false, false)
    &&& ix.accounts@[4].pubkey.bytes@ == SYSTEM_PROGRAM_ID@ && !ix.accounts@[4].is_signer && !ix.accounts@[4].is_writable
    &&& ix.accounts@[5] == meta(token_program, false, false)
    &&& ix.data@ == seq![kind]
}

/// Calls `create_associated_token_account` of the associated token account
/// interface. As its source shows, the instruction is the one
/// `is_ata_creation` describes with data `[0]`; deriving the new account's
/// address panics where no bump works, so `requires` leaves that out.
#[verifier::external_body]
pub(crate) fn create_associated_token_account(funder: &Pubkey, wallet: &Pubkey, mint: &Pubkey, token_program: &Pubkey) -> (r: Instruction)
    requires
        spec_associated_token_address(*wallet, *mint, *token_program) is Some,
    ensures
        is_ata_creation(r, *funder, *wallet, *mint, *token_program, 0),
{
    let k = |p: &Pubkey| ChainPubkey::new_from_array(p.bytes);
    let ix = anchor_spl::associated_token::spl_associated_token_account::instruction::create_associated_token_account(&k(funder), &k(wallet), &k(mint), &k(token_program));
    Instruction {
        program_id: Pubkey { bytes: ix.program_id.to_bytes() },
        accounts: ix.accounts.iter().map(|m| AccountMeta { pubkey: Pubkey { bytes: m.pubkey.to_bytes() }, is_signer: m.is_signer, is_writable: m.is_writable }).collect(),
        data: ix.data,
    }
}

/// Calls `create_associated_token_account_idempotent` of the associated
/// token account interface. As its source shows, the instruction is the one
/// `is_ata_creation` describes with data `[1]`; deriving the new account's
/// address panics where no bump works, so `requires` leaves that out.
#[verifier::external_body]
pub(crate) fn create_associated_token_account_idempotent(funder: &Pubkey, wallet: &Pubkey, mint: &Pubkey, token_program: &Pubkey) -> (r: Instruction)
    requires
        spec_associated_token_address(*wallet, *mint, *token_program) is Some,
    ensures
        is_ata_creation(r, *funder, *wallet, *mint, *token_program, 1),
{
    let k = |p: &Pubkey| ChainPubkey::new_from_array(p.bytes);
    let ix = anchor_spl::associated_token::spl_associated_token_account::instruction::create_associated_token_account_idempotent(&k(funder), &k(wallet), &k(mint), &k(token_program));
    Instruction {
        program_id: Pubkey { bytes: ix.program_id.to_bytes() },
        accounts: ix.accounts.iter().map(|m| AccountMeta { pubkey: Pubkey { bytes: m.pubkey.to_bytes() }, is_signer: m.is_signer, is_writable: m.is_writable }).collect(),
        data: ix.data,
    }
}

/// A length as four little-endian bytes.
pub open spec fn u32_le(n: nat) -> Seq<u8> {
    seq![(n % 0x100) as u8, (n / 0x100 % 0x100) as u8, (n / 0x1_0000 % 0x100) as u8, (n / 0x100_0000 % 0x100) as u8]
}

} // verus!
