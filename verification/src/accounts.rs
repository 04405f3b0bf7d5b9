//! The account checks that the programs declare on their instruction
//! accounts (seeds, token mint and authority, associated token addresses),
//! the failures they raise, and plain views of the token accounts and mints
//! that the checks read.
use vstd::prelude::*;
use crate::pubkey::{Pubkey, is_token_program, TOKEN_PROGRAM_ID, TOKEN_2022_PROGRAM_ID, SYSTEM_PROGRAM_ID};
use anchor_lang::AccountDeserialize;
use anchor_spl::token_interface::TokenAccount as ChainTokenAccount;
use crate::pda::{
    create_program_address, derived_address, find_program_address, canonical_address, seeds_view,
    spec_associated_token_address, associated_token_address, ata_seeds,
};

verus! {

/// Failures raised by the account checks, named as the framework names them.
#[derive(Clone, Copy, Debug, PartialEq, Eq, Structural)]
pub enum AccountError {
    /// A program account that must exist does not.
    AccountNotInitialized,
    /// An account that an instruction creates exists already.
    AccountAlreadyInUse,
    /// An account's address is not the address derived from its seeds.
    ConstraintSeeds,
    /// A plain `constraint = ..` without a custom error failed.
    ConstraintRaw,
    /// An account is not at the address the instruction fixes for it.
    ConstraintAddress,
    /// A `has_one` field of an account does not name the expected account.
    ConstraintHasOne,
    /// A token account is not at its associated token address.
    ConstraintAssociated,
    /// A token account belongs to another mint.
    ConstraintTokenMint,
    /// A token account belongs to another authority.
    ConstraintTokenOwner,
    /// An associated token account is owned by another token program.
    ConstraintAssociatedTokenTokenProgram,
    /// An account is not the associated token account it stands for.
    AccountNotAssociatedTokenAccount,
    /// Account data is not laid out as the instruction needs.
    InvalidAccountData,
    /// The program id given to a token instruction is not a token program.
    IncorrectProgramId,
    /// No bump gives an address off the curve for the seeds; the address
    /// search panics here.
    NoViableBump,
    /// An account that must sign the transaction did not.
    AccountNotSigner,
    /// An account declared `mut` was not passed writable.
    ConstraintMut,
    /// One account was passed for two mutable fields.
    ConstraintDuplicateMutableAccount,
    /// A program account is not the program the instruction names.
    InvalidProgramId,
    /// A token account or mint is not owned by a token program.
    AccountOwnedByWrongProgram,
    /// A call into another program asked for an account as writable that
    /// the instruction did not pass writable.
    PrivilegeEscalation,
    /// A call into another program names an account that the instruction
    /// did not pass.
    MissingAccount,
    /// An account is to be closed into itself.
    ConstraintClose,
    /// A lamport balance would overflow.
    ArithmeticOverflow,
    /// A program account's data does not start with its type's
    /// discriminator.
    AccountDiscriminatorMismatch,
    /// A call into another program, or an unpack of account data, failed
    /// with this program error code.
    Failed(u64),
}

/// Why an instruction was refused: a program's own error, or a failed
/// account check.
#[derive(Clone, Copy, Debug, PartialEq, Eq, Structural)]
pub enum Rejection<E> {
    Program(E),
    Account(AccountError),
}

/// A token account as the programs read it: its address, the program that
/// owns it, whether it was passed writable, and its mint, owner and amount.
#[derive(Clone, Copy, Debug)]
pub struct TokenAccount {
    pub key: Pubkey,
    pub owner_program: Pubkey,
    pub is_writable: bool,
    pub mint: Pubkey,
    pub owner: Pubkey,
    pub amount: u64,
}

/// A mint as the programs read it: its address, the program that owns it,
/// whether it was passed writable, its decimals and its mint authority.
#[derive(Clone, Copy, Debug)]
pub struct Mint {
    pub key: Pubkey,
    pub owner_program: Pubkey,
    pub is_writable: bool,
    pub decimals: u8,
    pub mint_authority: Option<Pubkey>,
}

/// An account that a program owns and reads as a `T`: its address, the
/// program that owns it, its lamports, whether it was passed writable, and
/// its contents where its data holds an account of that type (`None` where
/// it does not, as once it is closed).
#[derive(Clone, Copy, Debug)]
pub struct ProgramAccount<T> {
    pub key: Pubkey,
    pub owner: Pubkey,
    pub lamports: u64,
    pub is_writable: bool,
    pub data: Option<T>,
}

/// An account passed as a signer: its address, whether it signed, and
/// whether it was passed writable.
#[derive(Clone, Copy, Debug)]
pub struct Signer {
    pub key: Pubkey,
    pub is_signer: bool,
    pub is_writable: bool,
}

/// An account the instruction reads only by address: its address and
/// whether it was passed writable.
#[derive(Clone, Copy, Debug)]
pub struct KeyedAccount {
    pub key: Pubkey,
    pub is_writable: bool,
}

/// Reading a program account as a `T` of `program_id`: an account the
/// system program owns with no lamports does not exist; one another program
/// owns is refused; one whose data does not hold a `T` is refused.
pub open spec fn spec_check_account<T>(account: ProgramAccount<T>, program_id: Pubkey) -> Result<(), AccountError> {
    if account.owner.bytes@ == SYSTEM_PROGRAM_ID@ && account.lamports == 0 {
        Err(AccountError::AccountNotInitialized)
    } else if account.owner != program_id {
        Err(AccountError::AccountOwnedByWrongProgram)
    } else if account.data is None {
        Err(AccountError::AccountDiscriminatorMismatch)
    } else {
        Ok(())
    }
}

pub fn check_account<T>(account: &ProgramAccount<T>, program_id: &Pubkey) -> (r: Result<(), AccountError>)
    ensures
        r == spec_check_account(*account, *program_id),
        r is Ok ==> account.data is Some,
{
    let system = Pubkey::new(SYSTEM_PROGRAM_ID);
    proof {
        if account.owner.bytes@ == SYSTEM_PROGRAM_ID@ { assert(account.owner.bytes =~= system.bytes); }
    }
    if account.owner.equals(&system) && account.lamports == 0 {
        Err(AccountError::AccountNotInitialized)
    } else if !account.owner.equals(program_id) {
        Err(AccountError::AccountOwnedByWrongProgram)
    } else if account.data.is_none() {
        Err(AccountError::AccountDiscriminatorMismatch)
    } else {
        Ok(())
    }
}

/// An account that an instruction creates is in use where a program other
/// than the system program owns it or it holds data; creating it then fails.
pub open spec fn account_in_use<T>(account: ProgramAccount<T>) -> bool {
    account.owner.bytes@ != SYSTEM_PROGRAM_ID@ || account.data is Some
}

pub fn check_in_use<T>(account: &ProgramAccount<T>) -> (r: bool)
    ensures
        r == account_in_use(*account),
{
    let system = Pubkey::new(SYSTEM_PROGRAM_ID);
    proof {
        if account.owner.bytes@ == SYSTEM_PROGRAM_ID@ { assert(account.owner.bytes =~= system.bytes); }
    }
    !account.owner.equals(&system) || account.data.is_some()
}

/// A `mut` constraint: the account must have been passed writable.
pub open spec fn spec_check_mut(is_writable: bool) -> Result<(), AccountError> {
    if is_writable { Ok(()) } else { Err(AccountError::ConstraintMut) }
}

/// A program account's check: the account must be the program with id `id`.
pub open spec fn spec_check_program(key: Pubkey, id: Seq<u8>) -> Result<(), AccountError> {
    if key.bytes@ == id { Ok(()) } else { Err(AccountError::InvalidProgramId) }
}

pub fn check_program(key: &Pubkey, id: [u8; 32]) -> (r: Result<(), AccountError>)
    ensures
        r == spec_check_program(*key, id@),
{
    let expected = Pubkey::new(id);
    if key.equals(&expected) {
        Ok(())
    } else {
        proof { if key.bytes@ == id@ { assert(key.bytes =~= expected.bytes); } }
        Err(AccountError::InvalidProgramId)
    }
}

/// Whether `key` is one of the two token programs.
pub fn token_program_key(key: &Pubkey) -> (r: bool)
    ensures
        r == is_token_program(*key),
{
    let classic = Pubkey::new(TOKEN_PROGRAM_ID);
    let extended = Pubkey::new(TOKEN_2022_PROGRAM_ID);
    proof {
        if key.bytes@ == TOKEN_PROGRAM_ID@ { assert(key.bytes =~= classic.bytes); }
        if key.bytes@ == TOKEN_2022_PROGRAM_ID@ { assert(key.bytes =~= extended.bytes); }
    }
    key.equals(&classic) || key.equals(&extended)
}

/// A token-interface program account's check: it must be a token program.
pub open spec fn spec_check_token_interface(key: Pubkey) -> Result<(), AccountError> {
    if is_token_program(key) { Ok(()) } else { Err(AccountError::InvalidProgramId) }
}

pub fn check_token_interface(key: &Pubkey) -> (r: Result<(), AccountError>)
    ensures
        r == spec_check_token_interface(*key),
{
    if token_program_key(key) { Ok(()) } else { Err(AccountError::InvalidProgramId) }
}

/// A token-interface account's owner check: a token account or mint must be
/// owned by a token program.
pub open spec fn spec_check_interface_owner(owner_program: Pubkey) -> Result<(), AccountError> {
    if is_token_program(owner_program) { Ok(()) } else { Err(AccountError::AccountOwnedByWrongProgram) }
}

pub fn check_interface_owner(owner_program: &Pubkey) -> (r: Result<(), AccountError>)
    ensures
        r == spec_check_interface_owner(*owner_program),
{
    if token_program_key(owner_program) { Ok(()) } else { Err(AccountError::AccountOwnedByWrongProgram) }
}

/// No two of the accounts passed for mutable program-owned fields are the
/// same account.
pub open spec fn distinct_keys(keys: Seq<Pubkey>) -> bool {
    forall|i: int, j: int| 0 <= i < j < keys.len() ==> keys[i] != keys[j]
}

/// The check on duplicate mutable accounts.
pub open spec fn spec_check_distinct(keys: Seq<Pubkey>) -> Result<(), AccountError> {
    if distinct_keys(keys) { Ok(()) } else { Err(AccountError::ConstraintDuplicateMutableAccount) }
}

pub fn check_distinct(keys: &Vec<Pubkey>) -> (r: Result<(), AccountError>)
    ensures
        r == spec_check_distinct(keys@),
{
    let mut j: usize = 1;
    while j < keys.len()
        invariant
            1 <= j,
            j <= keys.len() || keys.len() == 0,
            forall|a: int, b: int| 0 <= a < b < j && b < keys.len() ==> keys@[a] != keys@[b],
        decreases keys.len() - j,
    {
        let mut i: usize = 0;
        while i < j
            invariant
                i <= j,
                j < keys.len(),
                forall|a: int| 0 <= a < i ==> keys@[a] != keys@[j as int],
            decreases j - i,
        {
            if keys[i].equals(&keys[j]) {
                return Err(AccountError::ConstraintDuplicateMutableAccount);
            }
            i = i + 1;
        }
        j = j + 1;
    }
    Ok(())
}

/// A signer check: the account must have signed.
pub fn check_signer(signer: &Signer) -> (r: Result<(), AccountError>)
    ensures
        r is Ok <==> signer.is_signer,
        r matches Err(e) ==> e == AccountError::AccountNotSigner,
{
    if signer.is_signer { Ok(()) } else { Err(AccountError::AccountNotSigner) }
}

/// An account that an instruction creates: who pays its rent, its address,
/// its size, the program that will own it, and the seeds it is created with.
#[derive(Debug)]
pub struct AccountCreation {
    pub payer: Pubkey,
    pub account: Pubkey,
    pub space: usize,
    pub owner: Pubkey,
    pub signer_seeds: Vec<Vec<u8>>,
}

/// Closes a program account into `destination`: all its lamports move to
/// the destination, the system program owns it again and its data is gone.
/// An account cannot be closed into
/// itself, and the destination's balance must not overflow; either failure
/// changes nothing.
pub fn close_program_account<T>(account: &mut ProgramAccount<T>, destination: &Pubkey, destination_lamports: &mut u64) -> (r: Result<(), AccountError>)
    ensures
        old(account).key == *destination ==> r == Err::<(), AccountError>(AccountError::ConstraintClose),
        old(account).key != *destination && *old(destination_lamports) + old(account).lamports > u64::MAX
            ==> r == Err::<(), AccountError>(AccountError::ArithmeticOverflow),
        old(account).key != *destination && *old(destination_lamports) + old(account).lamports <= u64::MAX ==> r is Ok,
        r is Err ==> *final(account) == *old(account) && *final(destination_lamports) == *old(destination_lamports),
        r is Ok ==> {
            &&& final(account).key == old(account).key
            &&& final(account).lamports == 0
            &&& final(account).owner.bytes@ == SYSTEM_PROGRAM_ID@
            &&& final(account).is_writable == old(account).is_writable
            &&& final(account).data is None
            &&& *final(destination_lamports) == *old(destination_lamports) + old(account).lamports
        },
{
    if account.key.equals(destination) {
        return Err(AccountError::ConstraintClose);
    }
    match destination_lamports.checked_add(account.lamports) {
        None => Err(AccountError::ArithmeticOverflow),
        Some(total) => {
            *destination_lamports = total;
            account.lamports = 0;
            account.owner = Pubkey::new(SYSTEM_PROGRAM_ID);
            account.data = None;
            Ok(())
        },
    }
}

/// The seeds followed by a one-byte bump seed.
pub open spec fn seeds_with_bump(seeds: Seq<Seq<u8>>, bump: u8) -> Seq<Seq<u8>> {
    seeds.push(seq![bump])
}

/// `key` is the address derived from `seeds` and `bump` under `program_id`.
pub open spec fn seeds_match(key: Pubkey, seeds: Seq<Seq<u8>>, bump: u8, program_id: Pubkey) -> bool {
    derived_address(seeds_with_bump(seeds, bump), program_id.bytes@) == Some(key.bytes@)
}

/// What a seeds constraint with a stored bump gives.
pub open spec fn spec_check_seeds_with_bump(key: Pubkey, seeds: Seq<Seq<u8>>, bump: u8, program_id: Pubkey) -> Result<(), AccountError> {
    if seeds_match(key, seeds, bump, program_id) { Ok(()) } else { Err(AccountError::ConstraintSeeds) }
}

/// What a seeds constraint without a stored bump gives: the bump found, or
/// why the account's address is refused.
pub open spec fn spec_check_canonical_seeds(key: Pubkey, seeds: Seq<Seq<u8>>, program_id: Pubkey) -> Result<u8, AccountError> {
    match canonical_address(seeds, program_id.bytes@) {
        None => Err(AccountError::NoViableBump),
        Some(found) => if found.0 == key.bytes@ { Ok(found.1) } else { Err(AccountError::ConstraintSeeds) },
    }
}

/// A copy of a byte string.
pub fn copy_bytes(v: &Vec<u8>) -> (r: Vec<u8>)
    ensures
        r@ == v@,
{
    let r = v.clone();
    assert(r@ =~= v@);
    r
}

/// A copy of a list of seeds.
pub fn copy_seeds(seeds: &Vec<Vec<u8>>) -> (r: Vec<Vec<u8>>)
    ensures
        seeds_view(r@) == seeds_view(seeds@),
{
    let mut out: Vec<Vec<u8>> = Vec::new();
    let mut i: usize = 0;
    while i < seeds.len()
        invariant
            i <= seeds.len(),
            out@.len() == i,
            forall|j: int| 0 <= j < i ==> #[trigger] out@[j]@ == seeds@[j]@,
        decreases seeds.len() - i,
    {
        out.push(copy_bytes(&seeds[i]));
        i = i + 1;
    }
    assert(seeds_view(out@) =~= seeds_view(seeds@));
    out
}

/// A seeds constraint with a stored bump: the account's address must be the
/// one derived from the seeds and the bump.
pub fn check_seeds_with_bump(key: &Pubkey, seeds: &Vec<Vec<u8>>, bump: u8, program_id: &Pubkey) -> (r: Result<(), AccountError>)
    ensures
        r == spec_check_seeds_with_bump(*key, seeds_view(seeds@), bump, *program_id),
{
    let mut full = copy_seeds(seeds);
    let mut bump_seed: Vec<u8> = Vec::new();
    bump_seed.push(bump);
    full.push(bump_seed);
    assert(seeds_view(full@) =~= seeds_with_bump(seeds_view(seeds@), bump));
    match create_program_address(&full, program_id) {
        None => Err(AccountError::ConstraintSeeds),
        Some(derived) => {
            if derived.equals(key) {
                Ok(())
            } else {
                proof {
                    if seeds_match(*key, seeds_view(seeds@), bump, *program_id) {
                        assert(derived.bytes =~= key.bytes);
                    }
                }
                Err(AccountError::ConstraintSeeds)
            }
        },
    }
}

/// A seeds constraint without a stored bump: the account's address must be
/// the one found for the seeds; gives the bump found.
pub fn check_canonical_seeds(key: &Pubkey, seeds: &Vec<Vec<u8>>, program_id: &Pubkey) -> (r: Result<u8, AccountError>)
    ensures
        r == spec_check_canonical_seeds(*key, seeds_view(seeds@), *program_id),
        r matches Ok(bump) ==> seeds_match(*key, seeds_view(seeds@), bump, *program_id),
{
    match find_program_address(seeds, program_id) {
        None => Err(AccountError::NoViableBump),
        Some(found) => {
            let (derived, bump) = found;
            if derived.equals(key) {
                Ok(bump)
            } else {
                proof {
                    if derived.bytes@ == key.bytes@ {
                        assert(derived.bytes =~= key.bytes);
                    }
                }
                Err(AccountError::ConstraintSeeds)
            }
        },
    }
}

/// What `token::mint = mint, token::authority = authority` gives.
pub open spec fn spec_check_token_account(account: TokenAccount, mint: Pubkey, authority: Pubkey) -> Result<(), AccountError> {
    if account.mint != mint {
        Err(AccountError::ConstraintTokenMint)
    } else if account.owner != authority {
        Err(AccountError::ConstraintTokenOwner)
    } else {
        Ok(())
    }
}

/// The `token::mint` and `token::authority` constraints, in that order.
pub fn check_token_account(account: &TokenAccount, mint: &Pubkey, authority: &Pubkey) -> (r: Result<(), AccountError>)
    ensures
        r == spec_check_token_account(*account, *mint, *authority),
{
    if !account.mint.equals(mint) {
        Err(AccountError::ConstraintTokenMint)
    } else if !account.owner.equals(authority) {
        Err(AccountError::ConstraintTokenOwner)
    } else {
        Ok(())
    }
}

/// The mint and owner of token account data, or the program error code with
/// which unpacking it fails.
pub uninterp spec fn unpacked_token_account(data: Seq<u8>) -> Result<(Seq<u8>, Seq<u8>), u64>;

/// Calls `TokenAccount::try_deserialize_unchecked` of `anchor_spl`'s token
/// interface (a token-2022 account unpack). Claims only that the mint and
/// owner it reads, or the code of the error it fails with, are
/// `unpacked_token_account` of the data.
#[verifier::external_body]
pub(crate) fn read_token_account(data: &Vec<u8>) -> (r: Result<(Pubkey, Pubkey), u64>)
    ensures
        match r {
            Ok(found) => unpacked_token_account(data@) == Ok::<(Seq<u8>, Seq<u8>), u64>((found.0.bytes@, found.1.bytes@)),
            Err(code) => unpacked_token_account(data@) == Err::<(Seq<u8>, Seq<u8>), u64>(code),
        },
{
    match ChainTokenAccount::try_deserialize_unchecked(&mut data.as_slice()) {
        Ok(account) => Ok((Pubkey { bytes: account.mint.to_bytes() }, Pubkey { bytes: account.owner.to_bytes() })),
        Err(anchor_lang::error::Error::ProgramError(e)) => Err(u64::from(e.program_error)),
        Err(anchor_lang::error::Error::AnchorError(e)) => Err(e.error_code_number as u64),
    }
}

/// The associated token address of `wallet` for `mint` under
/// `token_program`, where one exists: the address search is tried first, so
/// that the derivation is only asked for where it does not panic.
pub fn checked_associated_address(wallet: &Pubkey, mint: &Pubkey, token_program: &Pubkey) -> (r: Option<Pubkey>)
    ensures
        match r {
            Some(k) => spec_associated_token_address(*wallet, *mint, *token_program) == Some(k.bytes@),
            None => spec_associated_token_address(*wallet, *mint, *token_program) is None,
        },
{
    let mut seeds: Vec<Vec<u8>> = Vec::new();
    seeds.push(wallet.to_seed());
    seeds.push(token_program.to_seed());
    seeds.push(mint.to_seed());
    assert(seeds_view(seeds@) =~= ata_seeds(*wallet, *mint, *token_program));
    let ata_program = Pubkey::new(crate::pubkey::ASSOCIATED_TOKEN_PROGRAM_ID);
    match find_program_address(&seeds, &ata_program) {
        None => None,
        Some(_) => Some(associated_token_address(wallet, mint, token_program)),
    }
}

} // verus!
