//! The token vault program: an admin whitelists users, mints tokens to
//! whitelisted users, and whitelisted users deposit tokens into the vault and
//! withdraw what they deposited. Each entry point checks its accounts as the
//! program declares them, then decides the state change or the token
//! instruction to run.
use vstd::prelude::*;
use crate::pubkey::{Pubkey, is_token_program, ASSOCIATED_TOKEN_PROGRAM_ID, SYSTEM_PROGRAM_ID};
use crate::pda::spec_associated_token_address;
use crate::pda::{seeds_view, derived_address};
use crate::accounts::{
    distinct_keys,
    AccountError, Rejection, ProgramAccount, TokenAccount, Mint, Signer, KeyedAccount, AccountCreation,
    seeds_match, seeds_with_bump, spec_check_canonical_seeds, spec_check_token_account,
    check_seeds_with_bump, check_canonical_seeds, check_token_account, close_program_account,
    checked_associated_address, unpacked_token_account, read_token_account, token_program_key,
    spec_check_account, check_account, account_in_use, check_in_use,
    spec_check_program, check_program, spec_check_token_interface, check_token_interface,
    spec_check_interface_owner, check_interface_owner, spec_check_distinct, check_distinct,
};
use crate::cpi::{
    Instruction, RemainingAccount, is_hooked_transfer, hooked_transfer_checked, mint_to, meta,
    mint_to_data, is_ata_creation, create_associated_token_account,
};

verus! {

/// The vault's configuration account.
#[derive(Clone, Copy, Debug)]
pub struct Vault {
    pub admin: Pubkey,
    pub mint: Pubkey,
    pub bump: u8,
}

/// A user's whitelist entry, holding what the user has deposited.
#[derive(Clone, Copy, Debug)]
pub struct WhitelistEntry {
    pub user: Pubkey,
    pub amount: u64,
    pub bump: u8,
}

impl WhitelistEntry {
    /// Account size: discriminator, user, amount, bump.
    pub const SPACE: usize = 49;
}

/// The vault program's own errors.
#[derive(Clone, Copy, Debug, PartialEq, Eq, Structural)]
pub enum ErrorCode {
    NotWhitelisted,
    NotTransferring,
    UnauthorizedAdmin,
    InsufficientDeposit,
}

/// The seed `b"vault"`.
pub open spec fn vault_seed() -> Seq<u8> {
    seq![118u8, 97u8, 117u8, 108u8, 116u8]
}

/// The seed `b"whitelist"`.
pub open spec fn whitelist_seed() -> Seq<u8> {
    seq![119u8, 104u8, 105u8, 116u8, 101u8, 108u8, 105u8, 115u8, 116u8]
}

/// The vault's seeds: `[b"vault"]`.
pub open spec fn vault_seeds() -> Seq<Seq<u8>> {
    seq![vault_seed()]
}

/// A user's whitelist entry seeds: `[b"whitelist", user]`.
pub open spec fn whitelist_seeds(user: Pubkey) -> Seq<Seq<u8>> {
    seq![whitelist_seed(), user.bytes@]
}

/// Builds `[b"vault"]`.
pub fn make_vault_seeds() -> (r: Vec<Vec<u8>>)
    ensures
        seeds_view(r@) == vault_seeds(),
        r@.len() == 1,
{
    let mut seed: Vec<u8> = Vec::new();
    seed.push(118u8);
    seed.push(97u8);
    seed.push(117u8);
    seed.push(108u8);
    seed.push(116u8);
    assert(seed@ =~= vault_seed());
    let mut r: Vec<Vec<u8>> = Vec::new();
    r.push(seed);
    assert(seeds_view(r@)[0] == vault_seed());
    assert(seeds_view(r@) =~= vault_seeds());
    r
}

/// Builds `[b"whitelist", user]`.
pub fn make_whitelist_seeds(user: &Pubkey) -> (r: Vec<Vec<u8>>)
    ensures
        seeds_view(r@) == whitelist_seeds(*user),
{
    let mut seed: Vec<u8> = Vec::new();
    seed.push(119u8);
    seed.push(104u8);
    seed.push(105u8);
    seed.push(116u8);
    seed.push(101u8);
    seed.push(108u8);
    seed.push(105u8);
    seed.push(115u8);
    seed.push(116u8);
    assert(seed@ =~= whitelist_seed());
    let key_seed = user.to_seed();
    let mut r: Vec<Vec<u8>> = Vec::new();
    r.push(seed);
    r.push(key_seed);
    assert(seeds_view(r@)[0] == whitelist_seed());
    assert(seeds_view(r@)[1] == user.bytes@);
    assert(seeds_view(r@) =~= whitelist_seeds(*user));
    r
}

/// Builds the vault's signer seeds `[b"vault", [bump]]`.
pub fn make_vault_signer_seeds(bump: u8) -> (r: Vec<Vec<u8>>)
    ensures
        seeds_view(r@) == seeds_with_bump(vault_seeds(), bump),
{
    let mut r = make_vault_seeds();
    let mut b: Vec<u8> = Vec::new();
    b.push(bump);
    assert(b@ =~= seq![bump]);
    r.push(b);
    assert(seeds_view(r@)[1] == seq![bump]);
    assert(seeds_view(r@) =~= seeds_with_bump(vault_seeds(), bump));
    r
}

pub open spec fn account_failure<E>(r: Result<(), AccountError>) -> Result<(), Rejection<E>> {
    match r {
        Ok(()) => Ok(()),
        Err(e) => Err(Rejection::Account(e)),
    }
}

/// An instruction for another program together with the seeds the vault
/// signs it with.
#[derive(Debug)]
pub struct SignedInstruction {
    pub instruction: Instruction,
    pub signer_seeds: Vec<Vec<u8>>,
}

// ---------------------------------------------------------------- initialize

/// The bumps found while checking `InitializeVault`'s accounts.
#[derive(Clone, Copy, Debug)]
pub struct InitializeVaultBumps {
    pub vault: u8,
}

/// Accounts of `initialize_vault`: the admin pays; the vault and its
/// associated token account for the mint are created.
#[derive(Clone, Copy, Debug)]
pub struct InitializeVault {
    pub admin: Signer,
    pub vault: ProgramAccount<Vault>,
    pub mint: Mint,
    pub vault_token_account: KeyedAccount,
    pub token_program: Pubkey,
    pub associated_token_program: Pubkey,
    pub system_program: Pubkey,
}

/// Builds `[b"vault", [bump]]` or `[b"whitelist", user, [bump]]` style seeds:
/// the given seeds followed by the bump.
fn with_bump(seeds: Vec<Vec<u8>>, bump: u8) -> (r: Vec<Vec<u8>>)
    ensures
        seeds_view(r@) == seeds_with_bump(seeds_view(seeds@), bump),
{
    let mut r = seeds;
    let ghost before = r@;
    let mut b: Vec<u8> = Vec::new();
    b.push(bump);
    assert(b@ =~= seq![bump]);
    r.push(b);
    assert(seeds_view(r@) =~= seeds_with_bump(seeds_view(before), bump));
    r
}

/// What `initialize_vault` sets up: the bump found for the vault, the
/// creation of the vault account, and the instruction that creates its token
/// account.
#[derive(Debug)]
pub struct VaultSetup {
    pub bumps: InitializeVaultBumps,
    pub vault_creation: AccountCreation,
    pub token_account_creation: Instruction,
}

impl Vault {
    /// Account size: discriminator, admin, mint, bump.
    pub const SPACE: usize = 73;
}

impl InitializeVault {
    /// The checks made before the two accounts are created, in the
    /// framework's order. The admin must sign; the mint must be owned by a
    /// token program; the three program accounts must be the token program,
    /// the associated token program and the system program. The vault must
    /// be at the address found for `[b"vault"]`; creating it needs the admin
    /// and the vault passed writable, and fails where the vault exists. The
    /// token account's creation names the vault's associated address, which
    /// must be the account passed, writable.
    pub open spec fn spec_validate(self, program_id: Pubkey) -> Result<InitializeVaultBumps, Rejection<ErrorCode>> {
        if !self.admin.is_signer {
            Err(Rejection::Account(AccountError::AccountNotSigner))
        } else if spec_check_interface_owner(self.mint.owner_program) is Err {
            Err(Rejection::Account(AccountError::AccountOwnedByWrongProgram))
        } else if spec_check_token_interface(self.token_program) is Err
            || spec_check_program(self.associated_token_program, ASSOCIATED_TOKEN_PROGRAM_ID@) is Err
            || spec_check_program(self.system_program, SYSTEM_PROGRAM_ID@) is Err {
            Err(Rejection::Account(AccountError::InvalidProgramId))
        } else {
            match spec_check_canonical_seeds(self.vault.key, vault_seeds(), program_id) {
                Err(e) => Err(Rejection::Account(e)),
                Ok(bump) => if !self.admin.is_writable || !self.vault.is_writable {
                    Err(Rejection::Account(AccountError::PrivilegeEscalation))
                } else if account_in_use(self.vault) {
                    Err(Rejection::Account(AccountError::AccountAlreadyInUse))
                } else {
                    match spec_associated_token_address(self.vault.key, self.mint.key, self.token_program) {
                        None => Err(Rejection::Account(AccountError::NoViableBump)),
                        Some(expected) => if self.vault_token_account.key.bytes@ != expected {
                            Err(Rejection::Account(AccountError::MissingAccount))
                        } else if !self.vault_token_account.is_writable {
                            Err(Rejection::Account(AccountError::PrivilegeEscalation))
                        } else {
                            Ok(InitializeVaultBumps { vault: bump })
                        },
                    }
                },
            }
        }
    }

    pub fn validate(&self, program_id: &Pubkey) -> (r: Result<InitializeVaultBumps, Rejection<ErrorCode>>)
        ensures
            r == self.spec_validate(*program_id),
            r matches Ok(b) ==> seeds_match(self.vault.key, vault_seeds(), b.vault, *program_id),
    {
        if !self.admin.is_signer {
            return Err(Rejection::Account(AccountError::AccountNotSigner));
        }
        if check_interface_owner(&self.mint.owner_program).is_err() {
            return Err(Rejection::Account(AccountError::AccountOwnedByWrongProgram));
        }
        if check_token_interface(&self.token_program).is_err()
            || check_program(&self.associated_token_program, ASSOCIATED_TOKEN_PROGRAM_ID).is_err()
            || check_program(&self.system_program, SYSTEM_PROGRAM_ID).is_err() {
            return Err(Rejection::Account(AccountError::InvalidProgramId));
        }
        let seeds = make_vault_seeds();
        let bump = match check_canonical_seeds(&self.vault.key, &seeds, program_id) {
            Err(e) => { return Err(Rejection::Account(e)); },
            Ok(b) => b,
        };
        if !self.admin.is_writable || !self.vault.is_writable {
            return Err(Rejection::Account(AccountError::PrivilegeEscalation));
        }
        if check_in_use(&self.vault) {
            return Err(Rejection::Account(AccountError::AccountAlreadyInUse));
        }
        match checked_associated_address(&self.vault.key, &self.mint.key, &self.token_program) {
            None => Err(Rejection::Account(AccountError::NoViableBump)),
            Some(expected) => if !self.vault_token_account.key.equals(&expected) {
                proof {
                    if self.vault_token_account.key.bytes@ == expected.bytes@ {
                        assert(self.vault_token_account.key.bytes =~= expected.bytes);
                    }
                }
                Err(Rejection::Account(AccountError::MissingAccount))
            } else if !self.vault_token_account.is_writable {
                Err(Rejection::Account(AccountError::PrivilegeEscalation))
            } else {
                Ok(InitializeVaultBumps { vault: bump })
            },
        }
    }

    /// Records the admin, the mint and the vault's bump.
    pub fn handler(&self, bumps: &InitializeVaultBumps) -> (r: Vault)
        ensures
            r == (Vault { admin: self.admin.key, mint: self.mint.key, bump: bumps.vault }),
    {
        Vault { admin: self.admin.key, mint: self.mint.key, bump: bumps.vault }
    }

    /// The admin pays for the vault account, created at its address with the
    /// vault's size and owned by the program, signed with `[b"vault", [bump]]`;
    /// then for the vault's associated token account, created by the
    /// associated token program.
    pub fn creations(&self, program_id: &Pubkey, bumps: &InitializeVaultBumps) -> (r: (AccountCreation, Instruction))
        requires
            spec_associated_token_address(self.vault.key, self.mint.key, self.token_program) is Some,
        ensures
            r.0.payer == self.admin.key,
            r.0.account == self.vault.key,
            r.0.space == Vault::SPACE,
            r.0.owner == *program_id,
            seeds_view(r.0.signer_seeds@) == seeds_with_bump(vault_seeds(), bumps.vault),
            is_ata_creation(r.1, self.admin.key, self.vault.key, self.mint.key, self.token_program, 0),
    {
        let creation = AccountCreation {
            payer: self.admin.key,
            account: self.vault.key,
            space: Vault::SPACE,
            owner: *program_id,
            signer_seeds: make_vault_signer_seeds(bumps.vault),
        };
        let token_account = create_associated_token_account(&self.admin.key, &self.vault.key, &self.mint.key, &self.token_program);
        (creation, token_account)
    }

    /// What reading the new token account gives: the creation's outcome,
    /// then the account must be owned by a token program and hold a token
    /// account.
    pub open spec fn spec_check_vault_token_account(created: Result<(), u64>, owner_program: Pubkey, data: Seq<u8>) -> Result<(), Rejection<ErrorCode>> {
        match created {
            Err(code) => Err(Rejection::Account(AccountError::Failed(code))),
            Ok(()) => if !is_token_program(owner_program) {
                Err(Rejection::Account(AccountError::AccountOwnedByWrongProgram))
            } else {
                match unpacked_token_account(data) {
                    Err(code) => Err(Rejection::Account(AccountError::Failed(code))),
                    Ok(_) => Ok(()),
                }
            },
        }
    }

    /// After the token account's creation has run: its outcome, then the
    /// new account read as a token account.
    pub fn check_vault_token_account(created: Result<(), u64>, owner_program: &Pubkey, data: &Vec<u8>) -> (r: Result<(), Rejection<ErrorCode>>)
        ensures
            r == Self::spec_check_vault_token_account(created, *owner_program, data@),
    {
        if let Err(code) = created {
            return Err(Rejection::Account(AccountError::Failed(code)));
        }
        if !token_program_key(owner_program) {
            return Err(Rejection::Account(AccountError::AccountOwnedByWrongProgram));
        }
        match read_token_account(data) {
            Err(code) => Err(Rejection::Account(AccountError::Failed(code))),
            Ok(_) => Ok(()),
        }
    }

    /// The mint's authority must be the vault (a missing authority reads as
    /// the all-zero address).
    pub open spec fn mint_authority_is_vault(self) -> bool {
        match self.mint.mint_authority {
            Some(a) => a == self.vault.key,
            None => self.vault.key.is_zero(),
        }
    }

    pub fn check_mint_authority(&self) -> (r: Result<(), Rejection<ErrorCode>>)
        ensures
            r is Ok <==> self.mint_authority_is_vault(),
            r matches Err(e) ==> e == Rejection::<ErrorCode>::Account(AccountError::ConstraintRaw),
    {
        let authority = match self.mint.mint_authority {
            Some(a) => a,
            None => Pubkey::default_key(),
        };
        if authority.equals(&self.vault.key) {
            proof {
                if self.mint.mint_authority is None {
                    assert(self.vault.key.bytes@ =~= Seq::new(32, |i: int| 0u8));
                }
            }
            Ok(())
        } else {
            proof {
                if self.mint.mint_authority is None && self.vault.key.is_zero() {
                    assert(authority.bytes =~= self.vault.key.bytes);
                }
            }
            Err(Rejection::Account(AccountError::ConstraintRaw))
        }
    }
}

/// Creates the vault, first step: checks the accounts, then gives the two
/// accounts to create. Only a signing admin gets this far.
pub fn initialize_vault(program_id: &Pubkey, accounts: &InitializeVault) -> (r: Result<VaultSetup, Rejection<ErrorCode>>)
    ensures
        accounts.spec_validate(*program_id) is Err ==> r == Err::<VaultSetup, Rejection<ErrorCode>>(accounts.spec_validate(*program_id)->Err_0),
        accounts.spec_validate(*program_id) is Ok <==> r is Ok,
        r matches Ok(setup) ==> {
            &&& setup.bumps == accounts.spec_validate(*program_id)->Ok_0
            &&& setup.vault_creation.payer == accounts.admin.key
            &&& setup.vault_creation.account == accounts.vault.key
            &&& setup.vault_creation.space == Vault::SPACE
            &&& setup.vault_creation.owner == *program_id
            &&& seeds_view(setup.vault_creation.signer_seeds@) == seeds_with_bump(vault_seeds(), setup.bumps.vault)
            &&& is_ata_creation(setup.token_account_creation, accounts.admin.key, accounts.vault.key, accounts.mint.key, accounts.token_program, 0)
            &&& accounts.admin.is_signer
            &&& seeds_match(accounts.vault.key, vault_seeds(), setup.bumps.vault, *program_id)
        },
{
    let bumps = accounts.validate(program_id)?;
    let (vault_creation, token_account_creation) = accounts.creations(program_id, &bumps);
    Ok(VaultSetup { bumps, vault_creation, token_account_creation })
}

/// Creates the vault, second step, once both accounts' creations have run:
/// the token account's creation must have succeeded and left a token
/// account; the mint's authority must be the vault; then the vault records
/// the admin, the mint and its bump.
pub fn finish_initialize_vault(
    program_id: &Pubkey,
    accounts: &InitializeVault,
    bumps: &InitializeVaultBumps,
    created: Result<(), u64>,
    owner_program: &Pubkey,
    data: &Vec<u8>,
) -> (r: Result<Vault, Rejection<ErrorCode>>)
    requires
        seeds_match(accounts.vault.key, vault_seeds(), bumps.vault, *program_id),
    ensures
        InitializeVault::spec_check_vault_token_account(created, *owner_program, data@) is Err
            ==> r == Err::<Vault, Rejection<ErrorCode>>(InitializeVault::spec_check_vault_token_account(created, *owner_program, data@)->Err_0),
        InitializeVault::spec_check_vault_token_account(created, *owner_program, data@) is Ok && !accounts.mint_authority_is_vault()
            ==> r == Err::<Vault, Rejection<ErrorCode>>(Rejection::Account(AccountError::ConstraintRaw)),
        r is Ok <==> (InitializeVault::spec_check_vault_token_account(created, *owner_program, data@) is Ok && accounts.mint_authority_is_vault()),
        r matches Ok(v) ==> {
            &&& v == (Vault { admin: accounts.admin.key, mint: accounts.mint.key, bump: bumps.vault })
            &&& spec_check_vault(ProgramAccount { key: accounts.vault.key, owner: *program_id, lamports: 0, is_writable: false, data: Some(v) }, *program_id) == Ok::<(), Rejection<ErrorCode>>(())
        },
{
    InitializeVault::check_vault_token_account(created, owner_program, data)?;
    accounts.check_mint_authority()?;
    Ok(accounts.handler(bumps))
}

// ----------------------------------------------------------------- whitelist

/// The vault account's checks shared by the admin instructions: it must
/// exist at the address derived from `[b"vault"]` and its bump, and the
/// signer must be its admin.
pub open spec fn spec_check_admin_vault(vault: ProgramAccount<Vault>, admin: Pubkey, program_id: Pubkey) -> Result<(), Rejection<ErrorCode>> {
    match vault.data {
        None => Err(Rejection::Account(AccountError::AccountNotInitialized)),
        Some(v) => if !seeds_match(vault.key, vault_seeds(), v.bump, program_id) {
            Err(Rejection::Account(AccountError::ConstraintSeeds))
        } else if v.admin != admin {
            Err(Rejection::Program(ErrorCode::UnauthorizedAdmin))
        } else {
            Ok(())
        },
    }
}

fn check_admin_vault(vault: &ProgramAccount<Vault>, admin: &Pubkey, program_id: &Pubkey) -> (r: Result<(), Rejection<ErrorCode>>)
    ensures
        r == spec_check_admin_vault(*vault, *admin, *program_id),
{
    match &vault.data {
        None => Err(Rejection::Account(AccountError::AccountNotInitialized)),
        Some(v) => {
            let seeds = make_vault_seeds();
            match check_seeds_with_bump(&vault.key, &seeds, v.bump, program_id) {
                Err(e) => Err(Rejection::Account(e)),
                Ok(()) => if !v.admin.equals(admin) {
                    Err(Rejection::Program(ErrorCode::UnauthorizedAdmin))
                } else {
                    Ok(())
                },
            }
        },
    }
}

/// The bumps found while checking `AddToWhitelist`'s accounts.
#[derive(Clone, Copy, Debug)]
pub struct AddToWhitelistBumps {
    pub entry: u8,
}

/// Accounts of `add_to_whitelist`: the admin signs and pays; the entry is
/// created.
#[derive(Clone, Copy, Debug)]
pub struct AddToWhitelist {
    pub admin: Signer,
    pub vault: ProgramAccount<Vault>,
    pub entry: ProgramAccount<WhitelistEntry>,
    pub system_program: Pubkey,
}

impl AddToWhitelist {
    /// In the framework's order: the admin must sign; the vault must exist;
    /// the system program must be passed. The entry must be created at the
    /// address found for `[b"whitelist", user]`; creating it needs the admin
    /// and the entry passed writable, and fails where the entry exists.
    /// Then the vault must live at its derived address and name the signer
    /// as admin.
    pub open spec fn spec_validate(self, program_id: Pubkey, user: Pubkey) -> Result<AddToWhitelistBumps, Rejection<ErrorCode>> {
        if !self.admin.is_signer {
            Err(Rejection::Account(AccountError::AccountNotSigner))
        } else if spec_check_account(self.vault, program_id) is Err {
            Err(Rejection::Account(spec_check_account(self.vault, program_id)->Err_0))
        } else if spec_check_program(self.system_program, SYSTEM_PROGRAM_ID@) is Err {
            Err(Rejection::Account(AccountError::InvalidProgramId))
        } else {
            match spec_check_canonical_seeds(self.entry.key, whitelist_seeds(user), program_id) {
                Err(e) => Err(Rejection::Account(e)),
                Ok(bump) => if !self.admin.is_writable || !self.entry.is_writable {
                    Err(Rejection::Account(AccountError::PrivilegeEscalation))
                } else if account_in_use(self.entry) {
                    Err(Rejection::Account(AccountError::AccountAlreadyInUse))
                } else {
                    match spec_check_admin_vault(self.vault, self.admin.key, program_id) {
                        Err(e) => Err(e),
                        Ok(()) => Ok(AddToWhitelistBumps { entry: bump }),
                    }
                },
            }
        }
    }

    pub fn validate(&self, program_id: &Pubkey, user: &Pubkey) -> (r: Result<AddToWhitelistBumps, Rejection<ErrorCode>>)
        ensures
            r == self.spec_validate(*program_id, *user),
            r matches Ok(b) ==> seeds_match(self.entry.key, whitelist_seeds(*user), b.entry, *program_id),
    {
        if !self.admin.is_signer {
            return Err(Rejection::Account(AccountError::AccountNotSigner));
        }
        if let Err(e) = check_account(&self.vault, program_id) {
            return Err(Rejection::Account(e));
        }
        if check_program(&self.system_program, SYSTEM_PROGRAM_ID).is_err() {
            return Err(Rejection::Account(AccountError::InvalidProgramId));
        }
        let seeds = make_whitelist_seeds(user);
        let bump = match check_canonical_seeds(&self.entry.key, &seeds, program_id) {
            Err(e) => { return Err(Rejection::Account(e)); },
            Ok(b) => b,
        };
        if !self.admin.is_writable || !self.entry.is_writable {
            return Err(Rejection::Account(AccountError::PrivilegeEscalation));
        }
        if check_in_use(&self.entry) {
            return Err(Rejection::Account(AccountError::AccountAlreadyInUse));
        }
        check_admin_vault(&self.vault, &self.admin.key, program_id)?;
        Ok(AddToWhitelistBumps { entry: bump })
    }

    /// A fresh entry for `user`, with nothing deposited.
    pub fn handler(&self, user: Pubkey, bumps: &AddToWhitelistBumps) -> (r: WhitelistEntry)
        ensures
            r == (WhitelistEntry { user, amount: 0, bump: bumps.entry }),
    {
        WhitelistEntry { user, amount: 0, bump: bumps.entry }
    }

    /// The admin pays for the entry account, created at its address with the
    /// entry's size and owned by the program, signed with
    /// `[b"whitelist", user, [bump]]`.
    pub fn creation(&self, program_id: &Pubkey, user: &Pubkey, bumps: &AddToWhitelistBumps) -> (r: AccountCreation)
        ensures
            r.payer == self.admin.key,
            r.account == self.entry.key,
            r.space == WhitelistEntry::SPACE,
            r.owner == *program_id,
            seeds_view(r.signer_seeds@) == seeds_with_bump(whitelist_seeds(*user), bumps.entry),
    {
        AccountCreation {
            payer: self.admin.key,
            account: self.entry.key,
            space: WhitelistEntry::SPACE,
            owner: *program_id,
            signer_seeds: with_bump(make_whitelist_seeds(user), bumps.entry),
        }
    }
}

/// Whitelists `user`: only the vault's admin, signing, may, and only once per
/// user. The new entry lives at the user's entry address, belongs to `user`
/// and holds nothing; the checks that deposits and withdrawals make on an
/// entry hold of it.
pub fn add_to_whitelist(program_id: &Pubkey, accounts: &AddToWhitelist, user: Pubkey) -> (r: Result<(WhitelistEntry, AccountCreation), Rejection<ErrorCode>>)
    ensures
        accounts.spec_validate(*program_id, user) is Err ==> r == Err::<(WhitelistEntry, AccountCreation), Rejection<ErrorCode>>(accounts.spec_validate(*program_id, user)->Err_0),
        accounts.spec_validate(*program_id, user) is Ok <==> r is Ok,
        r matches Ok(created) ==> {
            &&& created.0 == (WhitelistEntry { user, amount: 0, bump: accounts.spec_validate(*program_id, user)->Ok_0.entry })
            &&& created.1.payer == accounts.admin.key
            &&& created.1.account == accounts.entry.key
            &&& created.1.space == WhitelistEntry::SPACE
            &&& created.1.owner == *program_id
            &&& seeds_view(created.1.signer_seeds@) == seeds_with_bump(whitelist_seeds(user), created.0.bump)
            &&& accounts.admin.is_signer
            &&& spec_check_entry(ProgramAccount { key: accounts.entry.key, owner: *program_id, lamports: 0, is_writable: false, data: Some(created.0) }, user, *program_id) == Ok::<(), Rejection<ErrorCode>>(())
        },
{
    let bumps = accounts.validate(program_id, &user)?;
    let creation = accounts.creation(program_id, &user, &bumps);
    Ok((accounts.handler(user, &bumps), creation))
}

/// Accounts of `remove_from_whitelist`, with the admin's lamports, which
/// receive the closed entry's rent.
#[derive(Clone, Copy, Debug)]
pub struct RemoveFromWhitelist {
    pub admin: Signer,
    pub admin_lamports: u64,
    pub vault: ProgramAccount<Vault>,
    pub entry: ProgramAccount<WhitelistEntry>,
}

impl RemoveFromWhitelist {
    /// In the framework's order: the admin must sign; both accounts must
    /// exist; the admin must be passed writable; the vault must live at its
    /// derived address and name the signer as admin; the entry must live at
    /// the address derived from `[b"whitelist", user]` and its bump, be passed
    /// writable, and not be the admin, into which it is closed.
    pub open spec fn spec_validate(self, program_id: Pubkey, user: Pubkey) -> Result<(), Rejection<ErrorCode>> {
        if !self.admin.is_signer {
            Err(Rejection::Account(AccountError::AccountNotSigner))
        } else if spec_check_account(self.vault, program_id) is Err {
            Err(Rejection::Account(spec_check_account(self.vault, program_id)->Err_0))
        } else if spec_check_account(self.entry, program_id) is Err {
            Err(Rejection::Account(spec_check_account(self.entry, program_id)->Err_0))
        } else if !self.admin.is_writable {
            Err(Rejection::Account(AccountError::ConstraintMut))
        } else {
            match spec_check_admin_vault(self.vault, self.admin.key, program_id) {
                Err(e) => Err(e),
                Ok(()) => if !seeds_match(self.entry.key, whitelist_seeds(user), self.entry.data->0.bump, program_id) {
                    Err(Rejection::Account(AccountError::ConstraintSeeds))
                } else if !self.entry.is_writable {
                    Err(Rejection::Account(AccountError::ConstraintMut))
                } else if self.entry.key == self.admin.key {
                    Err(Rejection::Account(AccountError::ConstraintClose))
                } else {
                    Ok(())
                },
            }
        }
    }

    pub fn validate(&self, program_id: &Pubkey, user: &Pubkey) -> (r: Result<(), Rejection<ErrorCode>>)
        ensures
            r == self.spec_validate(*program_id, *user),
    {
        if !self.admin.is_signer {
            return Err(Rejection::Account(AccountError::AccountNotSigner));
        }
        if let Err(e) = check_account(&self.vault, program_id) {
            return Err(Rejection::Account(e));
        }
        if let Err(e) = check_account(&self.entry, program_id) {
            return Err(Rejection::Account(e));
        }
        if !self.admin.is_writable {
            return Err(Rejection::Account(AccountError::ConstraintMut));
        }
        check_admin_vault(&self.vault, &self.admin.key, program_id)?;
        let bump = self.entry.data.unwrap().bump;
        let seeds = make_whitelist_seeds(user);
        if check_seeds_with_bump(&self.entry.key, &seeds, bump, program_id).is_err() {
            return Err(Rejection::Account(AccountError::ConstraintSeeds));
        }
        if !self.entry.is_writable {
            return Err(Rejection::Account(AccountError::ConstraintMut));
        }
        if self.entry.key.equals(&self.admin.key) {
            return Err(Rejection::Account(AccountError::ConstraintClose));
        }
        Ok(())
    }

    /// The entry is closed into the admin: its lamports go to the admin and
    /// its data is gone.
    pub fn handler(&mut self, _user: Pubkey) -> (r: Result<(), Rejection<ErrorCode>>)
        ensures
            old(self).entry.key == old(self).admin.key ==> r == Err::<(), Rejection<ErrorCode>>(Rejection::Account(AccountError::ConstraintClose)),
            old(self).entry.key != old(self).admin.key && old(self).admin_lamports + old(self).entry.lamports > u64::MAX
                ==> r == Err::<(), Rejection<ErrorCode>>(Rejection::Account(AccountError::ArithmeticOverflow)),
            old(self).entry.key != old(self).admin.key && old(self).admin_lamports + old(self).entry.lamports <= u64::MAX ==> r is Ok,
            r is Err ==> *final(self) == *old(self),
            r is Ok ==> {
                &&& final(self).entry.key == old(self).entry.key
                &&& final(self).entry.lamports == 0
                &&& final(self).entry.data is None
                &&& final(self).entry.owner.bytes@ == SYSTEM_PROGRAM_ID@
                &&& final(self).admin_lamports == old(self).admin_lamports + old(self).entry.lamports
                &&& final(self).admin == old(self).admin
                &&& final(self).vault == old(self).vault
            },
    {
        let admin = self.admin.key;
        match close_program_account(&mut self.entry, &admin, &mut self.admin_lamports) {
            Ok(()) => Ok(()),
            Err(e) => Err(Rejection::Account(e)),
        }
    }
}

/// Removes `user` from the whitelist: only the vault's admin, signing, may;
/// the entry, with what it recorded, is closed and its lamports paid to the
/// admin.
pub fn remove_from_whitelist(program_id: &Pubkey, accounts: &mut RemoveFromWhitelist, user: Pubkey) -> (r: Result<(), Rejection<ErrorCode>>)
    ensures
        old(accounts).spec_validate(*program_id, user) is Err ==> r == old(accounts).spec_validate(*program_id, user) && *final(accounts) == *old(accounts),
        r is Err ==> *final(accounts) == *old(accounts),
        old(accounts).spec_validate(*program_id, user) is Ok && old(accounts).entry.key != old(accounts).admin.key
            && old(accounts).admin_lamports + old(accounts).entry.lamports <= u64::MAX ==> r is Ok,
        r is Ok ==> {
            &&& old(accounts).spec_validate(*program_id, user) is Ok
            &&& final(accounts).entry.key == old(accounts).entry.key
            &&& final(accounts).entry.lamports == 0
            &&& final(accounts).entry.data is None
            &&& final(accounts).entry.owner.bytes@ == SYSTEM_PROGRAM_ID@
            &&& final(accounts).admin_lamports == old(accounts).admin_lamports + old(accounts).entry.lamports
            &&& final(accounts).admin == old(accounts).admin
            &&& final(accounts).vault == old(accounts).vault
        },
{
    accounts.validate(program_id, &user)?;
    accounts.handler(user)
}

// ------------------------------------------------------------- entry checks

/// The checks on a user's whitelist entry: it must exist at the address
/// derived from `[b"whitelist", user]` and its bump, and belong to `user`.
pub open spec fn spec_check_entry(entry: ProgramAccount<WhitelistEntry>, user: Pubkey, program_id: Pubkey) -> Result<(), Rejection<ErrorCode>> {
    match entry.data {
        None => Err(Rejection::Account(AccountError::AccountNotInitialized)),
        Some(e) => if !seeds_match(entry.key, whitelist_seeds(user), e.bump, program_id) {
            Err(Rejection::Account(AccountError::ConstraintSeeds))
        } else if e.user != user {
            Err(Rejection::Program(ErrorCode::NotWhitelisted))
        } else {
            Ok(())
        },
    }
}

fn check_entry(entry: &ProgramAccount<WhitelistEntry>, user: &Pubkey, program_id: &Pubkey) -> (r: Result<(), Rejection<ErrorCode>>)
    ensures
        r == spec_check_entry(*entry, *user, *program_id),
{
    match &entry.data {
        None => Err(Rejection::Account(AccountError::AccountNotInitialized)),
        Some(e) => {
            let seeds = make_whitelist_seeds(user);
            match check_seeds_with_bump(&entry.key, &seeds, e.bump, program_id) {
                Err(err) => Err(Rejection::Account(err)),
                Ok(()) => if !e.user.equals(user) {
                    Err(Rejection::Program(ErrorCode::NotWhitelisted))
                } else {
                    Ok(())
                },
            }
        },
    }
}

/// The vault's address check: derived from `[b"vault"]` and its bump.
pub open spec fn spec_check_vault(vault: ProgramAccount<Vault>, program_id: Pubkey) -> Result<(), Rejection<ErrorCode>> {
    match vault.data {
        None => Err(Rejection::Account(AccountError::AccountNotInitialized)),
        Some(v) => if seeds_match(vault.key, vault_seeds(), v.bump, program_id) {
            Ok(())
        } else {
            Err(Rejection::Account(AccountError::ConstraintSeeds))
        },
    }
}

fn check_vault(vault: &ProgramAccount<Vault>, program_id: &Pubkey) -> (r: Result<(), Rejection<ErrorCode>>)
    ensures
        r == spec_check_vault(*vault, *program_id),
{
    match &vault.data {
        None => Err(Rejection::Account(AccountError::AccountNotInitialized)),
        Some(v) => {
            let seeds = make_vault_seeds();
            match check_seeds_with_bump(&vault.key, &seeds, v.bump, program_id) {
                Err(e) => Err(Rejection::Account(e)),
                Ok(()) => Ok(()),
            }
        },
    }
}

fn token_check(account: &TokenAccount, mint: &Pubkey, authority: &Pubkey) -> (r: Result<(), Rejection<ErrorCode>>)
    ensures
        r == account_failure::<ErrorCode>(spec_check_token_account(*account, *mint, *authority)),
{
    match check_token_account(account, mint, authority) {
        Err(e) => Err(Rejection::Account(e)),
        Ok(()) => Ok(()),
    }
}

impl WhitelistEntry {
    /// The entry after a deposit of `amount` has been recorded.
    pub open spec fn spec_record_deposit(self, amount: u64) -> WhitelistEntry {
        WhitelistEntry { user: self.user, amount: (self.amount + amount) as u64, bump: self.bump }
    }

    /// The entry after a withdrawal of `amount` has been recorded.
    pub open spec fn spec_record_withdrawal(self, amount: u64) -> WhitelistEntry {
        WhitelistEntry { user: self.user, amount: (self.amount - amount) as u64, bump: self.bump }
    }

    /// Records a deposit once the transfer into the vault has succeeded. The
    /// program stops with a panic where the sum overflows, so `requires`
    /// leaves that out.
    pub fn record_deposit(&mut self, amount: u64)
        requires
            old(self).amount + amount <= u64::MAX,
        ensures
            *final(self) == old(self).spec_record_deposit(amount),
    {
        self.amount = self.amount + amount;
    }

    /// Records a withdrawal once the transfer out of the vault has succeeded.
    pub fn record_withdrawal(&mut self, amount: u64)
        requires
            amount <= old(self).amount,
        ensures
            *final(self) == old(self).spec_record_withdrawal(amount),
    {
        self.amount = self.amount - amount;
    }
}

/// Depositing and then withdrawing the same amount leaves an entry as it was.
pub proof fn lemma_deposit_then_withdraw(entry: WhitelistEntry, amount: u64)
    requires
        entry.amount + amount <= u64::MAX,
    ensures
        entry.spec_record_deposit(amount).spec_record_withdrawal(amount) == entry,
{
}

/// Withdrawing and then depositing the same amount leaves an entry as it was.
pub proof fn lemma_withdraw_then_deposit(entry: WhitelistEntry, amount: u64)
    requires
        amount <= entry.amount,
    ensures
        entry.spec_record_withdrawal(amount).spec_record_deposit(amount) == entry,
{
}

// ------------------------------------------------------------------- minting

/// Accounts of `mint_to_user`.
#[derive(Clone, Copy, Debug)]
pub struct MintToUser {
    pub admin: Signer,
    pub vault: ProgramAccount<Vault>,
    pub recipient: Pubkey,
    pub recipient_entry: ProgramAccount<WhitelistEntry>,
    pub mint: Mint,
    pub recipient_token_account: TokenAccount,
    pub token_program: Pubkey,
}

impl MintToUser {
    /// In the framework's order: the admin must sign; both program
    /// accounts must exist; the mint and the token account must be owned by
    /// a token program; the token program must be one; the mint and the
    /// token account must be different accounts. Then: the admin must be
    /// passed writable and be the vault's admin; the vault and the
    /// recipient's entry must live at their derived addresses; the entry must
    /// belong to the recipient; the mint must be writable and the vault's;
    /// the recipient's token account must be writable, hold that mint and
    /// belong to the recipient.
    pub open spec fn spec_validate(self, program_id: Pubkey) -> Result<(), Rejection<ErrorCode>> {
        if !self.admin.is_signer {
            Err(Rejection::Account(AccountError::AccountNotSigner))
        } else if spec_check_account(self.vault, program_id) is Err {
            Err(Rejection::Account(spec_check_account(self.vault, program_id)->Err_0))
        } else if spec_check_account(self.recipient_entry, program_id) is Err {
            Err(Rejection::Account(spec_check_account(self.recipient_entry, program_id)->Err_0))
        } else if spec_check_interface_owner(self.mint.owner_program) is Err
            || spec_check_interface_owner(self.recipient_token_account.owner_program) is Err {
            Err(Rejection::Account(AccountError::AccountOwnedByWrongProgram))
        } else if spec_check_token_interface(self.token_program) is Err {
            Err(Rejection::Account(AccountError::InvalidProgramId))
        } else if spec_check_distinct(seq![self.mint.key, self.recipient_token_account.key]) is Err {
            Err(Rejection::Account(AccountError::ConstraintDuplicateMutableAccount))
        } else if !self.admin.is_writable {
            Err(Rejection::Account(AccountError::ConstraintMut))
        } else if self.admin.key != self.vault.data->0.admin {
            Err(Rejection::Program(ErrorCode::UnauthorizedAdmin))
        } else {
            match spec_check_vault(self.vault, program_id) {
                Err(e) => Err(e),
                Ok(()) => match spec_check_entry(self.recipient_entry, self.recipient, program_id) {
                    Err(e) => Err(e),
                    Ok(()) => if !self.mint.is_writable {
                        Err(Rejection::Account(AccountError::ConstraintMut))
                    } else if self.mint.key != self.vault.data->0.mint {
                        Err(Rejection::Account(AccountError::ConstraintRaw))
                    } else if !self.recipient_token_account.is_writable {
                        Err(Rejection::Account(AccountError::ConstraintMut))
                    } else {
                        account_failure(spec_check_token_account(self.recipient_token_account, self.mint.key, self.recipient))
                    },
                },
            }
        }
    }

    pub fn validate(&self, program_id: &Pubkey) -> (r: Result<(), Rejection<ErrorCode>>)
        ensures
            r == self.spec_validate(*program_id),
    {
        if !self.admin.is_signer {
            return Err(Rejection::Account(AccountError::AccountNotSigner));
        }
        if let Err(e) = check_account(&self.vault, program_id) {
            return Err(Rejection::Account(e));
        }
        if let Err(e) = check_account(&self.recipient_entry, program_id) {
            return Err(Rejection::Account(e));
        }
        let vault = self.vault.data.unwrap();
        if check_interface_owner(&self.mint.owner_program).is_err()
            || check_interface_owner(&self.recipient_token_account.owner_program).is_err() {
            return Err(Rejection::Account(AccountError::AccountOwnedByWrongProgram));
        }
        if check_token_interface(&self.token_program).is_err() {
            return Err(Rejection::Account(AccountError::InvalidProgramId));
        }
        let mut mutable: Vec<Pubkey> = Vec::new();
        mutable.push(self.mint.key);
        mutable.push(self.recipient_token_account.key);
        assert(mutable@ =~= seq![self.mint.key, self.recipient_token_account.key]);
        if check_distinct(&mutable).is_err() {
            return Err(Rejection::Account(AccountError::ConstraintDuplicateMutableAccount));
        }
        if !self.admin.is_writable {
            return Err(Rejection::Account(AccountError::ConstraintMut));
        }
        if !self.admin.key.equals(&vault.admin) {
            return Err(Rejection::Program(ErrorCode::UnauthorizedAdmin));
        }
        check_vault(&self.vault, program_id)?;
        check_entry(&self.recipient_entry, &self.recipient, program_id)?;
        if !self.mint.is_writable {
            return Err(Rejection::Account(AccountError::ConstraintMut));
        }
        if !self.mint.key.equals(&vault.mint) {
            return Err(Rejection::Account(AccountError::ConstraintRaw));
        }
        if !self.recipient_token_account.is_writable {
            return Err(Rejection::Account(AccountError::ConstraintMut));
        }
        token_check(&self.recipient_token_account, &self.mint.key, &self.recipient)
    }

    /// The token instruction that mints `amount` to the recipient's token
    /// account, signed by the vault, which holds the mint authority.
    pub fn handler(&self, amount: u64) -> (r: Result<SignedInstruction, Rejection<ErrorCode>>)
        requires
            self.vault.data is Some,
        ensures
            r is Ok <==> is_token_program(self.token_program),
            r matches Err(e) ==> e == Rejection::<ErrorCode>::Account(AccountError::IncorrectProgramId),
            r matches Ok(s) ==> {
                &&& s.instruction.program_id == self.token_program
                &&& s.instruction.accounts@ == seq![
                    meta(self.mint.key, false, true),
                    meta(self.recipient_token_account.key, false, true),
                    meta(self.vault.key, true, false),
                ]
                &&& s.instruction.data@ == mint_to_data(amount)
                &&& seeds_view(s.signer_seeds@) == seeds_with_bump(vault_seeds(), self.vault.data->0.bump)
            },
    {
        let bump = self.vault.data.unwrap().bump;
        let signer_seeds = make_vault_signer_seeds(bump);
        match mint_to(&self.token_program, &self.mint.key, &self.recipient_token_account.key, &self.vault.key, amount) {
            Ok(instruction) => Ok(SignedInstruction { instruction, signer_seeds }),
            Err(e) => Err(Rejection::Account(e)),
        }
    }
}

/// Mints `amount` new tokens to a whitelisted recipient: only the vault's
/// admin, signing, may, and only to a user with an entry of their own. The
/// vault holds the mint authority, so this is the one way new supply is
/// made.
pub fn mint_to_user(program_id: &Pubkey, accounts: &MintToUser, amount: u64) -> (r: Result<SignedInstruction, Rejection<ErrorCode>>)
    ensures
        accounts.spec_validate(*program_id) is Err ==> r == Err::<SignedInstruction, Rejection<ErrorCode>>(accounts.spec_validate(*program_id)->Err_0),
        accounts.spec_validate(*program_id) is Ok ==> {
            &&& (r is Ok <==> is_token_program(accounts.token_program))
            &&& r matches Ok(s) ==> {
                &&& s.instruction.program_id == accounts.token_program
                &&& s.instruction.accounts@ == seq![
                    meta(accounts.mint.key, false, true),
                    meta(accounts.recipient_token_account.key, false, true),
                    meta(accounts.vault.key, true, false),
                ]
                &&& s.instruction.data@ == mint_to_data(amount)
                &&& seeds_view(s.signer_seeds@) == seeds_with_bump(vault_seeds(), accounts.vault.data->0.bump)
            }
        },
        r matches Ok(_) ==> accounts.recipient_entry.data->0.user == accounts.recipient,
        r matches Ok(s) ==> derived_address(seeds_view(s.signer_seeds@), program_id.bytes@) == Some(accounts.vault.key.bytes@),
        r matches Ok(_) ==> accounts.admin.is_signer && accounts.admin.key == accounts.vault.data->0.admin,
{
    accounts.validate(program_id)?;
    accounts.handler(amount)
}

// ------------------------------------------------------- deposit / withdraw

/// The account checks shared by deposits and withdrawals, in the
/// framework's order: the user signs; both program accounts exist; the mint
/// and both token accounts are owned by a token program; the token program
/// is one; the entry, the mint and the two token accounts are four
/// different accounts. Then: the user is passed writable; the vault lives at
/// its derived address; the user's entry lives at its derived address, is
/// writable and belongs to the user; the mint is writable and the vault's;
/// the user's token account is writable, holds that mint and belongs to the
/// user; the vault's token account is writable, holds that mint and belongs
/// to the vault.
pub open spec fn spec_check_transfer_accounts(
    user: Signer,
    vault: ProgramAccount<Vault>,
    user_entry: ProgramAccount<WhitelistEntry>,
    mint: Mint,
    user_token_account: TokenAccount,
    vault_token_account: TokenAccount,
    token_program: Pubkey,
    program_id: Pubkey,
) -> Result<(), Rejection<ErrorCode>> {
    if !user.is_signer {
        Err(Rejection::Account(AccountError::AccountNotSigner))
    } else if spec_check_account(vault, program_id) is Err {
        Err(Rejection::Account(spec_check_account(vault, program_id)->Err_0))
    } else if spec_check_account(user_entry, program_id) is Err {
        Err(Rejection::Account(spec_check_account(user_entry, program_id)->Err_0))
    } else if spec_check_interface_owner(mint.owner_program) is Err
        || spec_check_interface_owner(user_token_account.owner_program) is Err
        || spec_check_interface_owner(vault_token_account.owner_program) is Err {
        Err(Rejection::Account(AccountError::AccountOwnedByWrongProgram))
    } else if spec_check_token_interface(token_program) is Err {
        Err(Rejection::Account(AccountError::InvalidProgramId))
    } else if spec_check_distinct(seq![user_entry.key, mint.key, user_token_account.key, vault_token_account.key]) is Err {
        Err(Rejection::Account(AccountError::ConstraintDuplicateMutableAccount))
    } else if !user.is_writable {
        Err(Rejection::Account(AccountError::ConstraintMut))
    } else {
        match spec_check_vault(vault, program_id) {
            Err(e) => Err(e),
            Ok(()) => if !seeds_match(user_entry.key, whitelist_seeds(user.key), user_entry.data->0.bump, program_id) {
                Err(Rejection::Account(AccountError::ConstraintSeeds))
            } else if !user_entry.is_writable {
                Err(Rejection::Account(AccountError::ConstraintMut))
            } else if user_entry.data->0.user != user.key {
                Err(Rejection::Program(ErrorCode::NotWhitelisted))
            } else if !mint.is_writable {
                Err(Rejection::Account(AccountError::ConstraintMut))
            } else if mint.key != vault.data->0.mint {
                Err(Rejection::Account(AccountError::ConstraintRaw))
            } else if !user_token_account.is_writable {
                Err(Rejection::Account(AccountError::ConstraintMut))
            } else {
                match spec_check_token_account(user_token_account, mint.key, user.key) {
                    Err(e) => Err(Rejection::Account(e)),
                    Ok(()) => if !vault_token_account.is_writable {
                        Err(Rejection::Account(AccountError::ConstraintMut))
                    } else {
                        account_failure(spec_check_token_account(vault_token_account, mint.key, vault.key))
                    },
                }
            },
        }
    }
}

fn check_transfer_accounts(
    user: &Signer,
    vault: &ProgramAccount<Vault>,
    user_entry: &ProgramAccount<WhitelistEntry>,
    mint: &Mint,
    user_token_account: &TokenAccount,
    vault_token_account: &TokenAccount,
    token_program: &Pubkey,
    program_id: &Pubkey,
) -> (r: Result<(), Rejection<ErrorCode>>)
    ensures
        r == spec_check_transfer_accounts(*user, *vault, *user_entry, *mint, *user_token_account, *vault_token_account, *token_program, *program_id),
{
    if !user.is_signer {
        return Err(Rejection::Account(AccountError::AccountNotSigner));
    }
    if let Err(e) = check_account(vault, program_id) {
        return Err(Rejection::Account(e));
    }
    if let Err(e) = check_account(user_entry, program_id) {
        return Err(Rejection::Account(e));
    }
    let vault_mint = vault.data.unwrap().mint;
    let entry = user_entry.data.unwrap();
    if check_interface_owner(&mint.owner_program).is_err()
        || check_interface_owner(&user_token_account.owner_program).is_err()
        || check_interface_owner(&vault_token_account.owner_program).is_err() {
        return Err(Rejection::Account(AccountError::AccountOwnedByWrongProgram));
    }
    if check_token_interface(token_program).is_err() {
        return Err(Rejection::Account(AccountError::InvalidProgramId));
    }
    let mut mutable: Vec<Pubkey> = Vec::new();
    mutable.push(user_entry.key);
    mutable.push(mint.key);
    mutable.push(user_token_account.key);
    mutable.push(vault_token_account.key);
    assert(mutable@ =~= seq![user_entry.key, mint.key, user_token_account.key, vault_token_account.key]);
    if check_distinct(&mutable).is_err() {
        return Err(Rejection::Account(AccountError::ConstraintDuplicateMutableAccount));
    }
    if !user.is_writable {
        return Err(Rejection::Account(AccountError::ConstraintMut));
    }
    check_vault(vault, program_id)?;
    let seeds = make_whitelist_seeds(&user.key);
    if check_seeds_with_bump(&user_entry.key, &seeds, entry.bump, program_id).is_err() {
        return Err(Rejection::Account(AccountError::ConstraintSeeds));
    }
    if !user_entry.is_writable {
        return Err(Rejection::Account(AccountError::ConstraintMut));
    }
    if !entry.user.equals(&user.key) {
        return Err(Rejection::Program(ErrorCode::NotWhitelisted));
    }
    if !mint.is_writable {
        return Err(Rejection::Account(AccountError::ConstraintMut));
    }
    if !mint.key.equals(&vault_mint) {
        return Err(Rejection::Account(AccountError::ConstraintRaw));
    }
    if !user_token_account.is_writable {
        return Err(Rejection::Account(AccountError::ConstraintMut));
    }
    token_check(user_token_account, &mint.key, &user.key)?;
    if !vault_token_account.is_writable {
        return Err(Rejection::Account(AccountError::ConstraintMut));
    }
    token_check(vault_token_account, &mint.key, &vault.key)
}

/// Accounts of `deposit`, with the extra accounts for the transfer hook.
#[derive(Debug)]
pub struct Deposit {
    pub user: Signer,
    pub vault: ProgramAccount<Vault>,
    pub user_entry: ProgramAccount<WhitelistEntry>,
    pub mint: Mint,
    pub user_token_account: TokenAccount,
    pub vault_token_account: TokenAccount,
    pub token_program: Pubkey,
    pub remaining_accounts: Vec<RemainingAccount>,
}

impl Deposit {
    pub open spec fn spec_validate(self, program_id: Pubkey) -> Result<(), Rejection<ErrorCode>> {
        spec_check_transfer_accounts(self.user, self.vault, self.user_entry, self.mint, self.user_token_account, self.vault_token_account, self.token_program, program_id)
    }

    pub fn validate(&self, program_id: &Pubkey) -> (r: Result<(), Rejection<ErrorCode>>)
        ensures
            r == self.spec_validate(*program_id),
    {
        check_transfer_accounts(&self.user, &self.vault, &self.user_entry, &self.mint, &self.user_token_account, &self.vault_token_account, &self.token_program, program_id)
    }

    /// The transfer of `amount` from the user's token account into the
    /// vault's, signed by the user, with the hook's extra accounts appended.
    /// Once it has run, `finish` records the amount.
    pub fn handler(&self, amount: u64) -> (r: Result<Instruction, Rejection<ErrorCode>>)
        ensures
            r is Ok <==> is_token_program(self.token_program),
            r matches Err(e) ==> e == Rejection::<ErrorCode>::Account(AccountError::IncorrectProgramId),
            r matches Ok(ix) ==> is_hooked_transfer(ix, self.token_program, self.user_token_account.key, self.mint.key,
                self.vault_token_account.key, self.user.key, amount, self.mint.decimals, self.remaining_accounts@),
    {
        match hooked_transfer_checked(&self.token_program, &self.user_token_account.key, &self.mint.key,
            &self.vault_token_account.key, &self.user.key, amount, self.mint.decimals, &self.remaining_accounts) {
            Ok(ix) => Ok(ix),
            Err(e) => Err(Rejection::Account(e)),
        }
    }

    /// Settles the deposit with the transfer's outcome: where the transfer
    /// failed with a program error, the deposit fails with it and the entry
    /// is unchanged; where it succeeded, the entry records `amount` more. The
    /// program stops with a panic where that sum overflows, so `requires`
    /// leaves that out.
    pub fn finish(&mut self, amount: u64, transfer: Result<(), u64>) -> (r: Result<(), Rejection<ErrorCode>>)
        requires
            old(self).user_entry.data is Some,
            transfer is Ok ==> old(self).user_entry.data->0.amount + amount <= u64::MAX,
        ensures
            transfer matches Err(code) ==> r == Err::<(), Rejection<ErrorCode>>(Rejection::Account(AccountError::Failed(code)))
                && *final(self) == *old(self),
            transfer is Ok ==> r is Ok
                && final(self).user_entry.data == Some(old(self).user_entry.data->0.spec_record_deposit(amount))
                && final(self).user_entry.key == old(self).user_entry.key
                && final(self).user_entry.lamports == old(self).user_entry.lamports
                && final(self).user == old(self).user
                && final(self).vault == old(self).vault
                && final(self).mint == old(self).mint
                && final(self).user_token_account == old(self).user_token_account
                && final(self).vault_token_account == old(self).vault_token_account
                && final(self).token_program == old(self).token_program
                && final(self).remaining_accounts@ == old(self).remaining_accounts@,
    {
        match transfer {
            Err(code) => Err(Rejection::Account(AccountError::Failed(code))),
            Ok(()) => {
                let mut entry = self.user_entry.data.unwrap();
                entry.record_deposit(amount);
                self.user_entry.data = Some(entry);
                Ok(())
            },
        }
    }
}

/// A whitelisted user deposits `amount` into the vault: the accounts are
/// checked, then the transfer into the vault is built. Only a user who signs
/// and whose own entry exists gets that far.
pub fn deposit(program_id: &Pubkey, accounts: &Deposit, amount: u64) -> (r: Result<Instruction, Rejection<ErrorCode>>)
    ensures
        accounts.spec_validate(*program_id) is Err ==> r == Err::<Instruction, Rejection<ErrorCode>>(accounts.spec_validate(*program_id)->Err_0),
        accounts.spec_validate(*program_id) is Ok ==> {
            &&& (r is Ok <==> is_token_program(accounts.token_program))
            &&& r matches Err(e) ==> e == Rejection::<ErrorCode>::Account(AccountError::IncorrectProgramId)
        },
        r matches Ok(ix) ==> is_hooked_transfer(ix, accounts.token_program, accounts.user_token_account.key, accounts.mint.key,
            accounts.vault_token_account.key, accounts.user.key, amount, accounts.mint.decimals, accounts.remaining_accounts@),
        r matches Ok(_) ==> accounts.user.is_signer && (accounts.user_entry.data matches Some(e) && e.user == accounts.user.key),
{
    accounts.validate(program_id)?;
    accounts.handler(amount)
}

/// Accounts of `withdraw`, with the extra accounts for the transfer hook.
#[derive(Debug)]
pub struct Withdraw {
    pub user: Signer,
    pub vault: ProgramAccount<Vault>,
    pub user_entry: ProgramAccount<WhitelistEntry>,
    pub mint: Mint,
    pub user_token_account: TokenAccount,
    pub vault_token_account: TokenAccount,
    pub token_program: Pubkey,
    pub remaining_accounts: Vec<RemainingAccount>,
}

impl Withdraw {
    pub open spec fn spec_validate(self, program_id: Pubkey) -> Result<(), Rejection<ErrorCode>> {
        spec_check_transfer_accounts(self.user, self.vault, self.user_entry, self.mint, self.user_token_account, self.vault_token_account, self.token_program, program_id)
    }

    pub fn validate(&self, program_id: &Pubkey) -> (r: Result<(), Rejection<ErrorCode>>)
        ensures
            r == self.spec_validate(*program_id),
    {
        check_transfer_accounts(&self.user, &self.vault, &self.user_entry, &self.mint, &self.user_token_account, &self.vault_token_account, &self.token_program, program_id)
    }

    /// Refuses to withdraw more than the entry records; otherwise the
    /// transfer of `amount` from the vault's token account to the user's,
    /// signed by the vault, with the hook's extra accounts appended. Once it
    /// has run, `finish` records the amount.
    pub fn handler(&self, amount: u64) -> (r: Result<SignedInstruction, Rejection<ErrorCode>>)
        requires
            self.vault.data is Some,
            self.user_entry.data is Some,
        ensures
            amount > self.user_entry.data->0.amount ==> r == Err::<SignedInstruction, Rejection<ErrorCode>>(Rejection::Program(ErrorCode::InsufficientDeposit)),
            amount <= self.user_entry.data->0.amount ==> {
                &&& (r is Ok <==> is_token_program(self.token_program))
                &&& r matches Err(e) ==> e == Rejection::<ErrorCode>::Account(AccountError::IncorrectProgramId)
            },
            r matches Ok(s) ==> {
                &&& is_hooked_transfer(s.instruction, self.token_program, self.vault_token_account.key, self.mint.key,
                    self.user_token_account.key, self.vault.key, amount, self.mint.decimals, self.remaining_accounts@)
                &&& seeds_view(s.signer_seeds@) == seeds_with_bump(vault_seeds(), self.vault.data->0.bump)
            },
    {
        let recorded = self.user_entry.data.unwrap().amount;
        let bump = self.vault.data.unwrap().bump;
        if recorded < amount {
            return Err(Rejection::Program(ErrorCode::InsufficientDeposit));
        }
        let signer_seeds = make_vault_signer_seeds(bump);
        match hooked_transfer_checked(&self.token_program, &self.vault_token_account.key, &self.mint.key,
            &self.user_token_account.key, &self.vault.key, amount, self.mint.decimals, &self.remaining_accounts) {
            Ok(instruction) => Ok(SignedInstruction { instruction, signer_seeds }),
            Err(e) => Err(Rejection::Account(e)),
        }
    }

    /// Settles the withdrawal with the transfer's outcome: where the transfer
    /// failed with a program error, the withdrawal fails with it and the
    /// entry is unchanged; where it succeeded, the entry records `amount`
    /// less. The handler has refused an amount above the recorded one.
    pub fn finish(&mut self, amount: u64, transfer: Result<(), u64>) -> (r: Result<(), Rejection<ErrorCode>>)
        requires
            old(self).user_entry.data is Some,
            amount <= old(self).user_entry.data->0.amount,
        ensures
            transfer matches Err(code) ==> r == Err::<(), Rejection<ErrorCode>>(Rejection::Account(AccountError::Failed(code)))
                && *final(self) == *old(self),
            transfer is Ok ==> r is Ok
                && final(self).user_entry.data == Some(old(self).user_entry.data->0.spec_record_withdrawal(amount))
                && final(self).user_entry.key == old(self).user_entry.key
                && final(self).user_entry.lamports == old(self).user_entry.lamports
                && final(self).user == old(self).user
                && final(self).vault == old(self).vault
                && final(self).mint == old(self).mint
                && final(self).user_token_account == old(self).user_token_account
                && final(self).vault_token_account == old(self).vault_token_account
                && final(self).token_program == old(self).token_program
                && final(self).remaining_accounts@ == old(self).remaining_accounts@,
    {
        match transfer {
            Err(code) => Err(Rejection::Account(AccountError::Failed(code))),
            Ok(()) => {
                let mut entry = self.user_entry.data.unwrap();
                entry.record_withdrawal(amount);
                self.user_entry.data = Some(entry);
                Ok(())
            },
        }
    }
}

/// A whitelisted user withdraws `amount` from the vault: the accounts are
/// checked, no more than the entry records may leave, then the transfer out
/// of the vault is built. Only a user who signs, against their own entry and
/// to their own token account, gets that far.
pub fn withdraw(program_id: &Pubkey, accounts: &Withdraw, amount: u64) -> (r: Result<SignedInstruction, Rejection<ErrorCode>>)
    ensures
        accounts.spec_validate(*program_id) is Err ==> r == Err::<SignedInstruction, Rejection<ErrorCode>>(accounts.spec_validate(*program_id)->Err_0),
        accounts.spec_validate(*program_id) is Ok && amount > accounts.user_entry.data->0.amount
            ==> r == Err::<SignedInstruction, Rejection<ErrorCode>>(Rejection::Program(ErrorCode::InsufficientDeposit)),
        accounts.spec_validate(*program_id) is Ok && amount <= accounts.user_entry.data->0.amount ==> {
            &&& (r is Ok <==> is_token_program(accounts.token_program))
            &&& r matches Err(e) ==> e == Rejection::<ErrorCode>::Account(AccountError::IncorrectProgramId)
        },
        r matches Ok(s) ==> {
            &&& is_hooked_transfer(s.instruction, accounts.token_program, accounts.vault_token_account.key, accounts.mint.key,
                accounts.user_token_account.key, accounts.vault.key, amount, accounts.mint.decimals, accounts.remaining_accounts@)
            &&& seeds_view(s.signer_seeds@) == seeds_with_bump(vault_seeds(), accounts.vault.data->0.bump)
            &&& accounts.user.is_signer
            &&& accounts.user_entry.data->0.user == accounts.user.key
            &&& accounts.user_token_account.owner == accounts.user.key
            &&& amount <= accounts.user_entry.data->0.amount
        },
        r matches Ok(s) ==> derived_address(seeds_view(s.signer_seeds@), program_id.bytes@) == Some(accounts.vault.key.bytes@),
{
    accounts.validate(program_id)?;
    accounts.handler(amount)
}

// --------------------------------------------------------------------- laws

/// The vault is initialized once: after a first initialization passed its
/// checks and the vault account was created, a second initialization with
/// the same accounts, now that the vault exists, is refused with
/// `AccountAlreadyInUse` before anything is created or recorded.
pub proof fn lemma_vault_initialized_once(program_id: Pubkey, first: InitializeVault, second: InitializeVault, stored: Vault)
    requires
        first.spec_validate(program_id) is Ok,
        second.admin == first.admin,
        second.mint == first.mint,
        second.vault_token_account == first.vault_token_account,
        second.token_program == first.token_program,
        second.associated_token_program == first.associated_token_program,
        second.system_program == first.system_program,
        second.vault.key == first.vault.key,
        second.vault.is_writable == first.vault.is_writable,
        second.vault.data == Some(stored),
    ensures
        second.spec_validate(program_id) == Err::<InitializeVaultBumps, Rejection<ErrorCode>>(Rejection::Account(AccountError::AccountAlreadyInUse)),
{
}

/// Only the vault's admin, signing, gets past the account checks of the
/// admin instructions: adding to and removing from the whitelist, and
/// minting.
pub proof fn lemma_only_admin_manages(
    program_id: Pubkey,
    user: Pubkey,
    add: AddToWhitelist,
    remove: RemoveFromWhitelist,
    mint: MintToUser,
)
    ensures
        add.spec_validate(program_id, user) is Ok ==> (add.admin.is_signer && add.vault.data is Some && add.vault.data->0.admin == add.admin.key),
        remove.spec_validate(program_id, user) is Ok ==> (remove.admin.is_signer && remove.vault.data is Some && remove.vault.data->0.admin == remove.admin.key),
        mint.spec_validate(program_id) is Ok ==> (mint.admin.is_signer && mint.vault.data is Some && mint.vault.data->0.admin == mint.admin.key),
{
}

/// New supply comes only from `mint_to_user`: the instructions that deposits
/// and withdrawals hand to the token program are transfers, never mints,
/// and `mint_to_user` gets past its checks only for the vault's admin,
/// signing, minting the vault's mint to a token account of a recipient who
/// has a whitelist entry of their own.
pub proof fn lemma_only_mint_to_user_mints(
    ix: Instruction,
    token_program: Pubkey,
    source: Pubkey,
    mint: Pubkey,
    destination: Pubkey,
    authority: Pubkey,
    amount: u64,
    decimals: u8,
    remaining: Seq<RemainingAccount>,
    minted: u64,
    program_id: Pubkey,
    m: MintToUser,
)
    requires
        is_hooked_transfer(ix, token_program, source, mint, destination, authority, amount, decimals, remaining),
    ensures
        ix.data@[0] == 12,
        ix.data@ != mint_to_data(minted),
        m.spec_validate(program_id) is Ok ==> m.admin.is_signer && m.admin.key == m.vault.data->0.admin,
        m.spec_validate(program_id) is Ok ==> {
            &&& m.mint.key == m.vault.data->0.mint
            &&& m.recipient_token_account.mint == m.mint.key
            &&& m.recipient_token_account.owner == m.recipient
            &&& m.recipient_entry.data matches Some(e) && e.user == m.recipient
        },
{
    assert(ix.data@[0] == 12u8);
    assert(mint_to_data(minted)[0] == 7u8);
}

/// An account that did not sign is refused first, whatever else holds:
/// every vault instruction answers `AccountNotSigner`.
pub proof fn lemma_unsigned_refused(
    program_id: Pubkey,
    user: Pubkey,
    init: InitializeVault,
    add: AddToWhitelist,
    remove: RemoveFromWhitelist,
    mint: MintToUser,
    d: Deposit,
    w: Withdraw,
)
    ensures
        !init.admin.is_signer ==> init.spec_validate(program_id) == Err::<InitializeVaultBumps, Rejection<ErrorCode>>(Rejection::Account(AccountError::AccountNotSigner)),
        !add.admin.is_signer ==> add.spec_validate(program_id, user) == Err::<AddToWhitelistBumps, Rejection<ErrorCode>>(Rejection::Account(AccountError::AccountNotSigner)),
        !remove.admin.is_signer ==> remove.spec_validate(program_id, user) == Err::<(), Rejection<ErrorCode>>(Rejection::Account(AccountError::AccountNotSigner)),
        !mint.admin.is_signer ==> mint.spec_validate(program_id) == Err::<(), Rejection<ErrorCode>>(Rejection::Account(AccountError::AccountNotSigner)),
        !d.user.is_signer ==> d.spec_validate(program_id) == Err::<(), Rejection<ErrorCode>>(Rejection::Account(AccountError::AccountNotSigner)),
        !w.user.is_signer ==> w.spec_validate(program_id) == Err::<(), Rejection<ErrorCode>>(Rejection::Account(AccountError::AccountNotSigner)),
{
}

/// Without a whitelist entry of the vault program in the entry account
/// (none there, another program's account, or data that is no entry), a
/// signing user can neither deposit nor withdraw, nor be minted to: the
/// account checks refuse with what reading the entry gives.
pub proof fn lemma_no_entry_no_access(program_id: Pubkey, d: Deposit, w: Withdraw, m: MintToUser)
    ensures
        d.user.is_signer && spec_check_account(d.vault, program_id) is Ok && spec_check_account(d.user_entry, program_id) is Err
            ==> d.spec_validate(program_id) == Err::<(), Rejection<ErrorCode>>(Rejection::Account(spec_check_account(d.user_entry, program_id)->Err_0)),
        w.user.is_signer && spec_check_account(w.vault, program_id) is Ok && spec_check_account(w.user_entry, program_id) is Err
            ==> w.spec_validate(program_id) == Err::<(), Rejection<ErrorCode>>(Rejection::Account(spec_check_account(w.user_entry, program_id)->Err_0)),
        m.admin.is_signer && spec_check_account(m.vault, program_id) is Ok && spec_check_account(m.recipient_entry, program_id) is Err
            ==> m.spec_validate(program_id) == Err::<(), Rejection<ErrorCode>>(Rejection::Account(spec_check_account(m.recipient_entry, program_id)->Err_0)),
        spec_check_account(d.user_entry, program_id) is Err ==> d.spec_validate(program_id) is Err,
        spec_check_account(w.user_entry, program_id) is Err ==> w.spec_validate(program_id) is Err,
        spec_check_account(m.recipient_entry, program_id) is Err ==> m.spec_validate(program_id) is Err,
{
}

/// The framework-level checks of a deposit or withdrawal before the entry's
/// contents are read: a signing, writable user; token accounts and mint owned
/// by a token program; a token program; four distinct mutable accounts; a
/// writable entry.
pub open spec fn transfer_prechecks(user: Signer, user_entry: ProgramAccount<WhitelistEntry>, mint: Mint,
    user_token_account: TokenAccount, vault_token_account: TokenAccount, token_program: Pubkey) -> bool {
    &&& user.is_signer && user.is_writable
    &&& is_token_program(mint.owner_program) && is_token_program(user_token_account.owner_program)
        && is_token_program(vault_token_account.owner_program)
    &&& is_token_program(token_program)
    &&& spec_check_distinct(seq![user_entry.key, mint.key, user_token_account.key, vault_token_account.key]) is Ok
    &&& user_entry.is_writable
}

/// An entry that belongs to someone else does not let a user through: where
/// the entry is at the right address but names another user, deposits and
/// withdrawals are refused with `NotWhitelisted`.
pub proof fn lemma_foreign_entry_refused(program_id: Pubkey, d: Deposit, w: Withdraw)
    ensures
        (transfer_prechecks(d.user, d.user_entry, d.mint, d.user_token_account, d.vault_token_account, d.token_program)
            && spec_check_account(d.vault, program_id) is Ok && spec_check_vault(d.vault, program_id) is Ok
            && spec_check_account(d.user_entry, program_id) is Ok
            && seeds_match(d.user_entry.key, whitelist_seeds(d.user.key), d.user_entry.data->0.bump, program_id)
            && d.user_entry.data->0.user != d.user.key)
            ==> d.spec_validate(program_id) == Err::<(), Rejection<ErrorCode>>(Rejection::Program(ErrorCode::NotWhitelisted)),
        (transfer_prechecks(w.user, w.user_entry, w.mint, w.user_token_account, w.vault_token_account, w.token_program)
            && spec_check_account(w.vault, program_id) is Ok && spec_check_vault(w.vault, program_id) is Ok
            && spec_check_account(w.user_entry, program_id) is Ok
            && seeds_match(w.user_entry.key, whitelist_seeds(w.user.key), w.user_entry.data->0.bump, program_id)
            && w.user_entry.data->0.user != w.user.key)
            ==> w.spec_validate(program_id) == Err::<(), Rejection<ErrorCode>>(Rejection::Program(ErrorCode::NotWhitelisted)),
{
}

/// A deposit and a withdrawal pass the same account checks: whoever may
/// deposit with a set of accounts may withdraw with them.
pub proof fn lemma_deposit_withdraw_same_gate(program_id: Pubkey, d: Deposit, w: Withdraw)
    requires
        d.user == w.user,
        d.vault == w.vault,
        d.user_entry == w.user_entry,
        d.mint == w.mint,
        d.user_token_account == w.user_token_account,
        d.vault_token_account == w.vault_token_account,
        d.token_program == w.token_program,
    ensures
        d.spec_validate(program_id) == w.spec_validate(program_id),
{
}

/// A user without a whitelist entry can neither deposit nor withdraw: where
/// no entry lives at the user's entry address, and every entry of the
/// program sits at its own user's entry address (as `add_to_whitelist`
/// creates them), the account checks refuse every deposit and withdrawal
/// the user signs, whatever entry account is passed.
pub proof fn lemma_no_entry_no_deposit(program_id: Pubkey, entry_address: Pubkey, d: Deposit, w: Withdraw)
    requires
        spec_check_canonical_seeds(entry_address, whitelist_seeds(d.user.key), program_id) is Ok,
        d.user_entry.key == entry_address ==> d.user_entry.data is None,
        d.user_entry.data matches Some(e) ==> spec_check_canonical_seeds(d.user_entry.key, whitelist_seeds(e.user), program_id) is Ok,
        w.user == d.user,
        w.user_entry == d.user_entry,
    ensures
        d.spec_validate(program_id) is Err,
        w.spec_validate(program_id) is Err,
{
    if d.spec_validate(program_id) is Ok || w.spec_validate(program_id) is Ok {
        assert(d.user_entry.key.bytes =~= entry_address.bytes);
    }
}

/// A user removed from the whitelist can be added again: where an entry was
/// created for `user`, then removed, the same signing admin can create it
/// anew at the same address, and the new entry records nothing.
pub proof fn lemma_removed_entry_can_be_readded(
    program_id: Pubkey,
    user: Pubkey,
    added: AddToWhitelist,
    removed: RemoveFromWhitelist,
    closed: RemoveFromWhitelist,
    again: AddToWhitelist,
)
    requires
        added.spec_validate(program_id, user) is Ok,
        removed.spec_validate(program_id, user) is Ok,
        removed.entry.key == added.entry.key,
        closed.entry.key == removed.entry.key,
        closed.entry.data is None,
        closed.admin == removed.admin,
        closed.vault == removed.vault,
        again.admin == closed.admin,
        again.vault == closed.vault,
        again.entry.key == closed.entry.key,
        again.entry.data is None,
        again.entry.owner.bytes@ == SYSTEM_PROGRAM_ID@,
        again.entry.is_writable,
        again.system_program.bytes@ == SYSTEM_PROGRAM_ID@,
    ensures
        again.spec_validate(program_id, user) is Ok,
        again.spec_validate(program_id, user)->Ok_0 == added.spec_validate(program_id, user)->Ok_0,
{
}

/// The entry after a run of recorded deposits, in order.
pub open spec fn after_deposits(entry: WhitelistEntry, amounts: Seq<u64>) -> WhitelistEntry
    decreases amounts.len(),
{
    if amounts.len() == 0 {
        entry
    } else {
        after_deposits(entry, amounts.drop_last()).spec_record_deposit(amounts.last())
    }
}

/// The sum of a run of amounts.
pub open spec fn total_of(amounts: Seq<u64>) -> int
    decreases amounts.len(),
{
    if amounts.len() == 0 {
        0
    } else {
        total_of(amounts.drop_last()) + amounts.last()
    }
}

/// A re-added user starts over: the entry that `add_to_whitelist` creates
/// records nothing, so after deposits totalling `total_of(amounts)` it
/// records exactly that total, and what was deposited before the removal no
/// longer counts. A withdrawal above that total is then refused with
/// `InsufficientDeposit`, as `withdraw` states.
pub proof fn lemma_readded_entry_counts_only_new_deposits(user: Pubkey, bump: u8, amounts: Seq<u64>)
    requires
        total_of(amounts) <= u64::MAX,
    ensures
        after_deposits(WhitelistEntry { user, amount: 0, bump }, amounts) == (WhitelistEntry { user, amount: total_of(amounts) as u64, bump }),
    decreases amounts.len(),
{
    if amounts.len() > 0 {
        lemma_total_of_nonneg(amounts.drop_last());
        lemma_readded_entry_counts_only_new_deposits(user, bump, amounts.drop_last());
    }
}

/// A re-added user withdraws only what was deposited since: where the entry
/// passed to `withdraw` is the empty entry that `add_to_whitelist` creates,
/// after deposits of `amounts`, it records their total, so any `amount`
/// above that total fails the guard, and `withdraw` answers
/// `InsufficientDeposit` where the account checks pass.
pub proof fn lemma_readded_user_withdraws_only_new_deposits(w: Withdraw, bump: u8, amounts: Seq<u64>, amount: u64)
    requires
        total_of(amounts) <= u64::MAX,
        w.user_entry.data == Some(after_deposits(WhitelistEntry { user: w.user.key, amount: 0, bump }, amounts)),
        amount > total_of(amounts),
    ensures
        w.user_entry.data->0.amount == total_of(amounts),
        amount > w.user_entry.data->0.amount,
{
    lemma_total_of_nonneg(amounts);
    lemma_readded_entry_counts_only_new_deposits(w.user.key, bump, amounts);
    assert(w.user_entry.data->0 == (WhitelistEntry { user: w.user.key, amount: total_of(amounts) as u64, bump }));
}

proof fn lemma_total_of_nonneg(amounts: Seq<u64>)
    ensures
        0 <= total_of(amounts),
    decreases amounts.len(),
{
    if amounts.len() > 0 {
        lemma_total_of_nonneg(amounts.drop_last());
    }
}

/// What the entries of a vault record in all.
pub open spec fn recorded_total(entries: Seq<WhitelistEntry>) -> int
    decreases entries.len(),
{
    if entries.len() == 0 {
        0
    } else {
        recorded_total(entries.drop_last()) + entries.last().amount
    }
}

proof fn lemma_total_update(entries: Seq<WhitelistEntry>, i: int, e: WhitelistEntry)
    requires
        0 <= i < entries.len(),
    ensures
        recorded_total(entries.update(i, e)) == recorded_total(entries) - entries[i].amount + e.amount,
    decreases entries.len(),
{
    let u = entries.update(i, e);
    if i == entries.len() - 1 {
        assert(u.drop_last() =~= entries.drop_last());
    } else {
        lemma_total_update(entries.drop_last(), i, e);
        assert(u.drop_last() =~= entries.drop_last().update(i, e));
    }
}

proof fn lemma_total_nonneg(entries: Seq<WhitelistEntry>)
    ensures
        0 <= recorded_total(entries),
    decreases entries.len(),
{
    if entries.len() > 0 {
        lemma_total_nonneg(entries.drop_last());
    }
}

proof fn lemma_entry_within_total(entries: Seq<WhitelistEntry>, i: int)
    requires
        0 <= i < entries.len(),
    ensures
        0 <= entries[i].amount <= recorded_total(entries),
        0 <= recorded_total(entries),
    decreases entries.len(),
{
    lemma_total_nonneg(entries.drop_last());
    if i < entries.len() - 1 {
        lemma_entry_within_total(entries.drop_last(), i);
        assert(entries.drop_last()[i] == entries[i]);
    }
}

proof fn lemma_total_remove(entries: Seq<WhitelistEntry>, i: int)
    requires
        0 <= i < entries.len(),
    ensures
        recorded_total(entries.remove(i)) == recorded_total(entries) - entries[i].amount,
    decreases entries.len(),
{
    if i == entries.len() - 1 {
        assert(entries.remove(i) =~= entries.drop_last());
    } else {
        lemma_total_remove(entries.drop_last(), i);
        assert(entries.remove(i).drop_last() =~= entries.drop_last().remove(i));
        assert(entries.remove(i).last() == entries.last());
        assert(entries.drop_last()[i] == entries[i]);
    }
}

/// A deposit keeps the vault backed. Let `entries` be the whitelist entries
/// of the vault program, the deposit's own entry among them at `i`, and let
/// them record no more than the vault's token balance. Where `deposit`'s
/// checks pass and the transfer of `amount` into the vault went through
/// (the token program refuses one that would overflow the vault's balance),
/// recording it cannot overflow the entry, so `finish` does not panic, and
/// afterwards the entries record no more than the vault's new balance.
pub proof fn lemma_deposit_keeps_vault_backed(program_id: Pubkey, d: Deposit, amount: u64, entries: Seq<WhitelistEntry>, i: int)
    requires
        d.spec_validate(program_id) is Ok,
        0 <= i < entries.len(),
        d.user_entry.data == Some(entries[i]),
        recorded_total(entries) <= d.vault_token_account.amount,
        d.vault_token_account.amount + amount <= u64::MAX,
    ensures
        d.user_entry.data->0.amount + amount <= u64::MAX,
        recorded_total(entries.update(i, d.user_entry.data->0.spec_record_deposit(amount))) <= d.vault_token_account.amount + amount,
{
    lemma_entry_within_total(entries, i);
    lemma_total_update(entries, i, entries[i].spec_record_deposit(amount));
}

/// A withdrawal keeps the vault backed. Let `entries` be the whitelist
/// entries of the vault program, the withdrawal's own entry among them at
/// `i`, and let them record no more than the vault's token balance. Where
/// `withdraw`'s checks and its guard pass, the vault holds at least `amount`,
/// and once the transfer has gone through and `finish` has recorded it, the
/// entries record no more than what is left in the vault.
pub proof fn lemma_withdrawal_keeps_vault_backed(program_id: Pubkey, w: Withdraw, amount: u64, entries: Seq<WhitelistEntry>, i: int)
    requires
        w.spec_validate(program_id) is Ok,
        amount <= w.user_entry.data->0.amount,
        0 <= i < entries.len(),
        w.user_entry.data == Some(entries[i]),
        recorded_total(entries) <= w.vault_token_account.amount,
    ensures
        amount <= w.vault_token_account.amount,
        recorded_total(entries.update(i, w.user_entry.data->0.spec_record_withdrawal(amount))) <= w.vault_token_account.amount - amount,
{
    lemma_entry_within_total(entries, i);
    lemma_total_update(entries, i, entries[i].spec_record_withdrawal(amount));
}

/// Withdrawing what was just deposited goes through and undoes the deposit.
/// Where `deposit` built the transfer of `amount` (its checks passed and the
/// token program is a token program) and `finish` recorded it, a withdrawal
/// of `amount` by the same user with the same accounts (the token accounts'
/// balances moved by the transfer) passes the same checks and the guard, so
/// `withdraw` builds its transfer, and recording it gives back the entry as
/// it was before the deposit.
pub proof fn lemma_withdraw_after_deposit(program_id: Pubkey, d: Deposit, w: Withdraw, amount: u64)
    requires
        d.spec_validate(program_id) is Ok,
        is_token_program(d.token_program),
        d.user_entry.data->0.amount + amount <= u64::MAX,
        w.user == d.user,
        w.vault == d.vault,
        w.user_entry == (ProgramAccount { data: Some(d.user_entry.data->0.spec_record_deposit(amount)), ..d.user_entry }),
        w.mint == d.mint,
        w.user_token_account == (TokenAccount { amount: w.user_token_account.amount, ..d.user_token_account }),
        w.vault_token_account == (TokenAccount { amount: w.vault_token_account.amount, ..d.vault_token_account }),
        w.token_program == d.token_program,
    ensures
        w.spec_validate(program_id) is Ok,
        is_token_program(w.token_program),
        amount <= w.user_entry.data->0.amount,
        w.user_entry.data->0.spec_record_withdrawal(amount) == d.user_entry.data->0,
{
}

/// Removing an entry keeps the vault backed: the remaining entries record no
/// more than before, while the vault's tokens stay where they are.
pub proof fn lemma_removal_keeps_vault_backed(entries: Seq<WhitelistEntry>, i: int, balance: u64)
    requires
        0 <= i < entries.len(),
        recorded_total(entries) <= balance,
    ensures
        recorded_total(entries.remove(i)) <= balance,
{
    lemma_entry_within_total(entries, i);
    lemma_total_remove(entries, i);
}

/// The vault account only holds the configuration, which deposits and
/// withdrawals read: whether it is passed writable never changes their
/// account checks.
pub proof fn lemma_transfer_checks_ignore_vault_writability(program_id: Pubkey, d: Deposit, w: Withdraw, writable: bool)
    ensures
        (Deposit { vault: ProgramAccount { is_writable: writable, ..d.vault }, ..d }).spec_validate(program_id) == d.spec_validate(program_id),
        (Withdraw { vault: ProgramAccount { is_writable: writable, ..w.vault }, ..w }).spec_validate(program_id) == w.spec_validate(program_id),
{
}

/// The constraints a deposit or withdrawal declares on its accounts, as
/// plain facts: a signing, writable user; the vault and the user's entry
/// are accounts of the program holding data, the vault at the address of `[b"vault"]` and its bump, the entry at
/// the address of `[b"whitelist", user]` and its bump, writable and naming
/// the user; a writable mint that is the vault's; writable token accounts of
/// that mint, the user's and the vault's; the token accounts and mint owned by a token program, the
/// token program one, the mutable accounts distinct. Nothing is asked of the
/// vault account's writability.
pub open spec fn transfer_constraints_hold(
    user: Signer,
    vault: ProgramAccount<Vault>,
    user_entry: ProgramAccount<WhitelistEntry>,
    mint: Mint,
    user_token_account: TokenAccount,
    vault_token_account: TokenAccount,
    token_program: Pubkey,
    program_id: Pubkey,
) -> bool {
    &&& transfer_prechecks(user, user_entry, mint, user_token_account, vault_token_account, token_program)
    &&& spec_check_account(vault, program_id) is Ok
    &&& seeds_match(vault.key, vault_seeds(), vault.data->0.bump, program_id)
    &&& spec_check_account(user_entry, program_id) is Ok
    &&& seeds_match(user_entry.key, whitelist_seeds(user.key), user_entry.data->0.bump, program_id)
    &&& user_entry.data->0.user == user.key
    &&& mint.is_writable && mint.key == vault.data->0.mint
    &&& user_token_account.is_writable && user_token_account.mint == mint.key && user_token_account.owner == user.key
    &&& vault_token_account.is_writable && vault_token_account.mint == mint.key && vault_token_account.owner == vault.key
}

/// A whitelisted user whose deposit or withdrawal meets every declared
/// constraint gets through the account checks, the vault account passed
/// read-only or not; and whoever gets through meets them all.
pub proof fn lemma_transfer_accounts_accepted(program_id: Pubkey, d: Deposit, w: Withdraw)
    ensures
        d.spec_validate(program_id) is Ok <==> transfer_constraints_hold(d.user, d.vault, d.user_entry, d.mint,
            d.user_token_account, d.vault_token_account, d.token_program, program_id),
        w.spec_validate(program_id) is Ok <==> transfer_constraints_hold(w.user, w.vault, w.user_entry, w.mint,
            w.user_token_account, w.vault_token_account, w.token_program, program_id),
{
}

/// Minting goes to the recipient's own entry: `mint_to_user` gets through
/// its checks only where the entry lives at the address of
/// `[b"whitelist", recipient]` and its bump and names the recipient, and
/// the token account holds the vault's mint and belongs to the recipient;
/// and it does get through for any recipient, the admin or another user,
/// once every declared constraint holds.
pub proof fn lemma_mint_to_recipient_entry(program_id: Pubkey, m: MintToUser)
    ensures
        m.spec_validate(program_id) is Ok ==> {
            &&& m.recipient_entry.data matches Some(e)
            &&& seeds_match(m.recipient_entry.key, whitelist_seeds(m.recipient), e.bump, program_id)
            &&& e.user == m.recipient
            &&& m.recipient_token_account.mint == m.vault.data->0.mint
            &&& m.recipient_token_account.owner == m.recipient
        },
        ({
            &&& m.admin.is_signer && m.admin.is_writable
            &&& spec_check_account(m.vault, program_id) is Ok
            &&& seeds_match(m.vault.key, vault_seeds(), m.vault.data->0.bump, program_id)
            &&& m.admin.key == m.vault.data->0.admin
            &&& spec_check_account(m.recipient_entry, program_id) is Ok
            &&& seeds_match(m.recipient_entry.key, whitelist_seeds(m.recipient), m.recipient_entry.data->0.bump, program_id)
            &&& m.recipient_entry.data->0.user == m.recipient
            &&& is_token_program(m.mint.owner_program) && is_token_program(m.recipient_token_account.owner_program)
            &&& is_token_program(m.token_program)
            &&& m.mint.key != m.recipient_token_account.key
            &&& m.mint.is_writable && m.mint.key == m.vault.data->0.mint
            &&& m.recipient_token_account.is_writable
            &&& m.recipient_token_account.mint == m.mint.key && m.recipient_token_account.owner == m.recipient
        }) ==> m.spec_validate(program_id) is Ok,
{
    let keys = seq![m.mint.key, m.recipient_token_account.key];
    if m.mint.key != m.recipient_token_account.key {
        assert(distinct_keys(keys));
    }
}

/// The admin instructions only read the vault account: whether it is passed
/// writable never changes the checks of adding to or removing from the
/// whitelist, or of minting.
pub proof fn lemma_admin_checks_ignore_vault_writability(
    program_id: Pubkey,
    user: Pubkey,
    add: AddToWhitelist,
    remove: RemoveFromWhitelist,
    mint: MintToUser,
    writable: bool,
)
    ensures
        (AddToWhitelist { vault: ProgramAccount { is_writable: writable, ..add.vault }, ..add }).spec_validate(program_id, user)
            == add.spec_validate(program_id, user),
        (RemoveFromWhitelist { vault: ProgramAccount { is_writable: writable, ..remove.vault }, ..remove }).spec_validate(program_id, user)
            == remove.spec_validate(program_id, user),
        (MintToUser { vault: ProgramAccount { is_writable: writable, ..mint.vault }, ..mint }).spec_validate(program_id)
            == mint.spec_validate(program_id),
{
}

/// Adding `user` gets through the account checks exactly when the declared
/// constraints hold: the admin signs and is writable; the vault is an account
/// of the program at the address of `[b"vault"]` and its bump and names the
/// signer as admin; the system program is passed; the entry, writable and
/// not yet in use, is at the canonical address of `[b"whitelist", user]`,
/// whose bump is the one given back.
pub proof fn lemma_add_accounts_accepted(program_id: Pubkey, user: Pubkey, add: AddToWhitelist)
    ensures
        add.spec_validate(program_id, user) is Ok <==> {
            &&& add.admin.is_signer && add.admin.is_writable
            &&& spec_check_account(add.vault, program_id) is Ok
            &&& seeds_match(add.vault.key, vault_seeds(), add.vault.data->0.bump, program_id)
            &&& add.vault.data->0.admin == add.admin.key
            &&& add.system_program.bytes@ == SYSTEM_PROGRAM_ID@
            &&& spec_check_canonical_seeds(add.entry.key, whitelist_seeds(user), program_id) is Ok
            &&& add.entry.is_writable
            &&& add.entry.owner.bytes@ == SYSTEM_PROGRAM_ID@ && add.entry.data is None
        },
        add.spec_validate(program_id, user) matches Ok(b) ==> spec_check_canonical_seeds(add.entry.key, whitelist_seeds(user), program_id) == Ok::<u8, AccountError>(b.entry),
{
}

/// Removing `user` gets through the account checks exactly when the declared
/// constraints hold: the admin signs and is writable; the vault is an account
/// of the program at the address of `[b"vault"]` and its bump and names the
/// signer as admin; the entry is an account of the program, writable, at the
/// address of `[b"whitelist", user]` and its bump, and is not the admin.
pub proof fn lemma_remove_accounts_accepted(program_id: Pubkey, user: Pubkey, remove: RemoveFromWhitelist)
    ensures
        remove.spec_validate(program_id, user) is Ok <==> {
            &&& remove.admin.is_signer && remove.admin.is_writable
            &&& spec_check_account(remove.vault, program_id) is Ok
            &&& seeds_match(remove.vault.key, vault_seeds(), remove.vault.data->0.bump, program_id)
            &&& remove.vault.data->0.admin == remove.admin.key
            &&& spec_check_account(remove.entry, program_id) is Ok
            &&& seeds_match(remove.entry.key, whitelist_seeds(user), remove.entry.data->0.bump, program_id)
            &&& remove.entry.is_writable
            &&& remove.entry.key != remove.admin.key
        },
{
}

/// Initializing the vault gets through the checks made before its accounts
/// are created exactly when: the admin signs and is writable; the mint is
/// owned by a token program; the token program, the associated token program
/// and the system program are passed; the vault, writable and not yet in
/// use, is at the canonical address of `[b"vault"]`, whose bump is the one
/// given back; and the vault's token account, writable, is the vault's
/// associated address for the mint.
pub proof fn lemma_initialize_accounts_accepted(program_id: Pubkey, init: InitializeVault)
    ensures
        init.spec_validate(program_id) is Ok <==> {
            &&& init.admin.is_signer && init.admin.is_writable
            &&& is_token_program(init.mint.owner_program)
            &&& is_token_program(init.token_program)
            &&& init.associated_token_program.bytes@ == ASSOCIATED_TOKEN_PROGRAM_ID@
            &&& init.system_program.bytes@ == SYSTEM_PROGRAM_ID@
            &&& spec_check_canonical_seeds(init.vault.key, vault_seeds(), program_id) is Ok
            &&& init.vault.is_writable
            &&& init.vault.owner.bytes@ == SYSTEM_PROGRAM_ID@ && init.vault.data is None
            &&& spec_associated_token_address(init.vault.key, init.mint.key, init.token_program) == Some(init.vault_token_account.key.bytes@)
            &&& init.vault_token_account.is_writable
        },
        init.spec_validate(program_id) matches Ok(b) ==> spec_check_canonical_seeds(init.vault.key, vault_seeds(), program_id) == Ok::<u8, AccountError>(b.vault),
{
}

} // verus!
