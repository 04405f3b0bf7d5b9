//! A plain whitelist registry: one entry account per user, added and removed
//! by whoever signs and pays for them.
use vstd::prelude::*;
use crate::pubkey::{Pubkey, SYSTEM_PROGRAM_ID};
use crate::pda::seeds_view;
use crate::accounts::{
    AccountError, ProgramAccount, Signer, AccountCreation, seeds_match, seeds_with_bump,
    spec_check_canonical_seeds, check_canonical_seeds, check_seeds_with_bump, close_program_account,
    spec_check_program, check_program, spec_check_account, check_account, account_in_use, check_in_use,
};
use crate::vault::{whitelist_seeds, make_whitelist_seeds};

verus! {

/// A user's entry in the registry.
#[derive(Clone, Copy, Debug)]
pub struct Whitelist {
    pub user: Pubkey,
    pub bump: u8,
}

impl Whitelist {
    /// Account size: discriminator, user, bump.
    pub const SPACE: usize = 41;
}

/// The bumps found while checking `AddToWhitelist`'s accounts.
#[derive(Clone, Copy, Debug)]
pub struct AddToWhitelistBumps {
    pub entry: u8,
}

/// Accounts of `add_to_whitelist`: the admin signs and pays.
#[derive(Clone, Copy, Debug)]
pub struct AddToWhitelist {
    pub admin: Signer,
    pub entry: ProgramAccount<Whitelist>,
    pub system_program: Pubkey,
}

impl AddToWhitelist {
    /// In the framework's order: the admin must sign; the system program
    /// must be passed; the entry must be created at the address found for
    /// `[b"whitelist", user]`, which needs the admin and the entry passed
    /// writable, and fails where the entry exists.
    pub open spec fn spec_validate(self, program_id: Pubkey, user: Pubkey) -> Result<AddToWhitelistBumps, AccountError> {
        if !self.admin.is_signer {
            Err(AccountError::AccountNotSigner)
        } else if spec_check_program(self.system_program, SYSTEM_PROGRAM_ID@) is Err {
            Err(AccountError::InvalidProgramId)
        } else {
            match spec_check_canonical_seeds(self.entry.key, whitelist_seeds(user), program_id) {
                Err(e) => Err(e),
                Ok(bump) => if !self.admin.is_writable || !self.entry.is_writable {
                    Err(AccountError::PrivilegeEscalation)
                } else if account_in_use(self.entry) {
                    Err(AccountError::AccountAlreadyInUse)
                } else {
                    Ok(AddToWhitelistBumps { entry: bump })
                },
            }
        }
    }

    pub fn validate(&self, program_id: &Pubkey, user: &Pubkey) -> (r: Result<AddToWhitelistBumps, AccountError>)
        ensures
            r == self.spec_validate(*program_id, *user),
            r matches Ok(b) ==> seeds_match(self.entry.key, whitelist_seeds(*user), b.entry, *program_id),
    {
        if !self.admin.is_signer {
            return Err(AccountError::AccountNotSigner);
        }
        check_program(&self.system_program, SYSTEM_PROGRAM_ID)?;
        let seeds = make_whitelist_seeds(user);
        let bump = check_canonical_seeds(&self.entry.key, &seeds, program_id)?;
        if !self.admin.is_writable || !self.entry.is_writable {
            return Err(AccountError::PrivilegeEscalation);
        }
        if check_in_use(&self.entry) {
            return Err(AccountError::AccountAlreadyInUse);
        }
        Ok(AddToWhitelistBumps { entry: bump })
    }

    /// The admin pays for the entry account, created at its address with the
    /// entry's size and owned by the program, signed with
    /// `[b"whitelist", user, [bump]]`.
    pub fn creation(&self, program_id: &Pubkey, user: &Pubkey, bumps: &AddToWhitelistBumps) -> (r: AccountCreation)
        ensures
            r.payer == self.admin.key,
            r.account == self.entry.key,
            r.space == Whitelist::SPACE,
            r.owner == *program_id,
            seeds_view(r.signer_seeds@) == seeds_with_bump(whitelist_seeds(*user), bumps.entry),
    {
        let mut signer_seeds = make_whitelist_seeds(user);
        let ghost before = signer_seeds@;
        let mut b: Vec<u8> = Vec::new();
        b.push(bumps.entry);
        assert(b@ =~= seq![bumps.entry]);
        signer_seeds.push(b);
        assert(seeds_view(signer_seeds@) =~= seeds_with_bump(seeds_view(before), bumps.entry));
        AccountCreation { payer: self.admin.key, account: self.entry.key, space: Whitelist::SPACE, owner: *program_id, signer_seeds }
    }

    /// The new entry records the user and its bump.
    pub fn add_to_whitelist(&mut self, user: Pubkey, bumps: &AddToWhitelistBumps) -> (r: Result<Whitelist, AccountError>)
        ensures
            r == Ok::<Whitelist, AccountError>(Whitelist { user, bump: bumps.entry }),
    {
        Ok(Whitelist { user, bump: bumps.entry })
    }
}

/// Accounts of `remove_from_whitelist`, with the admin's lamports, which
/// receive the closed entry's rent.
#[derive(Clone, Copy, Debug)]
pub struct RemoveFromWhitelist {
    pub admin: Signer,
    pub admin_lamports: u64,
    pub entry: ProgramAccount<Whitelist>,
}

impl RemoveFromWhitelist {
    /// In the framework's order: the admin must sign; the entry must be an
    /// entry of this program; the admin must be writable; the entry must be
    /// at the address derived from `[b"whitelist", user]` and its bump, be
    /// writable, and not be the admin, into which it is closed.
    pub open spec fn spec_validate(self, program_id: Pubkey, user: Pubkey) -> Result<(), AccountError> {
        if !self.admin.is_signer {
            Err(AccountError::AccountNotSigner)
        } else if spec_check_account(self.entry, program_id) is Err {
            spec_check_account(self.entry, program_id)
        } else if !self.admin.is_writable {
            Err(AccountError::ConstraintMut)
        } else if !seeds_match(self.entry.key, whitelist_seeds(user), self.entry.data->0.bump, program_id) {
            Err(AccountError::ConstraintSeeds)
        } else if !self.entry.is_writable {
            Err(AccountError::ConstraintMut)
        } else if self.entry.key == self.admin.key {
            Err(AccountError::ConstraintClose)
        } else {
            Ok(())
        }
    }

    pub fn validate(&self, program_id: &Pubkey, user: &Pubkey) -> (r: Result<(), AccountError>)
        ensures
            r == self.spec_validate(*program_id, *user),
    {
        if !self.admin.is_signer {
            return Err(AccountError::AccountNotSigner);
        }
        check_account(&self.entry, program_id)?;
        if !self.admin.is_writable {
            return Err(AccountError::ConstraintMut);
        }
        let bump = self.entry.data.unwrap().bump;
        let seeds = make_whitelist_seeds(user);
        check_seeds_with_bump(&self.entry.key, &seeds, bump, program_id)?;
        if !self.entry.is_writable {
            return Err(AccountError::ConstraintMut);
        }
        if self.entry.key.equals(&self.admin.key) {
            return Err(AccountError::ConstraintClose);
        }
        Ok(())
    }

    /// The entry is closed into the admin: its lamports go to the admin and
    /// its data is gone. An entry at the admin's own address cannot be
    /// closed into it, and an admin balance that would overflow fails the
    /// removal; either way nothing changes.
    pub fn remove_from_whitelist(&mut self, _user: Pubkey) -> (r: Result<(), AccountError>)
        ensures
            old(self).entry.key == old(self).admin.key ==> r == Err::<(), AccountError>(AccountError::ConstraintClose),
            old(self).entry.key != old(self).admin.key && old(self).admin_lamports + old(self).entry.lamports > u64::MAX
                ==> r == Err::<(), AccountError>(AccountError::ArithmeticOverflow),
            old(self).entry.key != old(self).admin.key && old(self).admin_lamports + old(self).entry.lamports <= u64::MAX ==> r is Ok,
            r is Err ==> *final(self) == *old(self),
            r is Ok ==> {
                &&& final(self).entry.key == old(self).entry.key
                &&& final(self).entry.lamports == 0
                &&& final(self).entry.data is None
                &&& final(self).admin_lamports == old(self).admin_lamports + old(self).entry.lamports
                &&& final(self).admin == old(self).admin
            },
    {
        let admin = self.admin.key;
        close_program_account(&mut self.entry, &admin, &mut self.admin_lamports)
    }
}

/// A removed user can be added again: where an entry was created for `user`
/// and then closed by a removal, a signer can create it anew at the same
/// address with the same bump.
pub proof fn lemma_registry_readd(program_id: Pubkey, user: Pubkey, added: AddToWhitelist, closed: RemoveFromWhitelist, again: AddToWhitelist)
    requires
        added.spec_validate(program_id, user) is Ok,
        closed.entry.key == added.entry.key,
        closed.entry.data is None,
        closed.entry.owner.bytes@ == crate::pubkey::SYSTEM_PROGRAM_ID@,
        again.admin == added.admin,
        again.system_program == added.system_program,
        again.entry == closed.entry,
        closed.entry.is_writable == added.entry.is_writable,
    ensures
        again.spec_validate(program_id, user) == added.spec_validate(program_id, user),
{
}

/// Adding `user` to the registry gets through the checks exactly when the
/// admin signs and is writable, the system program is passed, and the entry,
/// writable and not yet in use, is at the canonical address of
/// `[b"whitelist", user]`; removing gets through exactly when the admin signs
/// and is writable and the entry is an account of the program, writable, at
/// the address of `[b"whitelist", user]` and its bump, and not the admin.
pub proof fn lemma_registry_accounts_accepted(program_id: Pubkey, user: Pubkey, add: AddToWhitelist, remove: RemoveFromWhitelist)
    ensures
        add.spec_validate(program_id, user) is Ok <==> {
            &&& add.admin.is_signer && add.admin.is_writable
            &&& add.system_program.bytes@ == SYSTEM_PROGRAM_ID@
            &&& spec_check_canonical_seeds(add.entry.key, whitelist_seeds(user), program_id) is Ok
            &&& add.entry.is_writable
            &&& add.entry.owner.bytes@ == SYSTEM_PROGRAM_ID@ && add.entry.data is None
        },
        remove.spec_validate(program_id, user) is Ok <==> {
            &&& remove.admin.is_signer && remove.admin.is_writable
            &&& spec_check_account(remove.entry, program_id) is Ok
            &&& seeds_match(remove.entry.key, whitelist_seeds(user), remove.entry.data->0.bump, program_id)
            &&& remove.entry.is_writable
            &&& remove.entry.key != remove.admin.key
        },
{
}

} // verus!
