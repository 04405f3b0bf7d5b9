//! The taking side of a timed escrow: a maker has locked `mint_a` tokens in a
//! vault owned by the escrow, asking `receive` `mint_b` tokens in return; a
//! taker may take the offer once the minimum time since it was made has
//! passed, paying the maker and receiving the vault's tokens, after which the
//! vault and the escrow are closed.
use vstd::prelude::*;
use crate::pubkey::{Pubkey, is_token_program, TOKEN_PROGRAM_ID, TOKEN_2022_PROGRAM_ID, ASSOCIATED_TOKEN_PROGRAM_ID, SYSTEM_PROGRAM_ID};
use crate::pda::{seeds_view, derived_address, spec_associated_token_address};
use crate::accounts::{
    AccountError, Rejection, ProgramAccount, TokenAccount, Mint, Signer, seeds_match, seeds_with_bump,
    check_seeds_with_bump, checked_associated_address, unpacked_token_account, read_token_account,
    close_program_account, spec_check_program, check_program, spec_check_token_interface,
    check_token_interface, spec_check_interface_owner, check_interface_owner, spec_check_distinct,
    check_distinct, spec_check_mut, spec_check_account, check_account,
};
use crate::cpi::{
    Instruction, is_transfer_checked, transfer_checked, close_account, meta, close_account_data,
    le_bytes, u64_le_bytes, is_ata_creation, create_associated_token_account_idempotent,
};

verus! {

/// The escrow's own errors.
#[derive(Clone, Copy, Debug, PartialEq, Eq, Structural)]
pub enum EscrowError {
    MinTimeNotPassed,
}

/// The escrow account as `take` reads it.
#[derive(Clone, Copy, Debug)]
pub struct Escrow {
    pub seed: u64,
    pub maker: Pubkey,
    pub mint_a: Pubkey,
    pub mint_b: Pubkey,
    pub receive: u64,
    pub bump: u8,
    pub created_at: i64,
}

/// The seed `b"escrow"`.
pub open spec fn escrow_seed() -> Seq<u8> {
    seq![101u8, 115u8, 99u8, 114u8, 111u8, 119u8]
}

/// The escrow's seeds: `[b"escrow", maker, seed.to_le_bytes()]`.
pub open spec fn escrow_seeds(maker: Pubkey, seed: u64) -> Seq<Seq<u8>> {
    seq![escrow_seed(), maker.bytes@, le_bytes(seed)]
}

/// Builds `[b"escrow", maker, seed.to_le_bytes()]`.
pub fn make_escrow_seeds(maker: &Pubkey, seed: u64) -> (r: Vec<Vec<u8>>)
    ensures
        seeds_view(r@) == escrow_seeds(*maker, seed),
        r@.len() == 3,
{
    let mut tag: Vec<u8> = Vec::new();
    tag.push(101u8);
    tag.push(115u8);
    tag.push(99u8);
    tag.push(114u8);
    tag.push(111u8);
    tag.push(119u8);
    assert(tag@ =~= escrow_seed());
    let maker_seed = maker.to_seed();
    let seed_bytes = u64_le_bytes(seed);
    let mut r: Vec<Vec<u8>> = Vec::new();
    r.push(tag);
    r.push(maker_seed);
    r.push(seed_bytes);
    assert(seeds_view(r@)[0] == escrow_seed());
    assert(seeds_view(r@)[1] == maker.bytes@);
    assert(seeds_view(r@)[2] == le_bytes(seed));
    assert(seeds_view(r@) =~= escrow_seeds(*maker, seed));
    r
}

/// An account that `take` reads without a type: its address and owning
/// program.
#[derive(Clone, Copy, Debug)]
pub struct UncheckedAccount {
    pub key: Pubkey,
    pub owner: Pubkey,
    pub is_writable: bool,
}

/// Accounts of `take`, with the maker's lamports, which receive the closed
/// escrow's rent. The taker's `mint_a` account and the maker's `mint_b`
/// account may not exist yet; `take` creates them.
#[derive(Clone, Copy, Debug)]
pub struct Take {
    pub taker: Signer,
    pub maker: Pubkey,
    pub maker_is_writable: bool,
    pub maker_lamports: u64,
    pub mint_a: Mint,
    pub mint_b: Mint,
    pub taker_ata_a: UncheckedAccount,
    pub taker_ata_b: TokenAccount,
    pub maker_ata_b: UncheckedAccount,
    pub escrow: ProgramAccount<Escrow>,
    pub vault: TokenAccount,
    pub associated_token_program: Pubkey,
    pub token_program: Pubkey,
    pub system_program: Pubkey,
}

/// What an `associated_token::mint, associated_token::authority` constraint
/// without a token program gives: the account must belong to the authority
/// and be at its associated address under the classic SPL token program.
pub open spec fn spec_check_associated(account: TokenAccount, authority: Pubkey, mint: Pubkey) -> Result<(), AccountError> {
    let classic = Pubkey { bytes: TOKEN_PROGRAM_ID };
    if account.owner != authority {
        Err(AccountError::ConstraintTokenOwner)
    } else {
        match spec_associated_token_address(authority, mint, classic) {
            None => Err(AccountError::NoViableBump),
            Some(expected) => if account.key.bytes@ == expected { Ok(()) } else { Err(AccountError::ConstraintAssociated) },
        }
    }
}

pub open spec fn account_rejection(r: Result<(), AccountError>) -> Result<(), Rejection<EscrowError>> {
    match r {
        Ok(()) => Ok(()),
        Err(e) => Err(Rejection::Account(e)),
    }
}

fn check_associated(account: &TokenAccount, authority: &Pubkey, mint: &Pubkey) -> (r: Result<(), AccountError>)
    ensures
        r == spec_check_associated(*account, *authority, *mint),
{
    if !account.owner.equals(authority) {
        return Err(AccountError::ConstraintTokenOwner);
    }
    let classic = Pubkey::new(TOKEN_PROGRAM_ID);
    match checked_associated_address(authority, mint, &classic) {
        None => Err(AccountError::NoViableBump),
        Some(expected) => if account.key.equals(&expected) {
            Ok(())
        } else {
            proof {
                if account.key.bytes@ == expected.bytes@ {
                    assert(account.key.bytes =~= expected.bytes);
                }
            }
            Err(AccountError::ConstraintAssociated)
        },
    }
}

impl Take {
    /// In the framework's order: the taker signs; the two mints and the
    /// taker's `mint_b` account are owned by a token program; the escrow is
    /// an escrow of this program; the vault is owned by a token program; the associated token
    /// program, the token program and the system program are passed; the
    /// taker's `mint_b` account, the escrow and the vault are three
    /// different accounts. Then: the taker, the maker and the taker's
    /// `mint_a` account are writable; the taker's `mint_b` account is the
    /// taker's associated account for `mint_b` and writable; the maker's
    /// `mint_b` account is writable; the escrow is at the address derived
    /// from its seeds and bump, writable, names this maker and these mints,
    /// and is not to be closed into itself; the vault is the escrow's
    /// associated account for `mint_a` and writable.
    pub open spec fn spec_validate(self, program_id: Pubkey) -> Result<(), Rejection<EscrowError>> {
        if !self.taker.is_signer {
            Err(Rejection::Account(AccountError::AccountNotSigner))
        } else if spec_check_interface_owner(self.mint_a.owner_program) is Err
            || spec_check_interface_owner(self.mint_b.owner_program) is Err
            || spec_check_interface_owner(self.taker_ata_b.owner_program) is Err {
            Err(Rejection::Account(AccountError::AccountOwnedByWrongProgram))
        } else if spec_check_account(self.escrow, program_id) is Err {
            Err(Rejection::Account(spec_check_account(self.escrow, program_id)->Err_0))
        } else if spec_check_interface_owner(self.vault.owner_program) is Err {
            Err(Rejection::Account(AccountError::AccountOwnedByWrongProgram))
        } else if spec_check_program(self.associated_token_program, ASSOCIATED_TOKEN_PROGRAM_ID@) is Err
            || spec_check_token_interface(self.token_program) is Err
            || spec_check_program(self.system_program, SYSTEM_PROGRAM_ID@) is Err {
            Err(Rejection::Account(AccountError::InvalidProgramId))
        } else if spec_check_distinct(seq![self.taker_ata_b.key, self.escrow.key, self.vault.key]) is Err {
            Err(Rejection::Account(AccountError::ConstraintDuplicateMutableAccount))
        } else if !self.taker.is_writable || !self.maker_is_writable || !self.taker_ata_a.is_writable {
            Err(Rejection::Account(AccountError::ConstraintMut))
        } else {
            let e = self.escrow.data->0;
            match spec_check_associated(self.taker_ata_b, self.taker.key, self.mint_b.key) {
                Err(err) => Err(Rejection::Account(err)),
                Ok(()) => if !self.taker_ata_b.is_writable || !self.maker_ata_b.is_writable {
                    Err(Rejection::Account(AccountError::ConstraintMut))
                } else if !seeds_match(self.escrow.key, escrow_seeds(self.maker, e.seed), e.bump, program_id) {
                    Err(Rejection::Account(AccountError::ConstraintSeeds))
                } else if !self.escrow.is_writable {
                    Err(Rejection::Account(AccountError::ConstraintMut))
                } else if e.maker != self.maker || e.mint_a != self.mint_a.key || e.mint_b != self.mint_b.key {
                    Err(Rejection::Account(AccountError::ConstraintHasOne))
                } else if self.escrow.key == self.maker {
                    Err(Rejection::Account(AccountError::ConstraintClose))
                } else {
                    match spec_check_associated(self.vault, self.escrow.key, self.mint_a.key) {
                        Err(err) => Err(Rejection::Account(err)),
                        Ok(()) => account_rejection(spec_check_mut(self.vault.is_writable)),
                    }
                },
            }
        }
    }

    pub fn validate(&self, program_id: &Pubkey) -> (r: Result<(), Rejection<EscrowError>>)
        ensures
            r == self.spec_validate(*program_id),
    {
        if !self.taker.is_signer {
            return Err(Rejection::Account(AccountError::AccountNotSigner));
        }
        if check_interface_owner(&self.mint_a.owner_program).is_err()
            || check_interface_owner(&self.mint_b.owner_program).is_err()
            || check_interface_owner(&self.taker_ata_b.owner_program).is_err() {
            return Err(Rejection::Account(AccountError::AccountOwnedByWrongProgram));
        }
        if let Err(err) = check_account(&self.escrow, program_id) {
            return Err(Rejection::Account(err));
        }
        let e = self.escrow.data.unwrap();
        if check_interface_owner(&self.vault.owner_program).is_err() {
            return Err(Rejection::Account(AccountError::AccountOwnedByWrongProgram));
        }
        if check_program(&self.associated_token_program, ASSOCIATED_TOKEN_PROGRAM_ID).is_err()
            || check_token_interface(&self.token_program).is_err()
            || check_program(&self.system_program, SYSTEM_PROGRAM_ID).is_err() {
            return Err(Rejection::Account(AccountError::InvalidProgramId));
        }
        let mut mutable: Vec<Pubkey> = Vec::new();
        mutable.push(self.taker_ata_b.key);
        mutable.push(self.escrow.key);
        mutable.push(self.vault.key);
        assert(mutable@ =~= seq![self.taker_ata_b.key, self.escrow.key, self.vault.key]);
        if check_distinct(&mutable).is_err() {
            return Err(Rejection::Account(AccountError::ConstraintDuplicateMutableAccount));
        }
        if !self.taker.is_writable || !self.maker_is_writable || !self.taker_ata_a.is_writable {
            return Err(Rejection::Account(AccountError::ConstraintMut));
        }
        match check_associated(&self.taker_ata_b, &self.taker.key, &self.mint_b.key) {
            Err(err) => { return Err(Rejection::Account(err)); },
            Ok(()) => {},
        }
        if !self.taker_ata_b.is_writable || !self.maker_ata_b.is_writable {
            return Err(Rejection::Account(AccountError::ConstraintMut));
        }
        let seeds = make_escrow_seeds(&self.maker, e.seed);
        match check_seeds_with_bump(&self.escrow.key, &seeds, e.bump, program_id) {
            Err(err) => { return Err(Rejection::Account(err)); },
            Ok(()) => {},
        }
        if !self.escrow.is_writable {
            return Err(Rejection::Account(AccountError::ConstraintMut));
        }
        if !e.maker.equals(&self.maker) || !e.mint_a.equals(&self.mint_a.key) || !e.mint_b.equals(&self.mint_b.key) {
            return Err(Rejection::Account(AccountError::ConstraintHasOne));
        }
        if self.escrow.key.equals(&self.maker) {
            return Err(Rejection::Account(AccountError::ConstraintClose));
        }
        match check_associated(&self.vault, &self.escrow.key, &self.mint_a.key) {
            Err(err) => Err(Rejection::Account(err)),
            Ok(()) => if self.vault.is_writable { Ok(()) } else { Err(Rejection::Account(AccountError::ConstraintMut)) },
        }
    }

    /// What the first half decides for an account: refused, or accepted, with
    /// `true` where the account is still to be created.
    pub open spec fn spec_check_associated_token_address(self, ata: UncheckedAccount, authority: Pubkey, mint: Pubkey) -> Result<bool, Rejection<EscrowError>> {
        match spec_associated_token_address(authority, mint, self.token_program) {
            None => Err(Rejection::Account(AccountError::NoViableBump)),
            Some(expected) => if ata.key.bytes@ == expected {
                Ok(ata.owner.bytes@ == SYSTEM_PROGRAM_ID@)
            } else {
                Err(Rejection::Account(AccountError::AccountNotAssociatedTokenAccount))
            },
        }
    }

    /// First half of making sure an associated token account is usable: the
    /// account must be at the authority's associated address for the mint
    /// under the instruction's token program. Where the account is still
    /// owned by the system program, gives the instruction that creates it,
    /// idempotently, paid by the taker.
    pub fn check_associated_token_address(&self, ata: &UncheckedAccount, authority: &Pubkey, mint: &Pubkey) -> (r: Result<Option<Instruction>, Rejection<EscrowError>>)
        ensures
            match self.spec_check_associated_token_address(*ata, *authority, *mint) {
                Err(e) => r == Err::<Option<Instruction>, Rejection<EscrowError>>(e),
                Ok(create) => r is Ok && (r->Ok_0 is Some <==> create),
            },
            r matches Ok(Some(ix)) ==> is_ata_creation(ix, self.taker.key, *authority, *mint, self.token_program, 1),
    {
        match checked_associated_address(authority, mint, &self.token_program) {
            None => Err(Rejection::Account(AccountError::NoViableBump)),
            Some(expected) => {
                if !ata.key.equals(&expected) {
                    proof {
                        if ata.key.bytes@ == expected.bytes@ {
                            assert(ata.key.bytes =~= expected.bytes);
                        }
                    }
                    return Err(Rejection::Account(AccountError::AccountNotAssociatedTokenAccount));
                }
                let system = Pubkey::new(crate::pubkey::SYSTEM_PROGRAM_ID);
                proof {
                    if ata.owner.bytes@ == crate::pubkey::SYSTEM_PROGRAM_ID@ {
                        assert(ata.owner.bytes =~= system.bytes);
                    }
                }
                if ata.owner.equals(&system) {
                    Ok(Some(create_associated_token_account_idempotent(&self.taker.key, authority, mint, &self.token_program)))
                } else {
                    Ok(None)
                }
            },
        }
    }

    /// What the second half gives for the account's owning program and data.
    pub open spec fn spec_check_associated_token_account(self, owner_program: Pubkey, data: Seq<u8>, authority: Pubkey, mint: Pubkey) -> Result<(), Rejection<EscrowError>> {
        match unpacked_token_account(data) {
            Err(code) => Err(Rejection::Account(AccountError::Failed(code))),
            Ok(found) => if found.0 != mint.bytes@ {
                Err(Rejection::Account(AccountError::ConstraintTokenMint))
            } else if found.1 != authority.bytes@ {
                Err(Rejection::Account(AccountError::ConstraintTokenOwner))
            } else if owner_program != self.token_program {
                Err(Rejection::Account(AccountError::ConstraintAssociatedTokenTokenProgram))
            } else {
                Ok(())
            },
        }
    }

    /// Second half, once the account exists: its data must be a token account
    /// of the mint belonging to the authority, and it must be owned by the
    /// instruction's token program.
    pub fn check_associated_token_account(&self, owner_program: &Pubkey, data: &Vec<u8>, authority: &Pubkey, mint: &Pubkey) -> (r: Result<(), Rejection<EscrowError>>)
        ensures
            r == self.spec_check_associated_token_account(*owner_program, data@, *authority, *mint),
    {
        match read_token_account(data) {
            Err(code) => Err(Rejection::Account(AccountError::Failed(code))),
            Ok(found) => {
                let (found_mint, found_owner) = found;
                if !found_mint.equals(mint) {
                    proof {
                        if found_mint.bytes@ == mint.bytes@ {
                            assert(found_mint.bytes =~= mint.bytes);
                        }
                    }
                    return Err(Rejection::Account(AccountError::ConstraintTokenMint));
                }
                if !found_owner.equals(authority) {
                    proof {
                        if found_owner.bytes@ == authority.bytes@ {
                            assert(found_owner.bytes =~= authority.bytes);
                        }
                    }
                    return Err(Rejection::Account(AccountError::ConstraintTokenOwner));
                }
                if !owner_program.equals(&self.token_program) {
                    return Err(Rejection::Account(AccountError::ConstraintAssociatedTokenTokenProgram));
                }
                Ok(())
            },
        }
    }

    /// The offer can be taken once `min_time_before_take` seconds have passed
    /// since it was made. The unlock time is an `i64` sum that the program
    /// stops on where it overflows, so `requires` leaves that out.
    pub fn validate_time(&self, now: i64, min_time_before_take: i64) -> (r: Result<(), Rejection<EscrowError>>)
        requires
            self.escrow.data is Some,
            i64::MIN <= self.escrow.data->0.created_at + min_time_before_take <= i64::MAX,
        ensures
            r is Ok <==> self.escrow.data->0.created_at + min_time_before_take <= now,
            r matches Err(e) ==> e == Rejection::Program(EscrowError::MinTimeNotPassed),
    {
        let created_at = self.escrow.data.unwrap().created_at;
        let unlock_time = created_at + min_time_before_take;
        if unlock_time <= now {
            Ok(())
        } else {
            Err(Rejection::Program(EscrowError::MinTimeNotPassed))
        }
    }

    /// The taker pays the maker: `receive` `mint_b` tokens from the taker's
    /// account to the maker's, signed by the taker.
    pub fn deposit(&self) -> (r: Result<Instruction, Rejection<EscrowError>>)
        requires
            self.escrow.data is Some,
        ensures
            r is Ok <==> is_token_program(self.token_program),
            r matches Err(e) ==> e == Rejection::<EscrowError>::Account(AccountError::IncorrectProgramId),
            r matches Ok(ix) ==> is_transfer_checked(ix, self.token_program, self.taker_ata_b.key, self.mint_b.key,
                self.maker_ata_b.key, self.taker.key, self.escrow.data->0.receive, self.mint_b.decimals),
    {
        let receive = self.escrow.data.unwrap().receive;
        match transfer_checked(&self.token_program, &self.taker_ata_b.key, &self.mint_b.key, &self.maker_ata_b.key,
            &self.taker.key, receive, self.mint_b.decimals) {
            Ok(ix) => Ok(ix),
            Err(e) => Err(Rejection::Account(e)),
        }
    }

    /// The escrow releases the vault: all of the vault's `mint_a` tokens go
    /// to the taker, signed with the escrow's seeds and bump. Once that
    /// transfer has run, `close_vault` gives the vault's close.
    pub fn withdraw_and_close_vault(&self) -> (r: Result<EscrowRelease, Rejection<EscrowError>>)
        requires
            self.escrow.data is Some,
        ensures
            r is Ok <==> is_token_program(self.token_program),
            r matches Err(e) ==> e == Rejection::<EscrowError>::Account(AccountError::IncorrectProgramId),
            r matches Ok(release) ==> {
                &&& seeds_view(release.signer_seeds@) == seeds_with_bump(escrow_seeds(self.maker, self.escrow.data->0.seed), self.escrow.data->0.bump)
                &&& is_transfer_checked(release.transfer, self.token_program, self.vault.key, self.mint_a.key,
                    self.taker_ata_a.key, self.escrow.key, self.vault.amount, self.mint_a.decimals)
            },
    {
        let seed = self.escrow.data.unwrap().seed;
        let bump = self.escrow.data.unwrap().bump;
        let mut signer_seeds = make_escrow_seeds(&self.maker, seed);
        let mut bump_seed: Vec<u8> = Vec::new();
        bump_seed.push(bump);
        assert(bump_seed@ =~= seq![bump]);
        signer_seeds.push(bump_seed);
        assert(seeds_view(signer_seeds@)[3] == seq![bump]);
        assert(seeds_view(signer_seeds@) =~= seeds_with_bump(escrow_seeds(self.maker, seed), bump));
        let transfer = match transfer_checked(&self.token_program, &self.vault.key, &self.mint_a.key, &self.taker_ata_a.key,
            &self.escrow.key, self.vault.amount, self.mint_a.decimals) {
            Ok(ix) => ix,
            Err(e) => { return Err(Rejection::Account(e)); },
        };
        Ok(EscrowRelease { signer_seeds, transfer })
    }

    /// Settles the release with the transfer's outcome: where the transfer
    /// out of the vault failed with a program error, the instruction fails
    /// with it and the vault is not closed; where it succeeded, the vault is
    /// closed with its rent going to the maker, signed by the escrow (with
    /// the seeds `withdraw_and_close_vault` gave).
    pub fn close_vault(&self, transfer: Result<(), u64>) -> (r: Result<Instruction, Rejection<EscrowError>>)
        ensures
            transfer matches Err(code) ==> r == Err::<Instruction, Rejection<EscrowError>>(Rejection::Account(AccountError::Failed(code))),
            transfer is Ok ==> (r is Ok <==> is_token_program(self.token_program)),
            transfer is Ok && r is Err ==> r == Err::<Instruction, Rejection<EscrowError>>(Rejection::Account(AccountError::IncorrectProgramId)),
            r matches Ok(close) ==> {
                &&& transfer is Ok
                &&& close.program_id == self.token_program
                &&& close.accounts@ == seq![meta(self.vault.key, false, true), meta(self.maker, false, true), meta(self.escrow.key, true, false)]
                &&& close.data@ == close_account_data()
            },
    {
        if let Err(code) = transfer {
            return Err(Rejection::Account(AccountError::Failed(code)));
        }
        match close_account(&self.token_program, &self.vault.key, &self.maker, &self.escrow.key) {
            Ok(ix) => Ok(ix),
            Err(e) => Err(Rejection::Account(e)),
        }
    }

    /// The associated token accounts that `take` makes sure of,
    /// in order, each with its authority and mint: the taker's `mint_a`
    /// account, then the maker's `mint_b` account.
    pub fn prepare_accounts(&self) -> (r: [(UncheckedAccount, Pubkey, Pubkey); 2])
        ensures
            r[0] == (self.taker_ata_a, self.taker.key, self.mint_a.key),
            r[1] == (self.maker_ata_b, self.maker, self.mint_b.key),
    {
        [(self.taker_ata_a, self.taker.key, self.mint_a.key), (self.maker_ata_b, self.maker, self.mint_b.key)]
    }
}

impl Take {
    /// After the handler, the escrow is closed into the maker: its lamports
    /// go to the maker and its data is gone. The account checks have
    /// refused an escrow at the maker's own address; a maker balance that
    /// would overflow fails the instruction and changes nothing.
    pub fn close_escrow(&mut self) -> (r: Result<(), Rejection<EscrowError>>)
        ensures
            old(self).escrow.key == old(self).maker ==> r == Err::<(), Rejection<EscrowError>>(Rejection::Account(AccountError::ConstraintClose)),
            old(self).escrow.key != old(self).maker && old(self).maker_lamports + old(self).escrow.lamports > u64::MAX
                ==> r == Err::<(), Rejection<EscrowError>>(Rejection::Account(AccountError::ArithmeticOverflow)),
            old(self).escrow.key != old(self).maker && old(self).maker_lamports + old(self).escrow.lamports <= u64::MAX ==> r is Ok,
            r is Err ==> *final(self) == *old(self),
            r is Ok ==> {
                &&& final(self).escrow.key == old(self).escrow.key
                &&& final(self).escrow.lamports == 0
                &&& final(self).escrow.data is None
                &&& final(self).maker_lamports == old(self).maker_lamports + old(self).escrow.lamports
                &&& final(self).maker == old(self).maker
                &&& final(self).taker == old(self).taker
                &&& final(self).vault == old(self).vault
            },
    {
        let maker = self.maker;
        match close_program_account(&mut self.escrow, &maker, &mut self.maker_lamports) {
            Ok(()) => Ok(()),
            Err(e) => Err(Rejection::Account(e)),
        }
    }
}

/// Where a `take` stands between the outside steps it waits for.
#[derive(Clone, Copy, Debug, PartialEq, Eq, Structural)]
pub enum TakeStage {
    /// Nothing has run yet.
    Start,
    /// The creation of associated token account `i` of `prepare_accounts` was
    /// handed out.
    Creating(usize),
    /// Associated token account `i` exists; its owner and data were asked for.
    Reading(usize),
    /// Both accounts are ready; the clock was asked for.
    Clock,
    /// The maker's payment was handed out.
    Paying,
    /// The release of the vault was handed out.
    Releasing,
    /// The vault's close was handed out.
    ClosingVault,
    /// The take is over: it failed, or only the escrow's close is left.
    Done,
}

/// What came back from the last step handed out.
#[derive(Debug)]
pub enum TakeEvent {
    /// The first call: nothing has come back yet.
    Begin,
    /// The outcome of an instruction that was run.
    Outcome(Result<(), u64>),
    /// An account's owning program and data, as read.
    Account { owner: Pubkey, data: Vec<u8> },
    /// The clock's unix timestamp.
    Now(i64),
}

/// What is to be done next.
#[derive(Debug)]
pub enum TakeAction {
    /// Run this instruction, signed by the taker, and report its outcome.
    Run(Instruction),
    /// Run the release's transfer, signed with its seeds, and report its outcome.
    Release(EscrowRelease),
    /// Run the vault's close, signed with the release's seeds, and report its outcome.
    CloseVault(Instruction),
    /// Read associated token account `i` of `prepare_accounts` and report it.
    ReadAccount(usize),
    /// Read the clock and report the time.
    ReadClock,
    /// Close the escrow into the maker (`close_escrow`); the take is done.
    CloseEscrow,
    /// The take fails with this error.
    Fail(Rejection<EscrowError>),
}

/// Whether `event` is what the step handed out at `stage` reports.
pub open spec fn take_event_fits(stage: TakeStage, event: TakeEvent) -> bool {
    match stage {
        TakeStage::Start => event is Begin,
        TakeStage::Creating(_) | TakeStage::Paying | TakeStage::Releasing | TakeStage::ClosingVault => event is Outcome,
        TakeStage::Reading(i) => event is Account && i < 2,
        TakeStage::Clock => event is Now,
        TakeStage::Done => false,
    }
}

impl Take {
    /// The associated token account `i` of `prepare_accounts`, with its
    /// authority and mint.
    pub open spec fn spec_prepare_step(self, i: usize) -> (UncheckedAccount, Pubkey, Pubkey) {
        if i == 0 {
            (self.taker_ata_a, self.taker.key, self.mint_a.key)
        } else {
            (self.maker_ata_b, self.maker, self.mint_b.key)
        }
    }

    /// What making sure of account `i` starts with: a refusal, its creation,
    /// or reading it where it exists.
    pub open spec fn spec_ensure_step(self, i: usize, r: (TakeStage, TakeAction)) -> bool {
        let (ata, authority, mint) = self.spec_prepare_step(i);
        match self.spec_check_associated_token_address(ata, authority, mint) {
            Err(e) => r == (TakeStage::Done, TakeAction::Fail(e)),
            Ok(create) => if create {
                &&& r.0 == TakeStage::Creating(i)
                &&& r.1 matches TakeAction::Run(ix) && is_ata_creation(ix, self.taker.key, authority, mint, self.token_program, 1)
            } else {
                r == (TakeStage::Reading(i), TakeAction::ReadAccount(i))
            },
        }
    }

    fn ensure_step(&self, i: usize) -> (r: (TakeStage, TakeAction))
        requires
            i < 2,
        ensures
            self.spec_ensure_step(i, r),
    {
        let steps = self.prepare_accounts();
        let (ata, authority, mint) = steps[i];
        match self.check_associated_token_address(&ata, &authority, &mint) {
            Err(e) => (TakeStage::Done, TakeAction::Fail(e)),
            Ok(Some(ix)) => (TakeStage::Creating(i), TakeAction::Run(ix)),
            Ok(None) => (TakeStage::Reading(i), TakeAction::ReadAccount(i)),
        }
    }
}

/// Takes the offer, one outside step at a time: given where the take stands
/// and what the last step reported, gives where it stands next and what to
/// do. In order: the accounts are checked; the taker's `mint_a` account and
/// the maker's `mint_b` account are made sure of (created where missing,
/// then read and checked); the unlock time is checked against the clock; the
/// maker is paid; the vault is released to the taker; only once that
/// transfer went through is the vault closed; then the escrow is closed into
/// the maker. Any refusal or failed instruction ends the take with its error.
/// The unlock time is an `i64` sum that the program stops on where it
/// overflows, so `requires` leaves that out at the clock step.
pub fn take(program_id: &Pubkey, accounts: &Take, min_time_before_take: i64, stage: TakeStage, event: TakeEvent) -> (r: (TakeStage, TakeAction))
    requires
        take_event_fits(stage, event),
        stage != TakeStage::Start ==> accounts.spec_validate(*program_id) is Ok,
        stage == TakeStage::Clock ==> i64::MIN <= accounts.escrow.data->0.created_at + min_time_before_take <= i64::MAX,
    ensures
        stage == TakeStage::Start ==> match accounts.spec_validate(*program_id) {
            Err(e) => r == (TakeStage::Done, TakeAction::Fail(e)),
            Ok(()) => accounts.spec_ensure_step(0, r),
        },
        stage matches TakeStage::Creating(i) ==> match event {
            TakeEvent::Outcome(Err(code)) => r == (TakeStage::Done, TakeAction::Fail(Rejection::Account(AccountError::Failed(code)))),
            _ => r == (TakeStage::Reading(i), TakeAction::ReadAccount(i)),
        },
        stage matches TakeStage::Reading(i) ==> match event {
            TakeEvent::Account { owner, data } => {
                let (_, authority, mint) = accounts.spec_prepare_step(i);
                match accounts.spec_check_associated_token_account(owner, data@, authority, mint) {
                    Err(e) => r == (TakeStage::Done, TakeAction::Fail(e)),
                    Ok(()) => if i == 0 {
                        accounts.spec_ensure_step(1, r)
                    } else {
                        r == (TakeStage::Clock, TakeAction::ReadClock)
                    },
                }
            },
            _ => true,
        },
        stage == TakeStage::Clock ==> match event {
            TakeEvent::Now(now) => if accounts.escrow.data->0.created_at + min_time_before_take <= now {
                &&& r.0 == TakeStage::Paying
                &&& r.1 matches TakeAction::Run(ix) && is_transfer_checked(ix, accounts.token_program, accounts.taker_ata_b.key,
                    accounts.mint_b.key, accounts.maker_ata_b.key, accounts.taker.key, accounts.escrow.data->0.receive, accounts.mint_b.decimals)
            } else {
                r == (TakeStage::Done, TakeAction::Fail(Rejection::Program(EscrowError::MinTimeNotPassed)))
            },
            _ => true,
        },
        stage == TakeStage::Paying ==> match event {
            TakeEvent::Outcome(Err(code)) => r == (TakeStage::Done, TakeAction::Fail(Rejection::Account(AccountError::Failed(code)))),
            _ => {
                &&& r.0 == TakeStage::Releasing
                &&& r.1 matches TakeAction::Release(release) && {
                    &&& seeds_view(release.signer_seeds@) == seeds_with_bump(escrow_seeds(accounts.maker, accounts.escrow.data->0.seed), accounts.escrow.data->0.bump)
                    &&& is_transfer_checked(release.transfer, accounts.token_program, accounts.vault.key, accounts.mint_a.key,
                        accounts.taker_ata_a.key, accounts.escrow.key, accounts.vault.amount, accounts.mint_a.decimals)
                }
            },
        },
        stage == TakeStage::Releasing ==> match event {
            TakeEvent::Outcome(Err(code)) => r == (TakeStage::Done, TakeAction::Fail(Rejection::Account(AccountError::Failed(code)))),
            _ => {
                &&& r.0 == TakeStage::ClosingVault
                &&& r.1 matches TakeAction::CloseVault(close) && {
                    &&& close.program_id == accounts.token_program
                    &&& close.accounts@ == seq![meta(accounts.vault.key, false, true), meta(accounts.maker, false, true), meta(accounts.escrow.key, true, false)]
                    &&& close.data@ == close_account_data()
                }
            },
        },
        stage == TakeStage::ClosingVault ==> match event {
            TakeEvent::Outcome(Err(code)) => r == (TakeStage::Done, TakeAction::Fail(Rejection::Account(AccountError::Failed(code)))),
            _ => r == (TakeStage::Done, TakeAction::CloseEscrow),
        },
{
    match stage {
        TakeStage::Start => {
            match accounts.validate(program_id) {
                Err(e) => (TakeStage::Done, TakeAction::Fail(e)),
                Ok(()) => accounts.ensure_step(0),
            }
        },
        TakeStage::Creating(i) => {
            match event {
                TakeEvent::Outcome(Err(code)) => (TakeStage::Done, TakeAction::Fail(Rejection::Account(AccountError::Failed(code)))),
                _ => (TakeStage::Reading(i), TakeAction::ReadAccount(i)),
            }
        },
        TakeStage::Reading(i) => {
            match event {
                TakeEvent::Account { owner, data } => {
                    let steps = accounts.prepare_accounts();
                    let (_, authority, mint) = steps[i];
                    match accounts.check_associated_token_account(&owner, &data, &authority, &mint) {
                        Err(e) => (TakeStage::Done, TakeAction::Fail(e)),
                        Ok(()) => if i == 0 {
                            accounts.ensure_step(1)
                        } else {
                            (TakeStage::Clock, TakeAction::ReadClock)
                        },
                    }
                },
                _ => {
                    proof { assert(false); }
                    (TakeStage::Done, TakeAction::ReadClock)
                },
            }
        },
        TakeStage::Clock => {
            match event {
                TakeEvent::Now(now) => {
                    match accounts.validate_time(now, min_time_before_take) {
                        Err(e) => (TakeStage::Done, TakeAction::Fail(e)),
                        Ok(()) => match accounts.deposit() {
                            Err(e) => (TakeStage::Done, TakeAction::Fail(e)),
                            Ok(ix) => (TakeStage::Paying, TakeAction::Run(ix)),
                        },
                    }
                },
                _ => {
                    proof { assert(false); }
                    (TakeStage::Done, TakeAction::ReadClock)
                },
            }
        },
        TakeStage::Paying => {
            match event {
                TakeEvent::Outcome(Err(code)) => (TakeStage::Done, TakeAction::Fail(Rejection::Account(AccountError::Failed(code)))),
                _ => match accounts.withdraw_and_close_vault() {
                    Err(e) => (TakeStage::Done, TakeAction::Fail(e)),
                    Ok(release) => (TakeStage::Releasing, TakeAction::Release(release)),
                },
            }
        },
        TakeStage::Releasing => {
            let transfer = match event {
                TakeEvent::Outcome(t) => t,
                _ => {
                    proof { assert(false); }
                    Ok(())
                },
            };
            match accounts.close_vault(transfer) {
                Err(e) => (TakeStage::Done, TakeAction::Fail(e)),
                Ok(close) => (TakeStage::ClosingVault, TakeAction::CloseVault(close)),
            }
        },
        TakeStage::ClosingVault => {
            match event {
                TakeEvent::Outcome(Err(code)) => (TakeStage::Done, TakeAction::Fail(Rejection::Account(AccountError::Failed(code)))),
                _ => (TakeStage::Done, TakeAction::CloseEscrow),
            }
        },
        TakeStage::Done => {
            proof { assert(false); }
            (TakeStage::Done, TakeAction::CloseEscrow)
        },
    }
}

/// The escrow's signer seeds and the token transfer that empties the vault
/// into the taker's account.
#[derive(Debug)]
pub struct EscrowRelease {
    pub signer_seeds: Vec<Vec<u8>>,
    pub transfer: Instruction,
}

/// The escrow can sign for its vault: where `take`'s accounts pass the
/// checks, the seeds that release the vault derive the escrow's address.
pub proof fn lemma_release_signed_by_escrow(program_id: Pubkey, take: Take, release: EscrowRelease)
    requires
        take.spec_validate(program_id) is Ok,
        seeds_view(release.signer_seeds@) == seeds_with_bump(escrow_seeds(take.maker, take.escrow.data->0.seed), take.escrow.data->0.bump),
    ensures
        derived_address(seeds_view(release.signer_seeds@), program_id.bytes@) == Some(take.escrow.key.bytes@),
{
}

/// Making sure of an associated token account a second time changes
/// nothing: once the first pass accepted the account, it was created and
/// its data passed the second half, a second pass over the same account,
/// now owned by the token program, finds nothing to create, so no
/// instruction goes out, and accepts the same data again.
pub proof fn lemma_ata_check_idempotent(
    program_id: Pubkey,
    take: Take,
    ata: UncheckedAccount,
    authority: Pubkey,
    mint: Pubkey,
    owner_program: Pubkey,
    data: Seq<u8>,
)
    requires
        take.spec_validate(program_id) is Ok,
        take.spec_check_associated_token_address(ata, authority, mint) is Ok,
        take.spec_check_associated_token_account(owner_program, data, authority, mint) is Ok,
    ensures
        take.spec_check_associated_token_address(UncheckedAccount { owner: owner_program, ..ata }, authority, mint) == Ok::<bool, Rejection<EscrowError>>(false),
        take.spec_check_associated_token_account(owner_program, data, authority, mint) is Ok,
{
    assert(owner_program == take.token_program);
    assert(is_token_program(take.token_program));
    if owner_program.bytes@ == SYSTEM_PROGRAM_ID@ {
        assert(owner_program.bytes@[0] == 0u8);
        assert(TOKEN_2022_PROGRAM_ID@[0] != 0u8);
        assert(TOKEN_PROGRAM_ID@[0] != 0u8);
    }
}

/// Whoever its authority is, a token account that `take` makes sure of, at
/// the authority's associated address for the mint and still owned by the
/// system program, is to be created; one at that address owned by another
/// program is only read; one elsewhere is refused.
pub proof fn lemma_missing_associated_account_is_created(take: Take, ata: UncheckedAccount, authority: Pubkey, mint: Pubkey)
    requires
        spec_associated_token_address(authority, mint, take.token_program) is Some,
    ensures
        spec_associated_token_address(authority, mint, take.token_program) == Some(ata.key.bytes@) ==> {
            &&& ata.owner.bytes@ == SYSTEM_PROGRAM_ID@ ==> take.spec_check_associated_token_address(ata, authority, mint) == Ok::<bool, Rejection<EscrowError>>(true)
            &&& ata.owner.bytes@ != SYSTEM_PROGRAM_ID@ ==> take.spec_check_associated_token_address(ata, authority, mint) == Ok::<bool, Rejection<EscrowError>>(false)
        },
        spec_associated_token_address(authority, mint, take.token_program) != Some(ata.key.bytes@) ==>
            take.spec_check_associated_token_address(ata, authority, mint)
                == Err::<bool, Rejection<EscrowError>>(Rejection::Account(AccountError::AccountNotAssociatedTokenAccount)),
{
}

/// Each step of making sure of the two token accounts of a `take` (the
/// taker's `mint_a` account, then the maker's `mint_b` account) hands out
/// the idempotent creation of the account, paid by the taker, where the
/// account is at its associated address and still owned by the system
/// program, and otherwise goes on to read it.
pub proof fn lemma_take_creates_missing_accounts(take: Take, i: usize, r: (TakeStage, TakeAction))
    requires
        i < 2,
        take.spec_ensure_step(i, r),
    ensures
        ({
            let ata = if i == 0 { take.taker_ata_a } else { take.maker_ata_b };
            let authority = if i == 0 { take.taker.key } else { take.maker };
            let mint = if i == 0 { take.mint_a.key } else { take.mint_b.key };
            spec_associated_token_address(authority, mint, take.token_program) == Some(ata.key.bytes@) ==> if ata.owner.bytes@ == SYSTEM_PROGRAM_ID@ {
                &&& r.0 == TakeStage::Creating(i)
                &&& r.1 matches TakeAction::Run(ix) && is_ata_creation(ix, take.taker.key, authority, mint, take.token_program, 1)
            } else {
                r == (TakeStage::Reading(i), TakeAction::ReadAccount(i))
            }
        }),
{
}

/// `take`'s accounts get through their checks exactly when the declared
/// constraints hold: the taker signs and is writable; the maker and the
/// taker's `mint_a` account are writable; the mints, the taker's `mint_b`
/// account and the vault are owned by a token program; the escrow is an
/// account of the program, writable, at the address of `[b"escrow", maker,
/// seed]` and its bump, naming this maker and these mints, and not the
/// maker's own address; the associated token program, the token program and
/// the system program are passed; the taker's `mint_b` account belongs to the
/// taker, is at its associated address for `mint_b` and is writable; the
/// maker's `mint_b` account is writable; the vault belongs to the escrow, is
/// at its associated address for `mint_a` and is writable; the taker's
/// `mint_b` account, the escrow and the vault are different accounts. The
/// mints are only read: their writability never matters.
pub proof fn lemma_take_accounts_accepted(program_id: Pubkey, take: Take, mint_a_writable: bool, mint_b_writable: bool)
    ensures
        take.spec_validate(program_id) is Ok <==> {
            &&& take.taker.is_signer && take.taker.is_writable
            &&& take.maker_is_writable && take.taker_ata_a.is_writable
            &&& is_token_program(take.mint_a.owner_program) && is_token_program(take.mint_b.owner_program)
            &&& is_token_program(take.taker_ata_b.owner_program) && is_token_program(take.vault.owner_program)
            &&& spec_check_account(take.escrow, program_id) is Ok
            &&& take.associated_token_program.bytes@ == ASSOCIATED_TOKEN_PROGRAM_ID@
            &&& is_token_program(take.token_program)
            &&& take.system_program.bytes@ == SYSTEM_PROGRAM_ID@
            &&& spec_check_distinct(seq![take.taker_ata_b.key, take.escrow.key, take.vault.key]) is Ok
            &&& spec_check_associated(take.taker_ata_b, take.taker.key, take.mint_b.key) is Ok
            &&& take.taker_ata_b.is_writable && take.maker_ata_b.is_writable
            &&& seeds_match(take.escrow.key, escrow_seeds(take.maker, take.escrow.data->0.seed), take.escrow.data->0.bump, program_id)
            &&& take.escrow.is_writable
            &&& take.escrow.data->0.maker == take.maker
            &&& take.escrow.data->0.mint_a == take.mint_a.key && take.escrow.data->0.mint_b == take.mint_b.key
            &&& take.escrow.key != take.maker
            &&& spec_check_associated(take.vault, take.escrow.key, take.mint_a.key) is Ok
            &&& take.vault.is_writable
        },
        (Take { mint_a: Mint { is_writable: mint_a_writable, ..take.mint_a }, mint_b: Mint { is_writable: mint_b_writable, ..take.mint_b }, ..take })
            .spec_validate(program_id) == take.spec_validate(program_id),
{
}

/// The second half of making sure of a token account accepts exactly the
/// data of a token account of the mint belonging to the authority, in an
/// account owned by the instruction's token program.
pub proof fn lemma_associated_account_data_accepted(take: Take, owner_program: Pubkey, data: Seq<u8>, authority: Pubkey, mint: Pubkey)
    ensures
        take.spec_check_associated_token_account(owner_program, data, authority, mint) is Ok <==> {
            &&& unpacked_token_account(data) is Ok
            &&& unpacked_token_account(data)->Ok_0.0 == mint.bytes@
            &&& unpacked_token_account(data)->Ok_0.1 == authority.bytes@
            &&& owner_program == take.token_program
        },
{
}

} // verus!
