//! The transfer hook of the vault's mint: on every transfer, the token
//! program calls it with the source's owner and the extra accounts that the
//! hook's validation account lists; it lets the vault move tokens out and
//! otherwise asks for the owner's whitelist entry in the vault program.
use vstd::prelude::*;
use anchor_lang::prelude::Pubkey as ChainPubkey;
use anchor_spl::token_2022::spl_token_2022::extension::{
    transfer_hook::TransferHookAccount, BaseStateWithExtensionsMut, PodStateWithExtensionsMut,
};
use anchor_spl::token_2022::spl_token_2022::pod::PodAccount;
use spl_tlv_account_resolution::{account::ExtraAccountMeta as ChainExtraAccountMeta, seeds::Seed as ChainSeed, state::ExtraAccountMetaList};
use spl_transfer_hook_interface::instruction::ExecuteInstruction;
use crate::pubkey::{Pubkey, is_token_program, VAULT_PROGRAM_ID, SYSTEM_PROGRAM_ID};
use crate::pda::seeds_view;
use crate::cpi::u32_le;
use crate::accounts::{
    AccountError, Rejection, TokenAccount, Mint, Signer, AccountCreation, spec_check_canonical_seeds,
    spec_check_token_account, check_canonical_seeds, check_token_account, seeds_with_bump, seeds_match,
    spec_check_program, check_program, spec_check_interface_owner, check_interface_owner,
};
use crate::vault::{vault_seeds, whitelist_seeds, make_vault_seeds, make_whitelist_seeds};

verus! {

/// The hook's own errors.
#[derive(Clone, Copy, Debug, PartialEq, Eq, Structural)]
pub enum HookError {
    NotWhitelisted,
    NotTransferring,
}

/// A seed of an extra account's address, as the hook declares them.
#[derive(Clone, Debug)]
pub enum Seed {
    /// Fixed bytes.
    Literal { bytes: Vec<u8> },
    /// The address of the instruction's account at `index`.
    AccountKey { index: u8 },
}

/// An extra account that the token program resolves and passes to the hook.
#[derive(Clone, Copy, Debug)]
pub struct ExtraAccountMeta {
    pub discriminator: u8,
    pub address_config: [u8; 32],
    pub is_signer: bool,
    pub is_writable: bool,
}

/// The packed form of one seed: a tag byte, then the literal's length and
/// bytes, or the account index.
pub open spec fn packed_seed(seed: Seed) -> Seq<u8> {
    match seed {
        Seed::Literal { bytes } => seq![1u8, bytes@.len() as u8] + bytes@,
        Seed::AccountKey { index } => seq![3u8, index],
    }
}

/// The packed seeds, one after the other.
pub open spec fn packed_seeds(seeds: Seq<Seed>) -> Seq<u8>
    decreases seeds.len(),
{
    if seeds.len() == 0 {
        Seq::empty()
    } else {
        packed_seeds(seeds.drop_last()) + packed_seed(seeds.last())
    }
}

/// The address configuration of a PDA extra account: the packed seeds,
/// padded with zeros to 32 bytes, where they fit.
pub open spec fn seeds_address_config(seeds: Seq<Seed>) -> Option<Seq<u8>> {
    let packed = packed_seeds(seeds);
    if packed.len() <= 32 {
        Some(packed + Seq::new((32 - packed.len()) as nat, |i: int| 0u8))
    } else {
        None
    }
}

pub open spec fn literals_fit(seeds: Seq<Seed>) -> bool {
    forall|i: int| 0 <= i < seeds.len() ==> (#[trigger] seeds[i] matches Seed::Literal { bytes } ==> bytes@.len() < 254)
}

/// Calls `ExtraAccountMeta::new_with_pubkey`, which, as its source shows,
/// always succeeds and stores discriminator 0, the address and the flags.
#[verifier::external_body]
fn extra_meta_with_pubkey(key: &Pubkey, is_signer: bool, is_writable: bool) -> (r: ExtraAccountMeta)
    ensures
        r == (ExtraAccountMeta { discriminator: 0, address_config: key.bytes, is_signer, is_writable }),
{
    let m = ChainExtraAccountMeta::new_with_pubkey(&ChainPubkey::new_from_array(key.bytes), is_signer, is_writable).unwrap();
    ExtraAccountMeta { discriminator: m.discriminator, address_config: m.address_config, is_signer: m.is_signer.into(), is_writable: m.is_writable.into() }
}

/// Calls `ExtraAccountMeta::new_external_pda_with_seeds`. As its source
/// shows: it fails where `128 + program_index` overflows a byte or the
/// packed seeds exceed 32 bytes; otherwise it stores `128 + program_index`,
/// the packed seeds padded with zeros, and the flags. A literal's packed size
/// is computed in a byte, so `requires` keeps literals under 254 bytes.
#[verifier::external_body]
fn extra_meta_external_pda(program_index: u8, seeds: &Vec<Seed>, is_signer: bool, is_writable: bool) -> (r: Option<ExtraAccountMeta>)
    requires
        literals_fit(seeds@),
    ensures
        r is Some <==> (program_index < 128 && seeds_address_config(seeds@) is Some),
        r matches Some(m) ==> {
            &&& m.discriminator == program_index + 128
            &&& m.address_config@ == seeds_address_config(seeds@)->0
            &&& m.is_signer == is_signer
            &&& m.is_writable == is_writable
        },
{
    let chain: Vec<ChainSeed> = seeds.iter().map(|s| match s {
        Seed::Literal { bytes } => ChainSeed::Literal { bytes: bytes.clone() },
        Seed::AccountKey { index } => ChainSeed::AccountKey { index: *index },
    }).collect();
    let m = ChainExtraAccountMeta::new_external_pda_with_seeds(program_index, &chain, is_signer, is_writable).ok()?;
    Some(ExtraAccountMeta { discriminator: m.discriminator, address_config: m.address_config, is_signer: m.is_signer.into(), is_writable: m.is_writable.into() })
}

/// Calls `ExtraAccountMetaList::size_of`: as its source shows, the TLV
/// header (8-byte type, 4-byte length), a 4-byte count and 35 bytes per
/// entry, or nothing where that overflows.
#[verifier::external_body]
pub(crate) fn extra_account_meta_list_size(num_items: usize) -> (r: Option<usize>)
    ensures
        r == (if 35 * num_items + 4 <= usize::MAX {
            Some(if 35 * num_items + 16 <= usize::MAX { (35 * num_items + 16) as usize } else { usize::MAX })
        } else {
            None::<usize>
        }),
{
    ExtraAccountMetaList::size_of(num_items).ok()
}

/// The discriminator of the transfer hook's `Execute` instruction: the first
/// eight bytes of the SHA-256 of `spl-transfer-hook-interface:execute`.
pub open spec fn execute_discriminator() -> Seq<u8> {
    seq![105u8, 37u8, 101u8, 197u8, 75u8, 251u8, 102u8, 26u8]
}

pub open spec fn flag_byte(b: bool) -> u8 {
    if b { 1u8 } else { 0u8 }
}

/// One extra account as stored: its discriminator, its address
/// configuration, then its signer and writable flags.
pub open spec fn extra_meta_bytes(m: ExtraAccountMeta) -> Seq<u8> {
    seq![m.discriminator] + m.address_config@ + seq![flag_byte(m.is_signer), flag_byte(m.is_writable)]
}

/// The extra accounts as stored, one after the other.
pub open spec fn extra_metas_bytes(metas: Seq<ExtraAccountMeta>) -> Seq<u8>
    decreases metas.len(),
{
    if metas.len() == 0 {
        Seq::empty()
    } else {
        extra_metas_bytes(metas.drop_last()) + extra_meta_bytes(metas.last())
    }
}

/// The list as a type-length-value entry: the `Execute` discriminator, the
/// value's length, then the value: the number of entries and the entries.
pub open spec fn meta_list_entry(metas: Seq<ExtraAccountMeta>) -> Seq<u8> {
    execute_discriminator() + u32_le((4 + 35 * metas.len()) as nat) + u32_le(metas.len()) + extra_metas_bytes(metas)
}

/// Calls `ExtraAccountMetaList::init::<ExecuteInstruction>`. It panics on
/// data that is not valid TLV; zeroed data is, so `requires` asks for that.
/// As its source (with `spl-type-length-value` and `spl-list-view`) shows,
/// on zeroed data it succeeds exactly when the data has room for the entry
/// header and the list and the list's length fits a `u32`; it then writes
/// `meta_list_entry` at the start and leaves the rest. The data keeps its
/// length. What a failed call leaves in the data (part of the entry header,
/// where there was room for it) is left unsaid.
#[verifier::external_body]
fn init_extra_meta_list(data: &mut Vec<u8>, metas: &Vec<ExtraAccountMeta>) -> (r: bool)
    requires
        forall|i: int| 0 <= i < old(data)@.len() ==> old(data)@[i] == 0u8,
    ensures
        final(data)@.len() == old(data)@.len(),
        r <==> (16 + 35 * metas@.len() <= old(data)@.len() && 4 + 35 * metas@.len() <= u32::MAX),
        r ==> final(data)@ == meta_list_entry(metas@) + old(data)@.subrange((16 + 35 * metas@.len()) as int, old(data)@.len() as int),
{
    let chain: Vec<ChainExtraAccountMeta> = metas.iter().map(|m| ChainExtraAccountMeta {
        discriminator: m.discriminator, address_config: m.address_config, is_signer: m.is_signer.into(), is_writable: m.is_writable.into(),
    }).collect();
    ExtraAccountMetaList::init::<ExecuteInstruction>(data, &chain).is_ok()
}

/// The `transferring` flag of a token account's transfer-hook extension, or
/// the program error code with which unpacking the account or finding the
/// extension fails.
pub uninterp spec fn transferring_flag(data: Seq<u8>) -> Result<bool, u64>;

/// Unpacks token account data with `PodStateWithExtensionsMut::<PodAccount>`
/// and reads its `TransferHookAccount` extension, on a copy of the data.
/// Claims only that the flag, or the code of the error it fails with, is
/// `transferring_flag` of the data.
#[verifier::external_body]
fn read_transferring_flag(data: &Vec<u8>) -> (r: Result<bool, u64>)
    ensures
        r == transferring_flag(data@),
{
    let mut copy = data.clone();
    let mut state = PodStateWithExtensionsMut::<PodAccount>::unpack(&mut copy).map_err(u64::from)?;
    let ext = state.get_extension_mut::<TransferHookAccount>().map_err(u64::from)?;
    Ok(bool::from(ext.transferring))
}

// ------------------------------------------------------ validation account

/// The extra accounts, in declared order: the vault program (account index
/// 5 of the hook's instruction), the vault's address derived from
/// `[b"vault"]` under that program, and the source owner's (account index 3)
/// whitelist entry derived from `[b"whitelist", owner]` under that program;
/// none signs, none is writable.
pub open spec fn declared_extras(metas: Seq<ExtraAccountMeta>) -> bool {
    &&& metas.len() == 3
    &&& metas[0].discriminator == 0 && metas[0].address_config@ == VAULT_PROGRAM_ID@
    &&& metas[1].discriminator == 133 && metas[1].address_config@ == vault_pda_config()
    &&& metas[2].discriminator == 133 && metas[2].address_config@ == whitelist_pda_config()
    &&& forall|i: int| 0 <= i < 3 ==> !(#[trigger] metas[i]).is_signer && !metas[i].is_writable
}

/// `[b"vault"]` packed: tag 1, length 5, the bytes, then zeros.
pub open spec fn vault_pda_config() -> Seq<u8> {
    seq![1u8, 5u8, 118u8, 97u8, 117u8, 108u8, 116u8] + Seq::new(25, |i: int| 0u8)
}

/// `[b"whitelist", account 3]` packed: tag 1, length 9, the bytes, tag 3,
/// index 3, then zeros.
pub open spec fn whitelist_pda_config() -> Seq<u8> {
    seq![1u8, 9u8, 119u8, 104u8, 105u8, 116u8, 101u8, 108u8, 105u8, 115u8, 116u8, 3u8, 3u8] + Seq::new(19, |i: int| 0u8)
}

fn literal_seed(bytes: Vec<u8>) -> (r: Seed)
    ensures
        r == (Seed::Literal { bytes }),
{
    Seed::Literal { bytes }
}

impl InitializeExtraAccountMetaList {
    /// The extra accounts that the token program passes on to the hook.
    pub fn extra_account_metas() -> (r: Vec<ExtraAccountMeta>)
        ensures
            declared_extras(r@),
    {
        let program = Pubkey::new(VAULT_PROGRAM_ID);
        let first = extra_meta_with_pubkey(&program, false, false);

        let mut vault_bytes: Vec<u8> = Vec::new();
        vault_bytes.push(118u8);
        vault_bytes.push(97u8);
        vault_bytes.push(117u8);
        vault_bytes.push(108u8);
        vault_bytes.push(116u8);
        assert(vault_bytes@ =~= seq![118u8, 97u8, 117u8, 108u8, 116u8]);
        let mut vault_seed_list: Vec<Seed> = Vec::new();
        vault_seed_list.push(literal_seed(vault_bytes));
        proof {
            let s = vault_seed_list@;
            assert(s.drop_last() =~= Seq::<Seed>::empty());
            assert(packed_seeds(s.drop_last()) =~= Seq::<u8>::empty());
            assert(packed_seeds(s) =~= seq![1u8, 5u8, 118u8, 97u8, 117u8, 108u8, 116u8]);
            assert(seeds_address_config(s)->0 =~= vault_pda_config());
        }
        let second = extra_meta_external_pda(5, &vault_seed_list, false, false).unwrap();

        let mut whitelist_bytes: Vec<u8> = Vec::new();
        whitelist_bytes.push(119u8);
        whitelist_bytes.push(104u8);
        whitelist_bytes.push(105u8);
        whitelist_bytes.push(116u8);
        whitelist_bytes.push(101u8);
        whitelist_bytes.push(108u8);
        whitelist_bytes.push(105u8);
        whitelist_bytes.push(115u8);
        whitelist_bytes.push(116u8);
        assert(whitelist_bytes@ =~= seq![119u8, 104u8, 105u8, 116u8, 101u8, 108u8, 105u8, 115u8, 116u8]);
        let mut whitelist_seed_list: Vec<Seed> = Vec::new();
        whitelist_seed_list.push(literal_seed(whitelist_bytes));
        whitelist_seed_list.push(Seed::AccountKey { index: 3 });
        proof {
            let s = whitelist_seed_list@;
            assert(s.drop_last().drop_last() =~= Seq::<Seed>::empty());
            assert(packed_seeds(s.drop_last().drop_last()) =~= Seq::<u8>::empty());
            assert(packed_seeds(s.drop_last()) =~= seq![1u8, 9u8, 119u8, 104u8, 105u8, 116u8, 101u8, 108u8, 105u8, 115u8, 116u8]);
            assert(packed_seeds(s) =~= seq![1u8, 9u8, 119u8, 104u8, 105u8, 116u8, 101u8, 108u8, 105u8, 115u8, 116u8, 3u8, 3u8]);
            assert(seeds_address_config(s)->0 =~= whitelist_pda_config());
        }
        let third = extra_meta_external_pda(5, &whitelist_seed_list, false, false).unwrap();

        let mut r: Vec<ExtraAccountMeta> = Vec::new();
        r.push(first);
        r.push(second);
        r.push(third);
        r
    }
}

impl InitializeExtraAccountMetaList {
    /// The size of the validation account: room for the declared extras.
    pub fn space() -> (r: Option<usize>)
        ensures
            r == Some(121usize),
    {
        let extras = InitializeExtraAccountMetaList::extra_account_metas();
        extra_account_meta_list_size(extras.len())
    }
}

// ---------------------------------------------------------------- the hook

/// The seed `b"extra-account-metas"`.
pub open spec fn extra_metas_seed() -> Seq<u8> {
    seq![101u8, 120u8, 116u8, 114u8, 97u8, 45u8, 97u8, 99u8, 99u8, 111u8, 117u8, 110u8, 116u8, 45u8, 109u8, 101u8, 116u8, 97u8, 115u8]
}

fn make_extra_metas_seeds(mint: &Pubkey) -> (r: Vec<Vec<u8>>)
    ensures
        seeds_view(r@) == seq![extra_metas_seed(), mint.bytes@],
{
    let mut seed: Vec<u8> = Vec::new();
    seed.push(101u8); seed.push(120u8); seed.push(116u8); seed.push(114u8); seed.push(97u8);
    seed.push(45u8); seed.push(97u8); seed.push(99u8); seed.push(99u8); seed.push(111u8);
    seed.push(117u8); seed.push(110u8); seed.push(116u8); seed.push(45u8); seed.push(109u8);
    seed.push(101u8); seed.push(116u8); seed.push(97u8); seed.push(115u8);
    assert(seed@ =~= extra_metas_seed());
    let key_seed = mint.to_seed();
    let mut r: Vec<Vec<u8>> = Vec::new();
    r.push(seed);
    r.push(key_seed);
    assert(seeds_view(r@)[0] == extra_metas_seed());
    assert(seeds_view(r@)[1] == mint.bytes@);
    assert(seeds_view(r@) =~= seq![extra_metas_seed(), mint.bytes@]);
    r
}

/// An account the hook reads without a type: its address, owning program,
/// data length, and whether it was passed writable.
#[derive(Clone, Copy, Debug)]
pub struct UncheckedAccount {
    pub key: Pubkey,
    pub owner: Pubkey,
    pub data_len: usize,
    pub is_writable: bool,
}

/// Accounts of `initialize_extra_account_meta_list`: the payer signs and
/// pays; the validation account is created for the mint.
#[derive(Clone, Copy, Debug)]
pub struct InitializeExtraAccountMetaList {
    pub payer: Signer,
    pub extra_account_meta_list: UncheckedAccount,
    pub mint: Mint,
    pub system_program: Pubkey,
}

/// The validation account's seeds: `[b"extra-account-metas", mint]`.
pub open spec fn extra_metas_seeds(mint: Pubkey) -> Seq<Seq<u8>> {
    seq![extra_metas_seed(), mint.bytes@]
}

/// An account is in use where a program other than the system program owns
/// it or it holds data; creating it then fails.
pub open spec fn in_use(account: UncheckedAccount) -> bool {
    account.owner.bytes@ != SYSTEM_PROGRAM_ID@ || account.data_len > 0
}

impl InitializeExtraAccountMetaList {
    /// In the framework's order: the payer must sign; the mint must be owned
    /// by a token program; the system program must be passed. The validation
    /// account must be at the address found for
    /// `[b"extra-account-metas", mint]` under the hook; creating it needs the
    /// payer and the account passed writable, and fails where the account is
    /// in use. Gives the bump found.
    pub open spec fn spec_validate(self, program_id: Pubkey) -> Result<u8, Rejection<HookError>> {
        if !self.payer.is_signer {
            Err(Rejection::Account(AccountError::AccountNotSigner))
        } else if spec_check_interface_owner(self.mint.owner_program) is Err {
            Err(Rejection::Account(AccountError::AccountOwnedByWrongProgram))
        } else if spec_check_program(self.system_program, SYSTEM_PROGRAM_ID@) is Err {
            Err(Rejection::Account(AccountError::InvalidProgramId))
        } else {
            match spec_check_canonical_seeds(self.extra_account_meta_list.key, extra_metas_seeds(self.mint.key), program_id) {
                Err(e) => Err(Rejection::Account(e)),
                Ok(bump) => if !self.payer.is_writable || !self.extra_account_meta_list.is_writable {
                    Err(Rejection::Account(AccountError::PrivilegeEscalation))
                } else if in_use(self.extra_account_meta_list) {
                    Err(Rejection::Account(AccountError::AccountAlreadyInUse))
                } else {
                    Ok(bump)
                },
            }
        }
    }

    /// Checks the accounts and gives the validation account to create: the
    /// payer pays for room for the declared extras, the hook owns it, and it
    /// is signed for with `[b"extra-account-metas", mint, [bump]]`.
    pub fn validate(&self, program_id: &Pubkey) -> (r: Result<AccountCreation, Rejection<HookError>>)
        ensures
            self.spec_validate(*program_id) is Err ==> r == Err::<AccountCreation, Rejection<HookError>>(self.spec_validate(*program_id)->Err_0),
            self.spec_validate(*program_id) is Ok <==> r is Ok,
            r matches Ok(c) ==> {
                &&& c.payer == self.payer.key
                &&& c.account == self.extra_account_meta_list.key
                &&& c.space == 121
                &&& c.owner == *program_id
                &&& seeds_view(c.signer_seeds@) == seeds_with_bump(extra_metas_seeds(self.mint.key), self.spec_validate(*program_id)->Ok_0)
                &&& seeds_match(c.account, extra_metas_seeds(self.mint.key), self.spec_validate(*program_id)->Ok_0, *program_id)
            },
    {
        if !self.payer.is_signer {
            return Err(Rejection::Account(AccountError::AccountNotSigner));
        }
        if check_interface_owner(&self.mint.owner_program).is_err() {
            return Err(Rejection::Account(AccountError::AccountOwnedByWrongProgram));
        }
        if check_program(&self.system_program, SYSTEM_PROGRAM_ID).is_err() {
            return Err(Rejection::Account(AccountError::InvalidProgramId));
        }
        let seeds = make_extra_metas_seeds(&self.mint.key);
        let bump = match check_canonical_seeds(&self.extra_account_meta_list.key, &seeds, program_id) {
            Err(e) => { return Err(Rejection::Account(e)); },
            Ok(b) => b,
        };
        if !self.payer.is_writable || !self.extra_account_meta_list.is_writable {
            return Err(Rejection::Account(AccountError::PrivilegeEscalation));
        }
        let system = Pubkey::new(SYSTEM_PROGRAM_ID);
        if !self.extra_account_meta_list.owner.equals(&system) || self.extra_account_meta_list.data_len > 0 {
            proof {
                if self.extra_account_meta_list.owner.bytes@ == SYSTEM_PROGRAM_ID@ {
                    assert(self.extra_account_meta_list.owner.bytes =~= system.bytes);
                }
            }
            return Err(Rejection::Account(AccountError::AccountAlreadyInUse));
        }
        let space = InitializeExtraAccountMetaList::space().unwrap();
        let mut signer_seeds = seeds;
        let mut b: Vec<u8> = Vec::new();
        b.push(bump);
        assert(b@ =~= seq![bump]);
        signer_seeds.push(b);
        assert(seeds_view(signer_seeds@) =~= seeds_with_bump(extra_metas_seeds(self.mint.key), bump));
        Ok(AccountCreation {
            payer: self.payer.key,
            account: self.extra_account_meta_list.key,
            space,
            owner: *program_id,
            signer_seeds,
        })
    }
}

/// The validation account's contents once the declared extras are written:
/// the `Execute` entry holding the vault program, the vault's address
/// configuration and the source owner's whitelist entry configuration.
pub open spec fn declared_list_bytes() -> Seq<u8> {
    execute_discriminator() + u32_le(109) + u32_le(3)
        + (seq![0u8] + VAULT_PROGRAM_ID@ + seq![0u8, 0u8])
        + (seq![133u8] + vault_pda_config() + seq![0u8, 0u8])
        + (seq![133u8] + whitelist_pda_config() + seq![0u8, 0u8])
}

/// Writes the extra-account list into the validation account, which the
/// account creation left zeroed and sized for it: the declared list is
/// written at the start and the rest stays as it was. Data with less room
/// than the list needs makes the list's writer fail, where the program
/// stops with a panic, so `requires` leaves that out.
pub fn initialize_extra_account_meta_list(data: &mut Vec<u8>) -> (r: Result<(), Rejection<HookError>>)
    requires
        forall|i: int| 0 <= i < old(data)@.len() ==> old(data)@[i] == 0u8,
        old(data)@.len() >= 121,
    ensures
        r is Ok,
        final(data)@ == declared_list_bytes() + old(data)@.subrange(121, old(data)@.len() as int),
{
    let extras = InitializeExtraAccountMetaList::extra_account_metas();
    let ok = init_extra_meta_list(data, &extras);
    proof {
        let m = extras@;
        assert(m.drop_last().drop_last().drop_last() =~= Seq::<ExtraAccountMeta>::empty());
        assert(extra_metas_bytes(m) == extra_metas_bytes(m.drop_last()) + extra_meta_bytes(m[2]));
        assert(extra_metas_bytes(m.drop_last()) == extra_metas_bytes(m.drop_last().drop_last()) + extra_meta_bytes(m[1]));
        assert(extra_metas_bytes(m.drop_last().drop_last()) == extra_metas_bytes(m.drop_last().drop_last().drop_last()) + extra_meta_bytes(m[0]));
        assert(extra_metas_bytes(m.drop_last().drop_last().drop_last()) =~= Seq::<u8>::empty());
        assert(meta_list_entry(m) =~= declared_list_bytes());
    }
    assert(ok);
    Ok(())
}

/// A validation account is created once per mint: once the creation that
/// `validate` gave has been carried out, the hook owns the account and it
/// holds the list's room, so a second initialization for the same mint is
/// refused with `AccountAlreadyInUse` before anything is written.
pub proof fn lemma_second_init_refused(
    program_id: Pubkey,
    first: InitializeExtraAccountMetaList,
    created: AccountCreation,
    second: InitializeExtraAccountMetaList,
)
    requires
        first.spec_validate(program_id) is Ok,
        program_id.bytes@ != SYSTEM_PROGRAM_ID@,
        created.account == first.extra_account_meta_list.key,
        created.owner == program_id,
        created.space == 121,
        second.payer.is_signer,
        second.mint == first.mint,
        second.extra_account_meta_list.key == created.account,
        second.extra_account_meta_list.owner == created.owner,
        second.extra_account_meta_list.data_len == created.space,
        second.payer.is_writable && second.extra_account_meta_list.is_writable,
        second.system_program == first.system_program,
    ensures
        second.spec_validate(program_id) == Err::<u8, Rejection<HookError>>(Rejection::Account(AccountError::AccountAlreadyInUse)),
{
}

/// Accounts of the hook's `Execute` instruction, with the source token
/// account's raw data, where the transfer-hook extension keeps its
/// `transferring` flag.
#[derive(Debug)]
pub struct TransferHook {
    pub source_token: TokenAccount,
    pub source_token_data: Vec<u8>,
    pub mint: Mint,
    pub destination_token: TokenAccount,
    pub owner: Pubkey,
    pub extra_account_meta_list: Pubkey,
    pub vault_program: Pubkey,
    pub vault: Pubkey,
    pub whitelist_entry: UncheckedAccount,
}

impl TransferHook {
    /// In the framework's order: the source, the mint and the destination
    /// are owned by a token program; the source holds the mint and belongs
    /// to the owner;
    /// the destination holds the mint; the validation account is at the
    /// address found for `[b"extra-account-metas", mint]` under the hook; the
    /// vault program is the fixed one; the vault and the owner's whitelist
    /// entry are at the addresses found for `[b"vault"]` and
    /// `[b"whitelist", owner]` under the vault program.
    pub open spec fn spec_validate(self, program_id: Pubkey) -> Result<(), Rejection<HookError>> {
        if spec_check_interface_owner(self.source_token.owner_program) is Err
            || spec_check_interface_owner(self.mint.owner_program) is Err
            || spec_check_interface_owner(self.destination_token.owner_program) is Err {
            Err(Rejection::Account(AccountError::AccountOwnedByWrongProgram))
        } else {
        match spec_check_token_account(self.source_token, self.mint.key, self.owner) {
            Err(e) => Err(Rejection::Account(e)),
            Ok(()) => if self.destination_token.mint != self.mint.key {
                Err(Rejection::Account(AccountError::ConstraintTokenMint))
            } else {
                match spec_check_canonical_seeds(self.extra_account_meta_list, seq![extra_metas_seed(), self.mint.key.bytes@], program_id) {
                    Err(e) => Err(Rejection::Account(e)),
                    Ok(_) => if self.vault_program.bytes@ != VAULT_PROGRAM_ID@ {
                        Err(Rejection::Account(AccountError::ConstraintAddress))
                    } else {
                        match spec_check_canonical_seeds(self.vault, vault_seeds(), self.vault_program) {
                            Err(e) => Err(Rejection::Account(e)),
                            Ok(_) => match spec_check_canonical_seeds(self.whitelist_entry.key, whitelist_seeds(self.owner), self.vault_program) {
                                Err(e) => Err(Rejection::Account(e)),
                                Ok(_) => Ok(()),
                            },
                        }
                    },
                }
            },
        }
        }
    }

    pub fn validate(&self, program_id: &Pubkey) -> (r: Result<(), Rejection<HookError>>)
        ensures
            r == self.spec_validate(*program_id),
    {
        if check_interface_owner(&self.source_token.owner_program).is_err()
            || check_interface_owner(&self.mint.owner_program).is_err()
            || check_interface_owner(&self.destination_token.owner_program).is_err() {
            return Err(Rejection::Account(AccountError::AccountOwnedByWrongProgram));
        }
        match check_token_account(&self.source_token, &self.mint.key, &self.owner) {
            Err(e) => { return Err(Rejection::Account(e)); },
            Ok(()) => {},
        }
        if !self.destination_token.mint.equals(&self.mint.key) {
            return Err(Rejection::Account(AccountError::ConstraintTokenMint));
        }
        let list_seeds = make_extra_metas_seeds(&self.mint.key);
        match check_canonical_seeds(&self.extra_account_meta_list, &list_seeds, program_id) {
            Err(e) => { return Err(Rejection::Account(e)); },
            Ok(_) => {},
        }
        let fixed = Pubkey::new(VAULT_PROGRAM_ID);
        if !self.vault_program.equals(&fixed) {
            proof {
                if self.vault_program.bytes@ == VAULT_PROGRAM_ID@ {
                    assert(self.vault_program.bytes =~= fixed.bytes);
                }
            }
            return Err(Rejection::Account(AccountError::ConstraintAddress));
        }
        let vault_seed_list = make_vault_seeds();
        match check_canonical_seeds(&self.vault, &vault_seed_list, &self.vault_program) {
            Err(e) => { return Err(Rejection::Account(e)); },
            Ok(_) => {},
        }
        let entry_seeds = make_whitelist_seeds(&self.owner);
        match check_canonical_seeds(&self.whitelist_entry.key, &entry_seeds, &self.vault_program) {
            Err(e) => { return Err(Rejection::Account(e)); },
            Ok(_) => {},
        }
        Ok(())
    }

    /// What reading the source's `transferring` flag gives.
    pub open spec fn spec_check_is_transferring(self) -> Result<(), Rejection<HookError>> {
        match transferring_flag(self.source_token_data@) {
            Err(code) => Err(Rejection::Account(AccountError::Failed(code))),
            Ok(false) => Err(Rejection::Program(HookError::NotTransferring)),
            Ok(true) => Ok(()),
        }
    }

    /// The hook must run inside a transfer: the source's transfer-hook
    /// extension says so.
    pub fn check_is_transferring(&self) -> (r: Result<(), Rejection<HookError>>)
        ensures
            r == self.spec_check_is_transferring(),
    {
        match read_transferring_flag(&self.source_token_data) {
            Err(code) => Err(Rejection::Account(AccountError::Failed(code))),
            Ok(flag) => if !flag {
                Err(Rejection::Program(HookError::NotTransferring))
            } else {
                Ok(())
            },
        }
    }

    /// The owner is allowed to move tokens: it is the vault, or its whitelist
    /// entry is an account of the vault program holding data.
    pub open spec fn owner_allowed(self) -> bool {
        ||| self.owner == self.vault
        ||| (self.whitelist_entry.owner.bytes@ == VAULT_PROGRAM_ID@ && self.whitelist_entry.data_len > 0)
    }

    /// Inside a transfer, the vault may always send; anyone else needs a
    /// whitelist entry owned by the vault program.
    pub fn handler(&self) -> (r: Result<(), Rejection<HookError>>)
        ensures
            self.spec_check_is_transferring() is Err ==> r == self.spec_check_is_transferring(),
            self.spec_check_is_transferring() is Ok ==> (r is Ok <==> self.owner_allowed()),
            r matches Err(e) ==> self.spec_check_is_transferring() is Ok ==> e == Rejection::<HookError>::Program(HookError::NotWhitelisted),
    {
        self.check_is_transferring()?;
        if self.owner.equals(&self.vault) {
            return Ok(());
        }
        let fixed = Pubkey::new(VAULT_PROGRAM_ID);
        if !self.whitelist_entry.owner.equals(&fixed) || self.whitelist_entry.data_len == 0 {
            proof {
                if self.whitelist_entry.owner.bytes@ == VAULT_PROGRAM_ID@ {
                    assert(self.whitelist_entry.owner.bytes =~= fixed.bytes);
                }
            }
            return Err(Rejection::Program(HookError::NotWhitelisted));
        }
        Ok(())
    }
}

/// The hook's entry point: the accounts are checked, then the transfer is
/// allowed exactly when it is one and its source's owner is the vault or a
/// whitelisted user.
pub fn transfer_hook(program_id: &Pubkey, accounts: &TransferHook, _amount: u64) -> (r: Result<(), Rejection<HookError>>)
    ensures
        accounts.spec_validate(*program_id) is Err ==> r == accounts.spec_validate(*program_id),
        accounts.spec_validate(*program_id) is Ok && accounts.spec_check_is_transferring() is Err ==> r == accounts.spec_check_is_transferring(),
        r is Ok <==> (accounts.spec_validate(*program_id) is Ok && accounts.spec_check_is_transferring() is Ok && accounts.owner_allowed()),
        accounts.spec_validate(*program_id) is Ok && accounts.spec_check_is_transferring() is Ok && !accounts.owner_allowed()
            ==> r == Err::<(), Rejection<HookError>>(Rejection::Program(HookError::NotWhitelisted)),
{
    accounts.validate(program_id)?;
    accounts.handler()
}

/// The hook finds the entries that the vault program creates: where the
/// vault program (at the fixed vault program id) has whitelisted `user` at
/// an entry address, the hook's check on the owner's whitelist entry accepts
/// that address when `user` owns the source.
pub proof fn lemma_hook_finds_vault_entries(add: crate::vault::AddToWhitelist, user: Pubkey, hook: TransferHook)
    requires
        add.spec_validate(Pubkey { bytes: VAULT_PROGRAM_ID }, user) is Ok,
        hook.whitelist_entry.key == add.entry.key,
        hook.owner == user,
        hook.vault_program.bytes@ == VAULT_PROGRAM_ID@,
    ensures
        spec_check_canonical_seeds(hook.whitelist_entry.key, whitelist_seeds(hook.owner), hook.vault_program) is Ok,
{
    assert(hook.vault_program.bytes =~= VAULT_PROGRAM_ID);
}

/// A declared seed of an extra account's address, as a value: fixed bytes,
/// or the address of the instruction's account at an index.
pub enum SeedSpec {
    Literal(Seq<u8>),
    AccountKey(u8),
}

/// The packed form of a declared seed.
pub open spec fn packed_seed_spec(seed: SeedSpec) -> Seq<u8> {
    match seed {
        SeedSpec::Literal(bytes) => seq![1u8, bytes.len() as u8] + bytes,
        SeedSpec::AccountKey(index) => seq![3u8, index],
    }
}

/// Declared seeds packed one after the other and padded with zeros to 32
/// bytes.
pub open spec fn seeds_config_spec(seeds: Seq<SeedSpec>) -> Seq<u8> {
    let packed = packed_seeds_spec(seeds);
    packed + Seq::new((32 - packed.len()) as nat, |i: int| 0u8)
}

pub open spec fn packed_seeds_spec(seeds: Seq<SeedSpec>) -> Seq<u8>
    decreases seeds.len(),
{
    if seeds.len() == 0 {
        Seq::empty()
    } else {
        packed_seeds_spec(seeds.drop_last()) + packed_seed_spec(seeds.last())
    }
}

/// A declared seed resolved against the instruction's accounts.
pub open spec fn resolved_seed(seed: SeedSpec, keys: Seq<Pubkey>) -> Seq<u8> {
    match seed {
        SeedSpec::Literal(bytes) => bytes,
        SeedSpec::AccountKey(index) => keys[index as int].bytes@,
    }
}

pub open spec fn resolved_seeds(seeds: Seq<SeedSpec>, keys: Seq<Pubkey>) -> Seq<Seq<u8>> {
    seeds.map_values(|seed: SeedSpec| resolved_seed(seed, keys))
}

/// The declared seeds of the vault extra: `[b"vault"]`.
pub open spec fn vault_extra_seeds() -> Seq<SeedSpec> {
    seq![SeedSpec::Literal(crate::vault::vault_seed())]
}

/// The declared seeds of the whitelist entry extra: `[b"whitelist", account 3]`.
pub open spec fn whitelist_extra_seeds() -> Seq<SeedSpec> {
    seq![SeedSpec::Literal(crate::vault::whitelist_seed()), SeedSpec::AccountKey(3)]
}

/// The declared extras resolve to the accounts the hook checks. In the
/// `Execute` instruction the source owner is account 3 and the first extra
/// (the fixed vault program) becomes account 5. The second and third extras
/// are addresses derived under account 5 from `[b"vault"]` and from
/// `[b"whitelist", account 3]`, and these resolve to exactly the seeds
/// that the hook's account checks ask of `vault` and `whitelist_entry`
/// under the vault program.
pub proof fn lemma_declared_extras_resolve_to_hook_accounts(metas: Seq<ExtraAccountMeta>, keys: Seq<Pubkey>, owner: Pubkey)
    requires
        declared_extras(metas),
        keys.len() == 6,
        keys[3] == owner,
        keys[5].bytes@ == metas[0].address_config@,
    ensures
        keys[5].bytes@ == VAULT_PROGRAM_ID@,
        metas[1].discriminator == 128 + 5 && metas[1].address_config@ == seeds_config_spec(vault_extra_seeds()),
        metas[2].discriminator == 128 + 5 && metas[2].address_config@ == seeds_config_spec(whitelist_extra_seeds()),
        resolved_seeds(vault_extra_seeds(), keys) == crate::vault::vault_seeds(),
        resolved_seeds(whitelist_extra_seeds(), keys) == whitelist_seeds(owner),
{
    let v = vault_extra_seeds();
    assert(v.drop_last() =~= Seq::<SeedSpec>::empty());
    assert(packed_seeds_spec(v.drop_last()) =~= Seq::<u8>::empty());
    assert(v.last() == SeedSpec::Literal(crate::vault::vault_seed()));
    assert(crate::vault::vault_seed().len() == 5);
    assert(packed_seed_spec(v.last()) =~= seq![1u8, 5u8, 118u8, 97u8, 117u8, 108u8, 116u8]);
    assert(packed_seeds_spec(v) =~= seq![1u8, 5u8, 118u8, 97u8, 117u8, 108u8, 116u8]);
    assert(seeds_config_spec(v) =~= vault_pda_config());
    let w = whitelist_extra_seeds();
    assert(w.drop_last().drop_last() =~= Seq::<SeedSpec>::empty());
    assert(packed_seeds_spec(w.drop_last().drop_last()) =~= Seq::<u8>::empty());
    assert(w.drop_last().last() == SeedSpec::Literal(crate::vault::whitelist_seed()));
    assert(w.last() == SeedSpec::AccountKey(3));
    assert(crate::vault::whitelist_seed().len() == 9);
    assert(packed_seed_spec(w.drop_last().last()) =~= seq![1u8, 9u8, 119u8, 104u8, 105u8, 116u8, 101u8, 108u8, 105u8, 115u8, 116u8]);
    assert(packed_seeds_spec(w.drop_last()) =~= seq![1u8, 9u8, 119u8, 104u8, 105u8, 116u8, 101u8, 108u8, 105u8, 115u8, 116u8]);
    assert(packed_seeds_spec(w) =~= seq![1u8, 9u8, 119u8, 104u8, 105u8, 116u8, 101u8, 108u8, 105u8, 115u8, 116u8, 3u8, 3u8]);
    assert(seeds_config_spec(w) =~= whitelist_pda_config());
    assert(resolved_seeds(v, keys) =~= crate::vault::vault_seeds());
    assert(resolved_seeds(w, keys) =~= whitelist_seeds(owner));
}

/// A closed whitelist entry does not let its user send: once
/// `remove_from_whitelist` has closed the entry (the account goes back to
/// the system program with no data), a transfer from that user, who is not
/// the vault, with that account as the hook's entry, is refused with
/// `NotWhitelisted`.
pub proof fn lemma_hook_refuses_closed_entry(program_id: Pubkey, closed: crate::accounts::ProgramAccount<crate::vault::WhitelistEntry>, hook: TransferHook)
    requires
        closed.data is None,
        closed.owner.bytes@ == SYSTEM_PROGRAM_ID@,
        hook.whitelist_entry.key == closed.key,
        hook.whitelist_entry.owner == closed.owner,
        hook.whitelist_entry.data_len == 0,
        hook.spec_validate(program_id) is Ok,
        hook.spec_check_is_transferring() is Ok,
        hook.owner != hook.vault,
    ensures
        !hook.owner_allowed(),
{
}

/// Inside a transfer that passed the account checks, the vault is always
/// allowed to send, whatever its whitelist entry.
pub proof fn lemma_vault_always_sends(program_id: Pubkey, hook: TransferHook)
    requires
        hook.spec_validate(program_id) is Ok,
        hook.spec_check_is_transferring() is Ok,
        hook.owner == hook.vault,
    ensures
        hook.owner_allowed(),
{
}

/// The hook only reads the accounts of the transfer it checks: whether the
/// source or destination token account, the mint or the whitelist entry is
/// passed writable never changes its account checks.
pub proof fn lemma_hook_checks_ignore_writability(program_id: Pubkey, hook: TransferHook, source: bool, mint: bool, destination: bool, entry: bool)
    ensures
        (TransferHook {
            source_token: TokenAccount { is_writable: source, ..hook.source_token },
            mint: Mint { is_writable: mint, ..hook.mint },
            destination_token: TokenAccount { is_writable: destination, ..hook.destination_token },
            whitelist_entry: UncheckedAccount { is_writable: entry, ..hook.whitelist_entry },
            ..hook
        }).spec_validate(program_id) == hook.spec_validate(program_id),
{
}

/// The hook's account checks pass exactly when the constraints it declares
/// hold: the source, the mint and the destination are owned by a token
/// program; the source holds the mint and belongs to the owner; the
/// destination holds the mint; the validation account is at the canonical
/// address of `[b"extra-account-metas", mint]` under the hook; the vault
/// program is the fixed one; the vault and the owner's whitelist entry are at
/// the canonical addresses of `[b"vault"]` and `[b"whitelist", owner]` under
/// the vault program.
pub proof fn lemma_hook_accounts_accepted(program_id: Pubkey, hook: TransferHook)
    ensures
        hook.spec_validate(program_id) is Ok <==> {
            &&& is_token_program(hook.source_token.owner_program)
            &&& is_token_program(hook.mint.owner_program)
            &&& is_token_program(hook.destination_token.owner_program)
            &&& hook.source_token.mint == hook.mint.key && hook.source_token.owner == hook.owner
            &&& hook.destination_token.mint == hook.mint.key
            &&& spec_check_canonical_seeds(hook.extra_account_meta_list, seq![extra_metas_seed(), hook.mint.key.bytes@], program_id) is Ok
            &&& hook.vault_program.bytes@ == VAULT_PROGRAM_ID@
            &&& spec_check_canonical_seeds(hook.vault, vault_seeds(), hook.vault_program) is Ok
            &&& spec_check_canonical_seeds(hook.whitelist_entry.key, whitelist_seeds(hook.owner), hook.vault_program) is Ok
        },
{
}

/// Creating the validation account gets through its checks exactly when:
/// the payer signs and is writable; the mint is owned by a token program;
/// the system program is passed; the validation account, writable and not
/// yet in use, is at the canonical address of `[b"extra-account-metas",
/// mint]` under the hook, whose bump is the one given back. The mint is only
/// read: its writability never matters.
pub proof fn lemma_init_list_accounts_accepted(program_id: Pubkey, init: InitializeExtraAccountMetaList, mint_writable: bool)
    ensures
        init.spec_validate(program_id) is Ok <==> {
            &&& init.payer.is_signer && init.payer.is_writable
            &&& is_token_program(init.mint.owner_program)
            &&& init.system_program.bytes@ == SYSTEM_PROGRAM_ID@
            &&& spec_check_canonical_seeds(init.extra_account_meta_list.key, seq![extra_metas_seed(), init.mint.key.bytes@], program_id) is Ok
            &&& init.extra_account_meta_list.is_writable
            &&& init.extra_account_meta_list.owner.bytes@ == SYSTEM_PROGRAM_ID@ && init.extra_account_meta_list.data_len == 0
        },
        init.spec_validate(program_id) matches Ok(b) ==>
            spec_check_canonical_seeds(init.extra_account_meta_list.key, seq![extra_metas_seed(), init.mint.key.bytes@], program_id) == Ok::<u8, AccountError>(b),
        (InitializeExtraAccountMetaList { mint: Mint { is_writable: mint_writable, ..init.mint }, ..init }).spec_validate(program_id)
            == init.spec_validate(program_id),
{
}

/// What the hook decides once the accounts pass: the transfer must be under
/// way (the source's transfer-hook extension says so); then the vault may
/// always send, and anyone else may send exactly when the whitelist entry
/// account is owned by the vault program and holds data.
pub proof fn lemma_hook_decision(hook: TransferHook)
    ensures
        hook.spec_check_is_transferring() is Ok <==> transferring_flag(hook.source_token_data@) == Ok::<bool, u64>(true),
        hook.owner == hook.vault ==> hook.owner_allowed(),
        hook.owner != hook.vault ==> (hook.owner_allowed() <==>
            (hook.whitelist_entry.owner.bytes@ == VAULT_PROGRAM_ID@ && hook.whitelist_entry.data_len > 0)),
{
}

} // verus!
