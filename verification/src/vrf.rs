//! A consumer of verifiable randomness: it asks the VRF program for
//! randomness on behalf of a user account, and stores the number derived from
//! the randomness that the VRF program's callback delivers.
use vstd::prelude::*;
use anchor_lang::prelude::Pubkey as ChainPubkey;
use ephemeral_vrf_sdk::instructions::{create_request_randomness_ix, RequestRandomnessParams};
use ephemeral_vrf_sdk::types::SerializableAccountMeta as ChainSerializableAccountMeta;
use crate::pubkey::{Pubkey, SYSTEM_PROGRAM_ID};
use crate::pda::{seeds_view, canonical_address, find_program_address};
use crate::accounts::{
    AccountError, ProgramAccount, Signer, KeyedAccount, spec_check_canonical_seeds, check_canonical_seeds,
    seeds_with_bump, spec_check_program, check_program, spec_check_account, check_account,
};
use crate::cpi::{Instruction, meta, u32_le};

verus! {

/// The VRF program (`Vrf1RNUjXmQGjmQrQLvJHs9SNkvDJEsRVFPkfSQUwGz`).
pub const VRF_PROGRAM_ID: [u8; 32] = [
    7, 100, 104, 119, 200, 241, 253, 43, 158, 185, 243, 92, 234, 235, 93, 25,
    63, 162, 158, 196, 92, 7, 181, 101, 242, 27, 167, 177, 39, 172, 247, 127,
];

/// The VRF program's signing identity (`9irBy75QS2BN81FUgXuHcjqceJJRuc9oDkAe8TKVvvAw`).
pub const VRF_PROGRAM_IDENTITY: [u8; 32] = [
    129, 149, 237, 71, 27, 236, 243, 116, 219, 84, 34, 221, 119, 231, 249, 254,
    170, 194, 114, 165, 249, 93, 38, 97, 146, 155, 47, 105, 113, 22, 94, 252,
];

/// The slot-hashes sysvar (`SysvarS1otHashes111111111111111111111111111`).
pub const SLOT_HASHES_ID: [u8; 32] = [
    6, 167, 213, 23, 25, 47, 10, 175, 198, 242, 101, 227, 251, 119, 204, 122,
    218, 130, 197, 41, 208, 190, 59, 19, 110, 45, 0, 85, 32, 0, 0, 0,
];

/// The instruction discriminator of this program's `callback_data`: the
/// first eight bytes of the SHA-256 of `global:callback_data`.
pub const CALLBACK_DATA_DISCRIMINATOR: [u8; 8] = [19, 150, 49, 33, 47, 238, 21, 48];

/// The user account that receives random data.
#[derive(Clone, Copy, Debug)]
pub struct UserAccount {
    pub data: u64,
}

/// The number that `random_u64` reads from 32 random bytes: every fourth
/// byte, little-endian.
pub open spec fn spec_random_u64(bytes: Seq<u8>) -> int {
    bytes[0] + bytes[4] * 0x100 + bytes[8] * 0x1_0000 + bytes[12] * 0x100_0000
        + bytes[16] * 0x1_0000_0000 + bytes[20] * 0x100_0000_0000
        + bytes[24] * 0x1_0000_0000_0000 + bytes[28] * 0x100_0000_0000_0000
}

/// The VRF SDK's reading of a random `u64` from 32 random bytes: the
/// little-endian number made of bytes 0, 4, 8, .., 28.
fn random_u64(bytes: &[u8; 32]) -> (r: u64)
    ensures
        r as int == spec_random_u64(bytes@),
{
    let b0 = bytes[0] as u64;
    let b1 = bytes[4] as u64;
    let b2 = bytes[8] as u64;
    let b3 = bytes[12] as u64;
    let b4 = bytes[16] as u64;
    let b5 = bytes[20] as u64;
    let b6 = bytes[24] as u64;
    let b7 = bytes[28] as u64;
    b0 + b1 * 0x100 + b2 * 0x1_0000 + b3 * 0x100_0000 + b4 * 0x1_0000_0000 + b5 * 0x100_0000_0000
        + b6 * 0x1_0000_0000_0000 + b7 * 0x100_0000_0000_0000
}

/// Accounts of the VRF program's callback.
#[derive(Clone, Copy, Debug)]
pub struct CallbackData {
    pub vrf_program_identity: Signer,
    pub user: UserAccount,
    pub user_is_writable: bool,
}

impl CallbackData {
    /// What the callback's checks give: the identity must sign, and it must
    /// be the VRF program's identity; the user account must be writable.
    pub open spec fn spec_validate(self) -> Result<(), AccountError> {
        if !self.vrf_program_identity.is_signer {
            Err(AccountError::AccountNotSigner)
        } else if self.vrf_program_identity.key.bytes@ != VRF_PROGRAM_IDENTITY@ {
            Err(AccountError::ConstraintAddress)
        } else if !self.user_is_writable {
            Err(AccountError::ConstraintMut)
        } else {
            Ok(())
        }
    }

    /// The callback must be signed by the VRF program's identity.
    pub fn validate(&self) -> (r: Result<(), AccountError>)
        ensures
            r == self.spec_validate(),
    {
        if !self.vrf_program_identity.is_signer {
            return Err(AccountError::AccountNotSigner);
        }
        let identity = Pubkey::new(VRF_PROGRAM_IDENTITY);
        if self.vrf_program_identity.key.equals(&identity) {
            if self.user_is_writable { Ok(()) } else { Err(AccountError::ConstraintMut) }
        } else {
            proof {
                if self.vrf_program_identity.key.bytes@ == VRF_PROGRAM_IDENTITY@ {
                    assert(self.vrf_program_identity.key.bytes =~= identity.bytes);
                }
            }
            Err(AccountError::ConstraintAddress)
        }
    }

    /// Stores the number read from the delivered randomness in the user
    /// account.
    pub fn callback_data(&mut self, randomness: [u8; 32])
        ensures
            final(self).user.data as int == spec_random_u64(randomness@),
            final(self).vrf_program_identity == old(self).vrf_program_identity,
            final(self).user_is_writable == old(self).user_is_writable,
    {
        let random_data = random_u64(&randomness);
        self.user.data = random_data;
    }
}

/// The callback's entry point: only the VRF program's identity, signing, may
/// set the user's data; anyone else is refused and the user account keeps
/// what it held.
pub fn callback_data(accounts: &mut CallbackData, randomness: [u8; 32]) -> (r: Result<(), AccountError>)
    ensures
        r == old(accounts).spec_validate(),
        r is Ok ==> old(accounts).vrf_program_identity.is_signer && old(accounts).vrf_program_identity.key.bytes@ == VRF_PROGRAM_IDENTITY@,
        r is Err ==> *final(accounts) == *old(accounts),
        r is Ok ==> final(accounts).user.data as int == spec_random_u64(randomness@)
            && final(accounts).vrf_program_identity == old(accounts).vrf_program_identity,
{
    accounts.validate()?;
    accounts.callback_data(randomness);
    Ok(())
}

/// An account that the VRF program passes back to the callback.
#[derive(Clone, Copy, Debug)]
pub struct SerializableAccountMeta {
    pub pubkey: Pubkey,
    pub is_signer: bool,
    pub is_writable: bool,
}

/// The seed `b"identity"`.
pub open spec fn identity_seed() -> Seq<u8> {
    seq![105u8, 100u8, 101u8, 110u8, 116u8, 105u8, 116u8, 121u8]
}

/// The seed `b"user"`.
pub open spec fn user_seed() -> Seq<u8> {
    seq![117u8, 115u8, 101u8, 114u8]
}

/// An account passed back to the callback, serialized: its address, then
/// one byte each for the signer and writable flags.
pub open spec fn account_meta_bytes(m: SerializableAccountMeta) -> Seq<u8> {
    m.pubkey.bytes@ + seq![if m.is_signer { 1u8 } else { 0u8 }, if m.is_writable { 1u8 } else { 0u8 }]
}

/// The accounts passed back to the callback, serialized one after the other.
pub open spec fn account_metas_bytes(metas: Seq<SerializableAccountMeta>) -> Seq<u8>
    decreases metas.len(),
{
    if metas.len() == 0 {
        Seq::empty()
    } else {
        account_metas_bytes(metas.drop_last()) + account_meta_bytes(metas.last())
    }
}

/// The data of a randomness request without callback arguments: the
/// request's tag 10 padded to eight bytes, the caller seed, the callback
/// program, the callback discriminator and the accounts passed back, each
/// list after its length, then an empty argument list.
pub open spec fn vrf_request_data(
    caller_seed: Seq<u8>,
    callback_program_id: Seq<u8>,
    callback_discriminator: Seq<u8>,
    callback_accounts: Seq<SerializableAccountMeta>,
) -> Seq<u8> {
    seq![10u8, 0u8, 0u8, 0u8, 0u8, 0u8, 0u8, 0u8] + caller_seed + callback_program_id
        + u32_le(callback_discriminator.len()) + callback_discriminator
        + u32_le(callback_accounts.len()) + account_metas_bytes(callback_accounts)
        + u32_le(0)
}

/// Calls `create_request_randomness_ix` with no callback arguments. As its
/// source shows: the instruction goes to the VRF program with the payer
/// (writable signer), the program identity found for `[b"identity"]` under
/// the callback program (read-only signer), the oracle queue (writable), the
/// system program and the slot-hashes sysvar; its data is the request
/// serialized with Borsh after an eight-byte tag whose first byte is set to
/// 10, as `vrf_request_data` lays it out. The identity search panics where
/// no bump works, and the serialization where a list is longer than a `u32`
/// counts, so `requires` leaves those out.
#[verifier::external_body]
fn request_randomness_instruction(
    payer: &Pubkey,
    oracle_queue: &Pubkey,
    callback_program_id: &Pubkey,
    callback_discriminator: &Vec<u8>,
    callback_accounts: &Vec<SerializableAccountMeta>,
    caller_seed: [u8; 32],
) -> (r: Instruction)
    requires
        canonical_address(seq![identity_seed()], callback_program_id.bytes@) is Some,
        callback_discriminator@.len() <= u32::MAX,
        callback_accounts@.len() <= u32::MAX,
    ensures
        r.program_id.bytes@ == VRF_PROGRAM_ID@,
        r.accounts@.len() == 5,
        r.accounts@[0] == meta(*payer, true, true),
        r.accounts@[1].pubkey.bytes@ == (canonical_address(seq![identity_seed()], callback_program_id.bytes@)->0).0,
        r.accounts@[1].is_signer && !r.accounts@[1].is_writable,
        r.accounts@[2] == meta(*oracle_queue, false, true),
        r.accounts@[3].pubkey.bytes@ == SYSTEM_PROGRAM_ID@ && !r.accounts@[3].is_signer && !r.accounts@[3].is_writable,
        r.accounts@[4].pubkey.bytes@ == SLOT_HASHES_ID@ && !r.accounts@[4].is_signer && !r.accounts@[4].is_writable,
        r.data@ == vrf_request_data(caller_seed@, callback_program_id.bytes@, callback_discriminator@, callback_accounts@),
{
    let k = |p: &Pubkey| ChainPubkey::new_from_array(p.bytes);
    let ix = create_request_randomness_ix(RequestRandomnessParams {
        payer: k(payer), oracle_queue: k(oracle_queue), callback_program_id: k(callback_program_id),
        callback_discriminator: callback_discriminator.clone(), caller_seed, callback_args: None,
        accounts_metas: Some(callback_accounts.iter().map(|m| ChainSerializableAccountMeta { pubkey: k(&m.pubkey), is_signer: m.is_signer, is_writable: m.is_writable }).collect()),
    });
    Instruction {
        program_id: Pubkey { bytes: ix.program_id.to_bytes() },
        accounts: ix.accounts.iter().map(|m| crate::cpi::AccountMeta { pubkey: Pubkey { bytes: m.pubkey.to_bytes() }, is_signer: m.is_signer, is_writable: m.is_writable }).collect(),
        data: ix.data,
    }
}

/// A randomness request and the seeds the program signs it with.
#[derive(Debug)]
pub struct VrfRequest {
    pub instruction: Instruction,
    pub signer_seeds: Vec<Vec<u8>>,
}

/// Accounts of the randomness request, with those the VRF helper adds.
#[derive(Clone, Copy, Debug)]
pub struct RequestData {
    pub payer: Signer,
    pub user: ProgramAccount<UserAccount>,
    pub oracle_queue: KeyedAccount,
    pub program_identity: Pubkey,
    pub vrf_program: Pubkey,
    pub slot_hashes: Pubkey,
    pub system_program: Pubkey,
}

fn make_user_seeds(payer: &Pubkey) -> (r: Vec<Vec<u8>>)
    ensures
        seeds_view(r@) == seq![user_seed(), payer.bytes@],
{
    let mut tag: Vec<u8> = Vec::new();
    tag.push(117u8);
    tag.push(115u8);
    tag.push(101u8);
    tag.push(114u8);
    assert(tag@ =~= user_seed());
    let key_seed = payer.to_seed();
    let mut r: Vec<Vec<u8>> = Vec::new();
    r.push(tag);
    r.push(key_seed);
    assert(seeds_view(r@)[0] == user_seed());
    assert(seeds_view(r@)[1] == payer.bytes@);
    assert(seeds_view(r@) =~= seq![user_seed(), payer.bytes@]);
    r
}

fn make_identity_seeds() -> (r: Vec<Vec<u8>>)
    ensures
        seeds_view(r@) == seq![identity_seed()],
{
    let mut tag: Vec<u8> = Vec::new();
    tag.push(105u8);
    tag.push(100u8);
    tag.push(101u8);
    tag.push(110u8);
    tag.push(116u8);
    tag.push(105u8);
    tag.push(116u8);
    tag.push(121u8);
    assert(tag@ =~= identity_seed());
    let mut r: Vec<Vec<u8>> = Vec::new();
    r.push(tag);
    assert(seeds_view(r@)[0] == identity_seed());
    assert(seeds_view(r@) =~= seq![identity_seed()]);
    r
}

impl RequestData {
    /// In the framework's order: the payer must sign; the user account must
    /// exist; the VRF program and the system program must be passed. Then:
    /// the payer must be writable; the user account must be at the address
    /// found for `[b"user", payer]`; the oracle queue must be writable; the
    /// program identity must be at the address found for `[b"identity"]`;
    /// the slot-hashes account must be the sysvar.
    pub open spec fn spec_validate(self, program_id: Pubkey) -> Result<(), AccountError> {
        if !self.payer.is_signer {
            Err(AccountError::AccountNotSigner)
        } else if spec_check_account(self.user, program_id) is Err {
            spec_check_account(self.user, program_id)
        } else if spec_check_program(self.vrf_program, VRF_PROGRAM_ID@) is Err
            || spec_check_program(self.system_program, SYSTEM_PROGRAM_ID@) is Err {
            Err(AccountError::InvalidProgramId)
        } else if !self.payer.is_writable {
            Err(AccountError::ConstraintMut)
        } else {
            match spec_check_canonical_seeds(self.user.key, seq![user_seed(), self.payer.key.bytes@], program_id) {
                Err(e) => Err(e),
                Ok(_) => if !self.oracle_queue.is_writable { Err(AccountError::ConstraintMut) } else {
                    match spec_check_canonical_seeds(self.program_identity, seq![identity_seed()], program_id) {
                    Err(e) => Err(e),
                    Ok(_) => if self.slot_hashes.bytes@ == SLOT_HASHES_ID@ { Ok(()) } else { Err(AccountError::ConstraintAddress) },
                    }
                },
            }
        }
    }

    pub fn validate(&self, program_id: &Pubkey) -> (r: Result<(), AccountError>)
        ensures
            r == self.spec_validate(*program_id),
    {
        if !self.payer.is_signer {
            return Err(AccountError::AccountNotSigner);
        }
        check_account(&self.user, program_id)?;
        if check_program(&self.vrf_program, VRF_PROGRAM_ID).is_err() || check_program(&self.system_program, SYSTEM_PROGRAM_ID).is_err() {
            return Err(AccountError::InvalidProgramId);
        }
        if !self.payer.is_writable {
            return Err(AccountError::ConstraintMut);
        }
        let user_seeds = make_user_seeds(&self.payer.key);
        check_canonical_seeds(&self.user.key, &user_seeds, program_id)?;
        if !self.oracle_queue.is_writable {
            return Err(AccountError::ConstraintMut);
        }
        let identity_seeds = make_identity_seeds();
        check_canonical_seeds(&self.program_identity, &identity_seeds, program_id)?;
        let sysvar = Pubkey::new(SLOT_HASHES_ID);
        if self.slot_hashes.equals(&sysvar) {
            Ok(())
        } else {
            proof {
                if self.slot_hashes.bytes@ == SLOT_HASHES_ID@ {
                    assert(self.slot_hashes.bytes =~= sysvar.bytes);
                }
            }
            Err(AccountError::ConstraintAddress)
        }
    }

    /// The randomness request: the caller seed is `client_seed` repeated 32
    /// times, the callback goes to this program's `callback_data`
    /// instruction, and the user account is passed back to it, writable. The
    /// program signs it as its identity, with `[b"identity", [bump]]` for the
    /// bump found for `[b"identity"]`.
    pub fn request_data(&self, program_id: &Pubkey, client_seed: u8) -> (r: Result<VrfRequest, AccountError>)
        ensures
            canonical_address(seq![identity_seed()], program_id.bytes@) is None ==> r == Err::<VrfRequest, AccountError>(AccountError::NoViableBump),
            r matches Ok(req) ==> seeds_view(req.signer_seeds@)
                == seeds_with_bump(seq![identity_seed()], (canonical_address(seq![identity_seed()], program_id.bytes@)->0).1),
            r matches Ok(req) ==> {
                let ix = req.instruction;
                &&& ix.program_id.bytes@ == VRF_PROGRAM_ID@
                &&& ix.accounts@.len() == 5
                &&& ix.accounts@[0] == meta(self.payer.key, true, true)
                &&& ix.accounts@[1].pubkey.bytes@ == (canonical_address(seq![identity_seed()], program_id.bytes@)->0).0
                &&& ix.accounts@[1].is_signer && !ix.accounts@[1].is_writable
                &&& ix.accounts@[2] == meta(self.oracle_queue.key, false, true)
                &&& ix.accounts@[3].pubkey.bytes@ == SYSTEM_PROGRAM_ID@ && !ix.accounts@[3].is_signer && !ix.accounts@[3].is_writable
                &&& ix.accounts@[4].pubkey.bytes@ == SLOT_HASHES_ID@ && !ix.accounts@[4].is_signer && !ix.accounts@[4].is_writable
                &&& ix.data@ == vrf_request_data(Seq::new(32, |i: int| client_seed), program_id.bytes@, CALLBACK_DATA_DISCRIMINATOR@,
                    seq![SerializableAccountMeta { pubkey: self.user.key, is_signer: false, is_writable: true }])
            },
            canonical_address(seq![identity_seed()], program_id.bytes@) is Some ==> r is Ok,
    {
        let identity_seeds = make_identity_seeds();
        let bump = match find_program_address(&identity_seeds, program_id) {
            None => { return Err(AccountError::NoViableBump); },
            Some(found) => found.1,
        };
        let mut signer_seeds = make_identity_seeds();
        let mut b: Vec<u8> = Vec::new();
        b.push(bump);
        assert(b@ =~= seq![bump]);
        signer_seeds.push(b);
        assert(seeds_view(signer_seeds@) =~= seeds_with_bump(seq![identity_seed()], bump));
        let caller_seed: [u8; 32] = [client_seed; 32];
        assert(caller_seed@ =~= Seq::new(32, |i: int| client_seed));
        let mut callback_accounts: Vec<SerializableAccountMeta> = Vec::new();
        callback_accounts.push(SerializableAccountMeta { pubkey: self.user.key, is_signer: false, is_writable: true });
        assert(callback_accounts@ =~= seq![SerializableAccountMeta { pubkey: self.user.key, is_signer: false, is_writable: true }]);
        let mut callback_discriminator: Vec<u8> = Vec::new();
        let mut i: usize = 0;
        while i < 8
            invariant
                i <= 8,
                callback_discriminator@ == CALLBACK_DATA_DISCRIMINATOR@.subrange(0, i as int),
            decreases 8 - i,
        {
            callback_discriminator.push(CALLBACK_DATA_DISCRIMINATOR[i]);
            assert(callback_discriminator@ =~= CALLBACK_DATA_DISCRIMINATOR@.subrange(0, i + 1));
            i = i + 1;
        }
        assert(callback_discriminator@ =~= CALLBACK_DATA_DISCRIMINATOR@);
        let instruction = request_randomness_instruction(&self.payer.key, &self.oracle_queue.key, program_id, &callback_discriminator, &callback_accounts, caller_seed);
        Ok(VrfRequest { instruction, signer_seeds })
    }
}

/// A randomness request only reads the user account: whether it is passed
/// writable never changes the request's account checks.
pub proof fn lemma_request_ignores_user_writability(program_id: Pubkey, req: RequestData, writable: bool)
    ensures
        (RequestData { user: ProgramAccount { is_writable: writable, ..req.user }, ..req }).spec_validate(program_id) == req.spec_validate(program_id),
{
}

/// A randomness request gets through its account checks exactly when the
/// constraints it declares hold: the payer signs and is writable; the user
/// account is an account of the program holding data, at the canonical
/// address of `[b"user", payer]`; the oracle queue is writable; the program
/// identity is at the canonical address of `[b"identity"]`; the VRF program,
/// the slot-hashes sysvar and the system program are the fixed ones.
pub proof fn lemma_request_accounts_accepted(program_id: Pubkey, req: RequestData)
    ensures
        req.spec_validate(program_id) is Ok <==> {
            &&& req.payer.is_signer && req.payer.is_writable
            &&& spec_check_account(req.user, program_id) is Ok
            &&& spec_check_canonical_seeds(req.user.key, seq![user_seed(), req.payer.key.bytes@], program_id) is Ok
            &&& req.oracle_queue.is_writable
            &&& spec_check_canonical_seeds(req.program_identity, seq![identity_seed()], program_id) is Ok
            &&& req.vrf_program.bytes@ == VRF_PROGRAM_ID@
            &&& req.slot_hashes.bytes@ == SLOT_HASHES_ID@
            &&& req.system_program.bytes@ == SYSTEM_PROGRAM_ID@
        },
{
}

/// The VRF program's callback gets through its checks exactly when the
/// program identity signs and is the VRF program's identity, and the user
/// account, which it writes, is writable.
pub proof fn lemma_callback_accounts_accepted(cb: CallbackData)
    ensures
        cb.spec_validate() is Ok <==> {
            &&& cb.vrf_program_identity.is_signer
            &&& cb.vrf_program_identity.key.bytes@ == VRF_PROGRAM_IDENTITY@
            &&& cb.user_is_writable
        },
{
}

} // verus!
