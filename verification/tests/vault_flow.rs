use anchor_lang::prelude::Pubkey as ChainPubkey;
use anchor_spl::token_2022::spl_token_2022::extension::transfer_hook::TransferHookAccount;
use anchor_spl::token_2022::spl_token_2022::extension::{
    BaseStateWithExtensionsMut, ExtensionType, StateWithExtensionsMut,
};
use anchor_spl::token_2022::spl_token_2022::state::{Account as ChainAccount, AccountState};
use vault_programs::accounts::{AccountError, KeyedAccount, Mint, ProgramAccount, Rejection, Signer, TokenAccount};
use vault_programs::cpi::{Instruction, RemainingAccount};
use vault_programs::hook::{
    initialize_extra_account_meta_list, transfer_hook, InitializeExtraAccountMetaList, TransferHook, UncheckedAccount,
};
use vault_programs::pubkey::{
    Pubkey, ASSOCIATED_TOKEN_PROGRAM_ID, SYSTEM_PROGRAM_ID, TOKEN_2022_PROGRAM_ID, VAULT_PROGRAM_ID,
};
use vault_programs::vault::{
    add_to_whitelist, deposit, finish_initialize_vault, initialize_vault, mint_to_user, remove_from_whitelist, withdraw,
    AddToWhitelist, Deposit, ErrorCode, InitializeVault, MintToUser, RemoveFromWhitelist, Vault,
    WhitelistEntry, Withdraw,
};

const DECIMALS: u8 = 6;
const ONE_TOKEN: u64 = 1_000_000;

/// `GmipBC1S63hkEm9gpHKdUzqWAFwdmuJH8M1bNqSrQMi5`
const HOOK_PROGRAM_ID: [u8; 32] = [
    234, 84, 35, 85, 191, 196, 88, 82, 194, 223, 248, 24, 152, 59, 158, 182, 71, 109, 137, 235,
    51, 109, 171, 27, 174, 140, 99, 96, 92, 119, 248, 230,
];

fn key(b: u8) -> Pubkey {
    Pubkey::new([b; 32])
}

fn pda(seeds: &[&[u8]], program: &Pubkey) -> (Pubkey, u8) {
    let (k, bump) = ChainPubkey::find_program_address(seeds, &ChainPubkey::new_from_array(program.bytes));
    (Pubkey::new(k.to_bytes()), bump)
}

/// Token-2022 account data with the transfer-hook extension, as the token
/// program lays it out while a transfer runs.
fn token_account_data(mint: &Pubkey, owner: &Pubkey, amount: u64, transferring: bool) -> Vec<u8> {
    let len = ExtensionType::try_calculate_account_len::<ChainAccount>(&[ExtensionType::TransferHookAccount]).unwrap();
    let mut buf = vec![0u8; len];
    let mut state = StateWithExtensionsMut::<ChainAccount>::unpack_uninitialized(&mut buf).unwrap();
    state.base = ChainAccount {
        mint: ChainPubkey::new_from_array(mint.bytes),
        owner: ChainPubkey::new_from_array(owner.bytes),
        amount,
        state: AccountState::Initialized,
        ..Default::default()
    };
    state.pack_base();
    state.init_account_type().unwrap();
    let ext = state.init_extension::<TransferHookAccount>(true).unwrap();
    ext.transferring = transferring.into();
    buf
}

fn signer(k: &Pubkey) -> Signer {
    Signer { key: *k, is_signer: true, is_writable: true }
}

fn ata(wallet: &Pubkey, mint: &Pubkey, token_program: &Pubkey) -> Pubkey {
    pda(&[&wallet.bytes, &token_program.bytes, &mint.bytes], &Pubkey::new(ASSOCIATED_TOKEN_PROGRAM_ID)).0
}

/// Rent of a whitelist entry, in lamports.
const ENTRY_RENT: u64 = 1_231_920;

/// The accounts that live on the simulated chain: the vault program's
/// accounts, lamport balances and the token accounts of one mint.
struct Chain {
    program_id: Pubkey,
    vault_key: Pubkey,
    vault: Option<Vault>,
    entries: Vec<(Pubkey, WhitelistEntry)>,
    lamports: Vec<(Pubkey, u64)>,
    tokens: Vec<TokenAccount>,
    mint: Mint,
}

impl Chain {
    fn lamports_of(&self, k: &Pubkey) -> u64 {
        self.lamports.iter().find(|(a, _)| a == k).map(|(_, l)| *l).unwrap_or(0)
    }

    fn set_lamports(&mut self, k: &Pubkey, amount: u64) {
        self.lamports.retain(|(a, _)| a != k);
        self.lamports.push((*k, amount));
    }

    fn entry(&self, k: &Pubkey) -> ProgramAccount<WhitelistEntry> {
        let data = self.entries.iter().find(|(a, _)| a == k).map(|(_, e)| *e);
        let owner = if data.is_some() { self.program_id } else { Pubkey::new(SYSTEM_PROGRAM_ID) };
        ProgramAccount { key: *k, owner, lamports: self.lamports_of(k), is_writable: true, data }
    }

    fn store_entry(&mut self, account: &ProgramAccount<WhitelistEntry>) {
        self.entries.retain(|(k, _)| *k != account.key);
        if let Some(e) = account.data {
            self.entries.push((account.key, e));
        }
        self.set_lamports(&account.key, account.lamports);
    }

    fn vault_account(&self) -> ProgramAccount<Vault> {
        let owner = if self.vault.is_some() { self.program_id } else { Pubkey::new(SYSTEM_PROGRAM_ID) };
        ProgramAccount { key: self.vault_key, owner, lamports: self.lamports_of(&self.vault_key), is_writable: true, data: self.vault }
    }

    fn token(&self, k: &Pubkey) -> TokenAccount {
        *self.tokens.iter().find(|t| t.key == *k).expect("token account exists")
    }

    fn balance(&self, k: &Pubkey) -> u64 {
        self.token(k).amount
    }

    fn set_balance(&mut self, k: &Pubkey, amount: u64) {
        for t in self.tokens.iter_mut() {
            if t.key == *k {
                t.amount = amount;
            }
        }
    }

    fn amount_of(data: &[u8]) -> u64 {
        u64::from_le_bytes(data[1..9].try_into().unwrap())
    }

    /// Runs a `MintTo` instruction.
    fn run_mint_to(&mut self, ix: &Instruction) {
        assert_eq!(ix.data[0], 7);
        let to = ix.accounts[1].pubkey;
        let amount = Self::amount_of(&ix.data);
        let before = self.balance(&to);
        self.set_balance(&to, before + amount);
    }

    /// Runs a `TransferChecked` instruction, calling the mint's transfer hook
    /// with the forwarded accounts, as Token-2022 does. A failure comes back
    /// as a program error code.
    fn run_transfer(&mut self, ix: &Instruction) -> Result<(), u64> {
        assert_eq!(ix.data[0], 12);
        assert_eq!(ix.data[9], DECIMALS);
        let source = self.token(&ix.accounts[0].pubkey);
        let destination = self.token(&ix.accounts[2].pubkey);
        let amount = Self::amount_of(&ix.data);
        if source.owner != ix.accounts[3].pubkey {
            return Err(4);
        }
        if source.amount < amount {
            return Err(1);
        }
        let entry_key = ix.accounts[7].pubkey;
        let entry = self.entry(&entry_key);
        let hook = TransferHook {
            source_token: source,
            source_token_data: token_account_data(&source.mint, &source.owner, source.amount, true),
            mint: self.mint,
            destination_token: destination,
            owner: source.owner,
            extra_account_meta_list: ix.accounts[4].pubkey,
            vault_program: ix.accounts[5].pubkey,
            vault: ix.accounts[6].pubkey,
            whitelist_entry: UncheckedAccount {
                key: entry_key,
                owner: if entry.data.is_some() { self.program_id } else { Pubkey::new(SYSTEM_PROGRAM_ID) },
                data_len: if entry.data.is_some() { WhitelistEntry::SPACE } else { 0 },
                is_writable: false,
            },
        };
        transfer_hook(&Pubkey::new(HOOK_PROGRAM_ID), &hook, amount).map_err(|_| 6000u64)?;
        self.set_balance(&source.key, source.amount - amount);
        let dest_before = self.balance(&destination.key);
        self.set_balance(&destination.key, dest_before + amount);
        Ok(())
    }

    /// The hook's extra accounts for a transfer whose source is owned by
    /// `source_owner`: validation list, vault program, vault, the owner's
    /// whitelist entry, and the hook program.
    fn hook_accounts(&self, source_owner: &Pubkey) -> Vec<RemainingAccount> {
        let (extra_meta, _) = pda(&[b"extra-account-metas", &self.mint.key.bytes], &Pubkey::new(HOOK_PROGRAM_ID));
        let (source_entry, _) = pda(&[b"whitelist", &source_owner.bytes], &self.program_id);
        [extra_meta, self.program_id, self.vault_key, source_entry, Pubkey::new(HOOK_PROGRAM_ID)]
            .iter()
            .map(|k| RemainingAccount { key: *k, is_signer: false, is_writable: false })
            .collect()
    }

    fn add_signed(&mut self, admin: &Signer, user: &Pubkey) -> Result<(), String> {
        let (entry_key, _) = pda(&[b"whitelist", &user.bytes], &self.program_id);
        let accounts = AddToWhitelist {
            admin: *admin,
            vault: self.vault_account(),
            entry: self.entry(&entry_key),
            system_program: Pubkey::new(SYSTEM_PROGRAM_ID),
        };
        let (entry, creation) = add_to_whitelist(&self.program_id, &accounts, *user).map_err(|e| format!("{:?}", e))?;
        assert_eq!(creation.account, entry_key);
        assert_eq!(creation.space, WhitelistEntry::SPACE);
        let payer = self.lamports_of(&creation.payer);
        self.set_lamports(&creation.payer, payer - ENTRY_RENT);
        self.store_entry(&ProgramAccount { key: entry_key, owner: self.program_id, lamports: ENTRY_RENT, is_writable: true, data: Some(entry) });
        Ok(())
    }

    fn add(&mut self, admin: &Pubkey, user: &Pubkey) -> Result<(), String> {
        self.add_signed(&signer(admin), user)
    }

    fn remove_signed(&mut self, admin: &Signer, user: &Pubkey) -> Result<(), String> {
        let (entry_key, _) = pda(&[b"whitelist", &user.bytes], &self.program_id);
        let mut accounts = RemoveFromWhitelist {
            admin: *admin,
            admin_lamports: self.lamports_of(&admin.key),
            vault: self.vault_account(),
            entry: self.entry(&entry_key),
        };
        remove_from_whitelist(&self.program_id, &mut accounts, *user).map_err(|e| format!("{:?}", e))?;
        self.set_lamports(&admin.key, accounts.admin_lamports);
        self.store_entry(&accounts.entry);
        Ok(())
    }

    fn remove(&mut self, admin: &Pubkey, user: &Pubkey) -> Result<(), String> {
        self.remove_signed(&signer(admin), user)
    }

    fn deposit_accounts(&self, user: &Pubkey, user_ata: &Pubkey, vault_ata: &Pubkey) -> Deposit {
        let (entry_key, _) = pda(&[b"whitelist", &user.bytes], &self.program_id);
        Deposit {
            user: signer(user),
            vault: self.vault_account(),
            user_entry: self.entry(&entry_key),
            mint: self.mint,
            user_token_account: self.token(user_ata),
            vault_token_account: self.token(vault_ata),
            token_program: Pubkey::new(TOKEN_2022_PROGRAM_ID),
            remaining_accounts: self.hook_accounts(user),
        }
    }

    fn withdraw_accounts(&self, user: &Pubkey, user_ata: &Pubkey, vault_ata: &Pubkey) -> Withdraw {
        let (entry_key, _) = pda(&[b"whitelist", &user.bytes], &self.program_id);
        Withdraw {
            user: signer(user),
            vault: self.vault_account(),
            user_entry: self.entry(&entry_key),
            mint: self.mint,
            user_token_account: self.token(user_ata),
            vault_token_account: self.token(vault_ata),
            token_program: Pubkey::new(TOKEN_2022_PROGRAM_ID),
            remaining_accounts: self.hook_accounts(&self.vault_key),
        }
    }

    fn deposit(&mut self, user: &Pubkey, user_ata: &Pubkey, vault_ata: &Pubkey, amount: u64) -> Result<(), String> {
        let mut accounts = self.deposit_accounts(user, user_ata, vault_ata);
        let ix = deposit(&self.program_id, &accounts, amount).map_err(|e| format!("{:?}", e))?;
        let outcome = self.run_transfer(&ix);
        accounts.finish(amount, outcome).map_err(|e| format!("{:?}", e))?;
        self.store_entry(&accounts.user_entry);
        Ok(())
    }

    fn withdraw(&mut self, user: &Pubkey, user_ata: &Pubkey, vault_ata: &Pubkey, amount: u64) -> Result<(), String> {
        let mut accounts = self.withdraw_accounts(user, user_ata, vault_ata);
        let signed = withdraw(&self.program_id, &accounts, amount).map_err(|e| format!("{:?}", e))?;
        let outcome = self.run_transfer(&signed.instruction);
        accounts.finish(amount, outcome).map_err(|e| format!("{:?}", e))?;
        self.store_entry(&accounts.user_entry);
        Ok(())
    }
}

fn init_vault_accounts(admin: &Pubkey, vault_key: Pubkey, mint: Mint, vault_ata: Pubkey) -> InitializeVault {
    InitializeVault {
        admin: signer(admin),
        vault: ProgramAccount { key: vault_key, owner: Pubkey::new(SYSTEM_PROGRAM_ID), lamports: 0, is_writable: true, data: None },
        mint,
        vault_token_account: KeyedAccount { key: vault_ata, is_writable: true },
        token_program: Pubkey::new(TOKEN_2022_PROGRAM_ID),
        associated_token_program: Pubkey::new(ASSOCIATED_TOKEN_PROGRAM_ID),
        system_program: Pubkey::new(SYSTEM_PROGRAM_ID),
    }
}

fn setup() -> (Chain, Pubkey, Pubkey, Pubkey, Pubkey) {
    let program_id = Pubkey::new(VAULT_PROGRAM_ID);
    let admin = key(1);
    let outsider = key(2);
    let mint_key = key(3);
    let token_program = Pubkey::new(TOKEN_2022_PROGRAM_ID);
    let (vault_key, _) = pda(&[b"vault"], &program_id);
    let mint = Mint { key: mint_key, owner_program: Pubkey::new(TOKEN_2022_PROGRAM_ID), is_writable: true, decimals: DECIMALS, mint_authority: Some(vault_key) };
    let vault_ata = ata(&vault_key, &mint_key, &token_program);
    let admin_ata = key(11);
    let mut chain = Chain {
        program_id,
        vault_key,
        vault: None,
        entries: Vec::new(),
        lamports: vec![(admin, 10_000_000_000), (outsider, 5_000_000_000)],
        tokens: Vec::new(),
        mint,
    };
    let accounts = init_vault_accounts(&admin, vault_key, mint, vault_ata);
    let setup = initialize_vault(&program_id, &accounts).expect("initialize_vault failed");
    assert_eq!(setup.token_account_creation.accounts[1].pubkey, vault_ata);
    let created = token_account_data(&mint_key, &vault_key, 0, false);
    let vault = finish_initialize_vault(&program_id, &accounts, &setup.bumps, Ok(()), &token_program, &created)
        .expect("initialize_vault failed");
    chain.vault = Some(vault);
    chain.tokens.push(TokenAccount { key: vault_ata, owner_program: Pubkey::new(TOKEN_2022_PROGRAM_ID), is_writable: true, mint: mint_key, owner: vault_key, amount: 0 });
    chain.tokens.push(TokenAccount { key: admin_ata, owner_program: Pubkey::new(TOKEN_2022_PROGRAM_ID), is_writable: true, mint: mint_key, owner: admin, amount: 0 });

    let (list_key, _) = pda(&[b"extra-account-metas", &mint_key.bytes], &Pubkey::new(HOOK_PROGRAM_ID));
    let init = InitializeExtraAccountMetaList {
        payer: signer(&admin),
        extra_account_meta_list: UncheckedAccount { key: list_key, owner: Pubkey::new(SYSTEM_PROGRAM_ID), data_len: 0, is_writable: true },
        mint,
        system_program: Pubkey::new(SYSTEM_PROGRAM_ID),
    };
    let creation = init.validate(&Pubkey::new(HOOK_PROGRAM_ID)).expect("init extra meta list failed");
    let mut list = vec![0u8; creation.space];
    initialize_extra_account_meta_list(&mut list).expect("init extra meta list failed");
    (chain, admin, outsider, vault_ata, admin_ata)
}

#[test]
fn test_full_vault_flow() {
    let (mut chain, admin, outsider, vault_ata, admin_ata) = setup();

    chain.add(&admin, &admin).expect("add admin to whitelist failed");

    let mint_amount = 100 * ONE_TOKEN;
    let (admin_entry, _) = pda(&[b"whitelist", &admin.bytes], &chain.program_id);
    let accounts = MintToUser {
        admin: signer(&admin),
        vault: chain.vault_account(),
        recipient: admin,
        recipient_entry: chain.entry(&admin_entry),
        mint: chain.mint,
        recipient_token_account: chain.token(&admin_ata),
        token_program: Pubkey::new(TOKEN_2022_PROGRAM_ID),
    };
    let signed = mint_to_user(&chain.program_id, &accounts, mint_amount).expect("create ATA + mint_to_user failed");
    chain.run_mint_to(&signed.instruction);

    chain.deposit(&admin, &admin_ata, &vault_ata, 30 * ONE_TOKEN).expect("deposit failed");
    assert_eq!(chain.balance(&vault_ata), 30 * ONE_TOKEN, "vault should hold 30");
    assert_eq!(chain.balance(&admin_ata), 70 * ONE_TOKEN, "admin should hold 70");

    chain.withdraw(&admin, &admin_ata, &vault_ata, 10 * ONE_TOKEN).expect("withdraw failed");
    assert_eq!(chain.balance(&vault_ata), 20 * ONE_TOKEN, "vault should hold 20 after withdraw");

    chain.remove(&admin, &admin).expect("remove from whitelist failed");
    let res = chain.deposit(&admin, &admin_ata, &vault_ata, ONE_TOKEN);
    assert!(res.is_err(), "deposit after removal must fail — entry PDA no longer exists");

    let outsider_ata = key(12);
    chain.tokens.push(TokenAccount { key: outsider_ata, owner_program: Pubkey::new(TOKEN_2022_PROGRAM_ID), is_writable: true, mint: chain.mint.key, owner: outsider, amount: 0 });
    let res = chain.deposit(&outsider, &outsider_ata, &vault_ata, ONE_TOKEN);
    assert!(res.is_err(), "outsider deposit must fail — never whitelisted");

    chain.add(&admin, &admin).expect("re-add to whitelist failed");
    chain.deposit(&admin, &admin_ata, &vault_ata, 5 * ONE_TOKEN).expect("deposit after re-add failed");
    assert_eq!(chain.balance(&vault_ata), 25 * ONE_TOKEN, "vault holds 25 after final deposit");
}

#[test]
fn test_recorded_amounts_follow_deposits_and_withdrawals() {
    let (mut chain, admin, _, vault_ata, admin_ata) = setup();
    chain.add(&admin, &admin).unwrap();
    chain.set_balance(&admin_ata, 50);
    chain.deposit(&admin, &admin_ata, &vault_ata, 40).unwrap();
    chain.withdraw(&admin, &admin_ata, &vault_ata, 15).unwrap();
    let (entry_key, _) = pda(&[b"whitelist", &admin.bytes], &chain.program_id);
    assert_eq!(chain.entry(&entry_key).data.unwrap().amount, 25);
    // A fresh entry after removal starts from nothing.
    chain.remove(&admin, &admin).unwrap();
    chain.add(&admin, &admin).unwrap();
    assert_eq!(chain.entry(&entry_key).data.unwrap().amount, 0);
}

#[test]
fn test_removal_closes_entry_into_admin() {
    let (mut chain, admin, _, _, _) = setup();
    let before = chain.lamports_of(&admin);
    chain.add(&admin, &admin).unwrap();
    assert_eq!(chain.lamports_of(&admin), before - ENTRY_RENT);
    let (entry_key, _) = pda(&[b"whitelist", &admin.bytes], &chain.program_id);
    assert_eq!(chain.entry(&entry_key).lamports, ENTRY_RENT);
    chain.remove(&admin, &admin).unwrap();
    let closed = chain.entry(&entry_key);
    assert!(closed.data.is_none());
    assert_eq!(closed.lamports, 0);
    assert_eq!(chain.lamports_of(&admin), before);
    // Removing again finds no entry.
    assert_eq!(chain.remove(&admin, &admin).unwrap_err(), format!("{:?}", Rejection::<ErrorCode>::Account(AccountError::AccountNotInitialized)));
}

#[test]
fn test_removal_refused_changes_nothing() {
    let (mut chain, admin, _, _, _) = setup();
    chain.add(&admin, &admin).unwrap();
    let (entry_key, _) = pda(&[b"whitelist", &admin.bytes], &chain.program_id);
    let mut accounts = RemoveFromWhitelist {
        admin: signer(&admin),
        admin_lamports: u64::MAX,
        vault: chain.vault_account(),
        entry: chain.entry(&entry_key),
    };
    assert_eq!(
        remove_from_whitelist(&chain.program_id, &mut accounts, admin).unwrap_err(),
        Rejection::Account(AccountError::ArithmeticOverflow)
    );
    assert_eq!(accounts.admin_lamports, u64::MAX);
    assert_eq!(accounts.entry.lamports, ENTRY_RENT);
    assert!(accounts.entry.data.is_some());
}

#[test]
fn test_unsigned_accounts_are_refused() {
    let (mut chain, admin, _, vault_ata, admin_ata) = setup();
    let unsigned = Signer { key: admin, is_signer: false, is_writable: true };
    let refused = format!("{:?}", Rejection::<ErrorCode>::Account(AccountError::AccountNotSigner));
    assert_eq!(chain.add_signed(&unsigned, &admin).unwrap_err(), refused);
    chain.add(&admin, &admin).unwrap();
    assert_eq!(chain.remove_signed(&unsigned, &admin).unwrap_err(), refused);
    let (admin_entry, _) = pda(&[b"whitelist", &admin.bytes], &chain.program_id);
    let accounts = MintToUser {
        admin: unsigned,
        vault: chain.vault_account(),
        recipient: admin,
        recipient_entry: chain.entry(&admin_entry),
        mint: chain.mint,
        recipient_token_account: chain.token(&admin_ata),
        token_program: Pubkey::new(TOKEN_2022_PROGRAM_ID),
    };
    assert_eq!(mint_to_user(&chain.program_id, &accounts, 1).unwrap_err(), Rejection::Account(AccountError::AccountNotSigner));
    chain.set_balance(&admin_ata, 10);
    chain.deposit(&admin, &admin_ata, &vault_ata, 10).unwrap();
    let d = Deposit { user: unsigned, ..chain.deposit_accounts(&admin, &admin_ata, &vault_ata) };
    assert_eq!(deposit(&chain.program_id, &d, 1).unwrap_err(), Rejection::Account(AccountError::AccountNotSigner));
    let w = Withdraw { user: unsigned, ..chain.withdraw_accounts(&admin, &admin_ata, &vault_ata) };
    assert_eq!(withdraw(&chain.program_id, &w, 1).unwrap_err(), Rejection::Account(AccountError::AccountNotSigner));
    let init = InitializeVault {
        admin: Signer { key: key(5), is_signer: false, is_writable: true },
        ..init_vault_accounts(&key(5), chain.vault_key, chain.mint, vault_ata)
    };
    assert_eq!(initialize_vault(&chain.program_id, &init).unwrap_err(), Rejection::Account(AccountError::AccountNotSigner));
}

#[test]
fn test_failed_transfer_leaves_entry_unchanged() {
    let (mut chain, admin, _, vault_ata, admin_ata) = setup();
    chain.add(&admin, &admin).unwrap();
    // The admin holds no tokens: the token program refuses the transfer.
    assert_eq!(
        chain.deposit(&admin, &admin_ata, &vault_ata, 5).unwrap_err(),
        format!("{:?}", Rejection::<ErrorCode>::Account(AccountError::Failed(1)))
    );
    let (entry_key, _) = pda(&[b"whitelist", &admin.bytes], &chain.program_id);
    assert_eq!(chain.entry(&entry_key).data.unwrap().amount, 0);
    let mut accounts = chain.deposit_accounts(&admin, &admin_ata, &vault_ata);
    assert!(accounts.finish(7, Ok(())).is_ok());
    assert_eq!(accounts.user_entry.data.unwrap().amount, 7);
    let mut w = chain.withdraw_accounts(&admin, &admin_ata, &vault_ata);
    w.user_entry = accounts.user_entry;
    assert_eq!(w.finish(3, Err(17)).unwrap_err(), Rejection::Account(AccountError::Failed(17)));
    assert_eq!(w.user_entry.data.unwrap().amount, 7);
    assert!(w.finish(3, Ok(())).is_ok());
    assert_eq!(w.user_entry.data.unwrap().amount, 4);
}

#[test]
fn test_withdraw_more_than_deposited_is_refused() {
    let (mut chain, admin, _, vault_ata, admin_ata) = setup();
    chain.add(&admin, &admin).unwrap();
    chain.set_balance(&admin_ata, 10);
    chain.deposit(&admin, &admin_ata, &vault_ata, 10).unwrap();
    let accounts = Withdraw { remaining_accounts: Vec::new(), ..chain.withdraw_accounts(&admin, &admin_ata, &vault_ata) };
    assert_eq!(withdraw(&chain.program_id, &accounts, 11).unwrap_err(), Rejection::Program(ErrorCode::InsufficientDeposit));
    assert!(withdraw(&chain.program_id, &accounts, 10).is_ok());
}

#[test]
fn test_withdraw_to_someone_elses_account_is_refused() {
    let (mut chain, admin, outsider, vault_ata, admin_ata) = setup();
    chain.add(&admin, &admin).unwrap();
    chain.set_balance(&admin_ata, 10);
    chain.deposit(&admin, &admin_ata, &vault_ata, 10).unwrap();
    let outsider_ata = key(12);
    chain.tokens.push(TokenAccount { key: outsider_ata, owner_program: Pubkey::new(TOKEN_2022_PROGRAM_ID), is_writable: true, mint: chain.mint.key, owner: outsider, amount: 0 });
    let accounts = Withdraw { user_token_account: chain.token(&outsider_ata), ..chain.withdraw_accounts(&admin, &admin_ata, &vault_ata) };
    assert_eq!(withdraw(&chain.program_id, &accounts, 1).unwrap_err(), Rejection::Account(AccountError::ConstraintTokenOwner));
}

#[test]
fn test_only_admin_may_whitelist_or_mint() {
    let (mut chain, admin, outsider, _, admin_ata) = setup();
    assert_eq!(chain.add(&outsider, &outsider).unwrap_err(), format!("{:?}", Rejection::<ErrorCode>::Program(ErrorCode::UnauthorizedAdmin)));
    chain.add(&admin, &admin).unwrap();
    assert_eq!(chain.remove(&outsider, &admin).unwrap_err(), format!("{:?}", Rejection::<ErrorCode>::Program(ErrorCode::UnauthorizedAdmin)));
    let (admin_entry, _) = pda(&[b"whitelist", &admin.bytes], &chain.program_id);
    let accounts = MintToUser {
        admin: signer(&outsider),
        vault: chain.vault_account(),
        recipient: admin,
        recipient_entry: chain.entry(&admin_entry),
        mint: chain.mint,
        recipient_token_account: chain.token(&admin_ata),
        token_program: Pubkey::new(TOKEN_2022_PROGRAM_ID),
    };
    assert_eq!(mint_to_user(&chain.program_id, &accounts, 1).unwrap_err(), Rejection::Program(ErrorCode::UnauthorizedAdmin));
}

#[test]
fn test_whitelisting_twice_is_refused() {
    let (mut chain, admin, _, _, _) = setup();
    chain.add(&admin, &admin).unwrap();
    assert_eq!(chain.add(&admin, &admin).unwrap_err(), format!("{:?}", Rejection::<ErrorCode>::Account(AccountError::AccountAlreadyInUse)));
}

#[test]
fn test_entry_of_another_user_is_not_whitelisted() {
    let (mut chain, admin, outsider, vault_ata, _) = setup();
    chain.add(&admin, &admin).unwrap();
    let (admin_entry, _) = pda(&[b"whitelist", &admin.bytes], &chain.program_id);
    let (outsider_entry, _) = pda(&[b"whitelist", &outsider.bytes], &chain.program_id);
    // The admin's entry, placed at the outsider's entry address.
    let entry = chain.entry(&admin_entry).data.unwrap();
    let outsider_ata = key(12);
    chain.tokens.push(TokenAccount { key: outsider_ata, owner_program: Pubkey::new(TOKEN_2022_PROGRAM_ID), is_writable: true, mint: chain.mint.key, owner: outsider, amount: 5 });
    let accounts = Deposit {
        user: signer(&outsider),
        vault: chain.vault_account(),
        user_entry: ProgramAccount {
            key: outsider_entry,
            owner: chain.program_id,
            lamports: ENTRY_RENT,
            is_writable: true,
            data: Some(WhitelistEntry { bump: pda(&[b"whitelist", &outsider.bytes], &chain.program_id).1, ..entry }),
        },
        mint: chain.mint,
        user_token_account: chain.token(&outsider_ata),
        vault_token_account: chain.token(&vault_ata),
        token_program: Pubkey::new(TOKEN_2022_PROGRAM_ID),
        remaining_accounts: Vec::new(),
    };
    assert_eq!(deposit(&chain.program_id, &accounts, 1).unwrap_err(), Rejection::Program(ErrorCode::NotWhitelisted));
    // The admin's own entry at the admin's address, presented for the outsider.
    let accounts = Deposit { user_entry: chain.entry(&admin_entry), ..accounts };
    assert_eq!(deposit(&chain.program_id, &accounts, 1).unwrap_err(), Rejection::Account(AccountError::ConstraintSeeds));
}

#[test]
fn test_initialize_requires_vault_mint_authority() {
    let program_id = Pubkey::new(VAULT_PROGRAM_ID);
    let token_program = Pubkey::new(TOKEN_2022_PROGRAM_ID);
    let (vault_key, bump) = pda(&[b"vault"], &program_id);
    let admin = key(1);
    let vault_ata = ata(&vault_key, &key(3), &token_program);
    let mint = Mint { key: key(3), owner_program: token_program, is_writable: false, decimals: DECIMALS, mint_authority: Some(admin) };
    let created = token_account_data(&key(3), &vault_key, 0, false);
    let wrong = init_vault_accounts(&admin, vault_key, mint, vault_ata);
    let setup = initialize_vault(&program_id, &wrong).unwrap();
    assert_eq!(
        finish_initialize_vault(&program_id, &wrong, &setup.bumps, Ok(()), &token_program, &created).unwrap_err(),
        Rejection::Account(AccountError::ConstraintRaw)
    );
    let no_authority = InitializeVault { mint: Mint { mint_authority: None, ..wrong.mint }, ..wrong };
    assert_eq!(
        finish_initialize_vault(&program_id, &no_authority, &setup.bumps, Ok(()), &token_program, &created).unwrap_err(),
        Rejection::Account(AccountError::ConstraintRaw)
    );
    let elsewhere = InitializeVault { vault: ProgramAccount { key: key(9), owner: Pubkey::new(SYSTEM_PROGRAM_ID), lamports: 0, is_writable: true, data: None }, ..wrong };
    assert_eq!(initialize_vault(&program_id, &elsewhere).unwrap_err(), Rejection::Account(AccountError::ConstraintSeeds));
    let right = InitializeVault { mint: Mint { mint_authority: Some(vault_key), ..wrong.mint }, ..wrong };
    let setup = initialize_vault(&program_id, &right).unwrap();
    let vault = finish_initialize_vault(&program_id, &right, &setup.bumps, Ok(()), &token_program, &created).unwrap();
    assert_eq!(vault.bump, bump);
    assert_eq!(vault.admin, admin);
    assert_eq!(vault.mint, key(3));
    assert_eq!(setup.vault_creation.space, 73);
    assert_eq!(setup.vault_creation.account, vault_key);
    assert_eq!(setup.vault_creation.signer_seeds, vec![b"vault".to_vec(), vec![bump]]);
    let again = InitializeVault { vault: ProgramAccount { key: vault_key, owner: program_id, lamports: 1, is_writable: true, data: Some(vault) }, ..right };
    assert_eq!(initialize_vault(&program_id, &again).unwrap_err(), Rejection::Account(AccountError::AccountAlreadyInUse));
}

#[test]
fn test_initialize_creates_vault_token_account() {
    let program_id = Pubkey::new(VAULT_PROGRAM_ID);
    let token_program = Pubkey::new(TOKEN_2022_PROGRAM_ID);
    let (vault_key, _) = pda(&[b"vault"], &program_id);
    let admin = key(1);
    let mint = Mint { key: key(3), owner_program: token_program, is_writable: false, decimals: DECIMALS, mint_authority: Some(vault_key) };
    let vault_ata = ata(&vault_key, &mint.key, &token_program);
    let accounts = init_vault_accounts(&admin, vault_key, mint, vault_ata);
    let setup = initialize_vault(&program_id, &accounts).unwrap();
    let ix = setup.token_account_creation;
    assert_eq!(ix.program_id, Pubkey::new(ASSOCIATED_TOKEN_PROGRAM_ID));
    assert_eq!(ix.data, vec![0]);
    assert_eq!(ix.accounts[0].pubkey, admin);
    assert_eq!(ix.accounts[1].pubkey, vault_ata);
    assert_eq!(ix.accounts[2].pubkey, vault_key);
    assert_eq!(ix.accounts[3].pubkey, mint.key);
    assert_eq!(ix.accounts[5].pubkey, token_program);
    // The creation names the vault's associated address: another account passed is missing from the call.
    let misplaced = InitializeVault { vault_token_account: KeyedAccount { key: key(10), is_writable: true }, ..accounts };
    assert_eq!(initialize_vault(&program_id, &misplaced).unwrap_err(), Rejection::Account(AccountError::MissingAccount));
    let read_only = InitializeVault { vault_token_account: KeyedAccount { key: vault_ata, is_writable: false }, ..accounts };
    assert_eq!(initialize_vault(&program_id, &read_only).unwrap_err(), Rejection::Account(AccountError::PrivilegeEscalation));
    let good = token_account_data(&mint.key, &vault_key, 0, false);
    let bumps = setup.bumps;
    assert!(finish_initialize_vault(&program_id, &accounts, &bumps, Ok(()), &token_program, &good).is_ok());
    assert_eq!(
        finish_initialize_vault(&program_id, &accounts, &bumps, Err(3), &token_program, &good).unwrap_err(),
        Rejection::Account(AccountError::Failed(3))
    );
    assert_eq!(
        finish_initialize_vault(&program_id, &accounts, &bumps, Ok(()), &Pubkey::new(SYSTEM_PROGRAM_ID), &good).unwrap_err(),
        Rejection::Account(AccountError::AccountOwnedByWrongProgram)
    );
    assert!(matches!(
        finish_initialize_vault(&program_id, &accounts, &bumps, Ok(()), &token_program, &vec![7u8; 10]).unwrap_err(),
        Rejection::Account(AccountError::Failed(_))
    ));
    // Program accounts and the mint's owner.
    let bad_token = InitializeVault { token_program: key(77), ..accounts };
    assert_eq!(initialize_vault(&program_id, &bad_token).unwrap_err(), Rejection::Account(AccountError::InvalidProgramId));
    let bad_system = InitializeVault { system_program: key(78), ..accounts };
    assert_eq!(initialize_vault(&program_id, &bad_system).unwrap_err(), Rejection::Account(AccountError::InvalidProgramId));
    let foreign_mint = InitializeVault { mint: Mint { owner_program: key(79), ..mint }, ..accounts };
    assert_eq!(initialize_vault(&program_id, &foreign_mint).unwrap_err(), Rejection::Account(AccountError::AccountOwnedByWrongProgram));
    let read_only_admin = InitializeVault { admin: Signer { key: admin, is_signer: true, is_writable: false }, ..accounts };
    assert_eq!(initialize_vault(&program_id, &read_only_admin).unwrap_err(), Rejection::Account(AccountError::PrivilegeEscalation));
}

#[test]
fn test_framework_account_checks() {
    let (mut chain, admin, _, vault_ata, admin_ata) = setup();
    chain.add(&admin, &admin).unwrap();
    chain.set_balance(&admin_ata, 10);
    chain.deposit(&admin, &admin_ata, &vault_ata, 10).unwrap();
    let d = chain.deposit_accounts(&admin, &admin_ata, &vault_ata);
    let w = chain.withdraw_accounts(&admin, &admin_ata, &vault_ata);
    // A wrong token program is refused first, with the framework's error, also ahead of the deposit guard.
    let bad = Withdraw { token_program: key(77), ..chain.withdraw_accounts(&admin, &admin_ata, &vault_ata) };
    assert_eq!(withdraw(&chain.program_id, &bad, 1_000).unwrap_err(), Rejection::Account(AccountError::InvalidProgramId));
    let bad = Deposit { token_program: key(77), ..chain.deposit_accounts(&admin, &admin_ata, &vault_ata) };
    assert_eq!(deposit(&chain.program_id, &bad, 1).unwrap_err(), Rejection::Account(AccountError::InvalidProgramId));
    // Token accounts owned by another program.
    let foreign = Deposit { user_token_account: TokenAccount { owner_program: key(80), ..d.user_token_account }, ..chain.deposit_accounts(&admin, &admin_ata, &vault_ata) };
    assert_eq!(deposit(&chain.program_id, &foreign, 1).unwrap_err(), Rejection::Account(AccountError::AccountOwnedByWrongProgram));
    // The same account for two mutable fields.
    let twice = Deposit { vault_token_account: d.user_token_account, ..chain.deposit_accounts(&admin, &admin_ata, &vault_ata) };
    assert_eq!(deposit(&chain.program_id, &twice, 1).unwrap_err(), Rejection::Account(AccountError::ConstraintDuplicateMutableAccount));
    // Accounts that must be writable.
    let ro_user = Deposit { user: Signer { key: admin, is_signer: true, is_writable: false }, ..chain.deposit_accounts(&admin, &admin_ata, &vault_ata) };
    assert_eq!(deposit(&chain.program_id, &ro_user, 1).unwrap_err(), Rejection::Account(AccountError::ConstraintMut));
    let ro_entry = Withdraw { user_entry: ProgramAccount { is_writable: false, ..w.user_entry }, ..chain.withdraw_accounts(&admin, &admin_ata, &vault_ata) };
    assert_eq!(withdraw(&chain.program_id, &ro_entry, 1).unwrap_err(), Rejection::Account(AccountError::ConstraintMut));
    let ro_mint = Withdraw { mint: Mint { is_writable: false, ..w.mint }, ..chain.withdraw_accounts(&admin, &admin_ata, &vault_ata) };
    assert_eq!(withdraw(&chain.program_id, &ro_mint, 1).unwrap_err(), Rejection::Account(AccountError::ConstraintMut));
    let ro_vault_ata = Withdraw { vault_token_account: TokenAccount { is_writable: false, ..w.vault_token_account }, ..chain.withdraw_accounts(&admin, &admin_ata, &vault_ata) };
    assert_eq!(withdraw(&chain.program_id, &ro_vault_ata, 1).unwrap_err(), Rejection::Account(AccountError::ConstraintMut));
    // Admin instructions.
    let (entry_key, _) = pda(&[b"whitelist", &admin.bytes], &chain.program_id);
    let mut ro_remove = RemoveFromWhitelist {
        admin: signer(&admin),
        admin_lamports: chain.lamports_of(&admin),
        vault: chain.vault_account(),
        entry: ProgramAccount { is_writable: false, ..chain.entry(&entry_key) },
    };
    assert_eq!(remove_from_whitelist(&chain.program_id, &mut ro_remove, admin).unwrap_err(), Rejection::Account(AccountError::ConstraintMut));
    let (other_entry, _) = pda(&[b"whitelist", &key(44).bytes], &chain.program_id);
    let bad_system = AddToWhitelist { admin: signer(&admin), vault: chain.vault_account(), entry: chain.entry(&other_entry), system_program: key(81) };
    assert_eq!(add_to_whitelist(&chain.program_id, &bad_system, key(44)).unwrap_err(), Rejection::Account(AccountError::InvalidProgramId));
    let ro_entry_add = AddToWhitelist { entry: ProgramAccount { is_writable: false, ..chain.entry(&other_entry) }, system_program: Pubkey::new(SYSTEM_PROGRAM_ID), ..bad_system };
    assert_eq!(add_to_whitelist(&chain.program_id, &ro_entry_add, key(44)).unwrap_err(), Rejection::Account(AccountError::PrivilegeEscalation));
    let mint_accounts = MintToUser {
        admin: signer(&admin),
        vault: chain.vault_account(),
        recipient: admin,
        recipient_entry: chain.entry(&entry_key),
        mint: chain.mint,
        recipient_token_account: chain.token(&admin_ata),
        token_program: key(77),
    };
    assert_eq!(mint_to_user(&chain.program_id, &mint_accounts, 1).unwrap_err(), Rejection::Account(AccountError::InvalidProgramId));
    let ro_recipient = MintToUser {
        token_program: Pubkey::new(TOKEN_2022_PROGRAM_ID),
        recipient_token_account: TokenAccount { is_writable: false, ..chain.token(&admin_ata) },
        ..mint_accounts
    };
    assert_eq!(mint_to_user(&chain.program_id, &ro_recipient, 1).unwrap_err(), Rejection::Account(AccountError::ConstraintMut));
}

#[test]
fn test_deposit_instruction_layout() {
    let (mut chain, admin, _, vault_ata, admin_ata) = setup();
    chain.add(&admin, &admin).unwrap();
    let accounts = chain.deposit_accounts(&admin, &admin_ata, &vault_ata);
    let remaining = accounts.remaining_accounts.clone();
    let ix = deposit(&chain.program_id, &accounts, 0x0102_0304_0506_0708).unwrap();
    assert_eq!(ix.program_id, Pubkey::new(TOKEN_2022_PROGRAM_ID));
    assert_eq!(ix.data, vec![12, 8, 7, 6, 5, 4, 3, 2, 1, DECIMALS]);
    assert_eq!(ix.accounts.len(), 9);
    assert_eq!(ix.accounts[0].pubkey, admin_ata);
    assert!(ix.accounts[0].is_writable && !ix.accounts[0].is_signer);
    assert_eq!(ix.accounts[1].pubkey, chain.mint.key);
    assert!(!ix.accounts[1].is_writable);
    assert_eq!(ix.accounts[2].pubkey, vault_ata);
    assert_eq!(ix.accounts[3].pubkey, admin);
    assert!(ix.accounts[3].is_signer);
    for (i, r) in remaining.iter().enumerate() {
        assert_eq!(ix.accounts[4 + i].pubkey, r.key);
    }
    // Not a token program: refused by the account checks.
    let accounts = Deposit { token_program: key(77), ..accounts };
    assert_eq!(deposit(&chain.program_id, &accounts, 1).unwrap_err(), Rejection::Account(AccountError::InvalidProgramId));
}

#[test]
fn test_withdraw_is_signed_by_vault_seeds() {
    let (mut chain, admin, _, vault_ata, admin_ata) = setup();
    chain.add(&admin, &admin).unwrap();
    chain.set_balance(&admin_ata, 3);
    chain.deposit(&admin, &admin_ata, &vault_ata, 3).unwrap();
    let accounts = Withdraw { remaining_accounts: Vec::new(), ..chain.withdraw_accounts(&admin, &admin_ata, &vault_ata) };
    let signed = withdraw(&chain.program_id, &accounts, 2).unwrap();
    let bump = chain.vault.unwrap().bump;
    assert_eq!(signed.signer_seeds, vec![b"vault".to_vec(), vec![bump]]);
    let refs: Vec<&[u8]> = signed.signer_seeds.iter().map(|s| s.as_slice()).collect();
    let signer = ChainPubkey::create_program_address(&refs, &ChainPubkey::new_from_array(chain.program_id.bytes)).unwrap();
    assert_eq!(signer.to_bytes(), chain.vault_key.bytes);
    assert_eq!(signed.instruction.accounts[0].pubkey, vault_ata);
    assert_eq!(signed.instruction.accounts[2].pubkey, admin_ata);
    assert_eq!(signed.instruction.accounts[3].pubkey, chain.vault_key);
}

#[test]
fn test_recorded_total_stays_backed_by_vault_balance() {
    let (mut chain, admin, outsider, vault_ata, admin_ata) = setup();
    let outsider_ata = key(12);
    chain.tokens.push(TokenAccount { key: outsider_ata, owner_program: Pubkey::new(TOKEN_2022_PROGRAM_ID), is_writable: true, mint: chain.mint.key, owner: outsider, amount: 40 });
    chain.set_balance(&admin_ata, 60);
    chain.add(&admin, &admin).unwrap();
    chain.add(&admin, &outsider).unwrap();
    let recorded = |c: &Chain| c.entries.iter().map(|(_, e)| e.amount).sum::<u64>();
    chain.deposit(&admin, &admin_ata, &vault_ata, 25).unwrap();
    assert!(recorded(&chain) <= chain.balance(&vault_ata));
    chain.deposit(&outsider, &outsider_ata, &vault_ata, 40).unwrap();
    assert_eq!(recorded(&chain), 65);
    assert_eq!(chain.balance(&vault_ata), 65);
    chain.withdraw(&outsider, &outsider_ata, &vault_ata, 15).unwrap();
    assert_eq!(recorded(&chain), 50);
    assert_eq!(chain.balance(&vault_ata), 50);
    // Removing the outsider drops its record; the tokens stay in the vault.
    chain.remove(&admin, &outsider).unwrap();
    assert_eq!(recorded(&chain), 25);
    assert_eq!(chain.balance(&vault_ata), 50);
    // Re-added, the outsider may withdraw only what it deposits anew.
    chain.add(&admin, &outsider).unwrap();
    let accounts = chain.withdraw_accounts(&outsider, &outsider_ata, &vault_ata);
    assert_eq!(withdraw(&chain.program_id, &accounts, 1).unwrap_err(), Rejection::Program(ErrorCode::InsufficientDeposit));
    chain.deposit(&outsider, &outsider_ata, &vault_ata, 5).unwrap();
    let accounts = chain.withdraw_accounts(&outsider, &outsider_ata, &vault_ata);
    assert_eq!(withdraw(&chain.program_id, &accounts, 6).unwrap_err(), Rejection::Program(ErrorCode::InsufficientDeposit));
    chain.withdraw(&outsider, &outsider_ata, &vault_ata, 5).unwrap();
    assert!(recorded(&chain) <= chain.balance(&vault_ata));
}

#[test]
fn test_withdraw_after_deposit_restores_everything() {
    let (mut chain, admin, _, vault_ata, admin_ata) = setup();
    chain.add(&admin, &admin).unwrap();
    chain.set_balance(&admin_ata, 30);
    chain.deposit(&admin, &admin_ata, &vault_ata, 10).unwrap();
    let (entry_key, _) = pda(&[b"whitelist", &admin.bytes], &chain.program_id);
    let before = (chain.balance(&admin_ata), chain.balance(&vault_ata), chain.entry(&entry_key).data.unwrap().amount);
    chain.deposit(&admin, &admin_ata, &vault_ata, 7).unwrap();
    assert_eq!(chain.entry(&entry_key).data.unwrap().amount, 17);
    chain.withdraw(&admin, &admin_ata, &vault_ata, 7).unwrap();
    let after = (chain.balance(&admin_ata), chain.balance(&vault_ata), chain.entry(&entry_key).data.unwrap().amount);
    assert_eq!(before, (20, 10, 10));
    assert_eq!(after, before);
}
