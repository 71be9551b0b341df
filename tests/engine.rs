use solana_program::program_pack::Pack;
use solana_program::pubkey::Pubkey as LedgerKey;
use solana_program::rent::Rent;
use spl_token::state::{Account as TokenAccount, AccountState};
use std::str::FromStr;
use whitelist::error::{ProcessError, WhiteListError};
use whitelist::instruction::WhiteListInstruction;
use whitelist::ledger::{AccountView, Action, Context, Finish, ProgramIds};
use whitelist::processor::WhiteListProcessor;
use whitelist::pubkey::Pubkey;
use whitelist::state::{WhitelistPDAGlobalState, WhitelistUserState};

const PRICE: u64 = 1_000_000;
const NOW: i64 = 1_700_000_000;

fn lib(k: &LedgerKey) -> Pubkey {
    Pubkey::new_from_array(k.to_bytes())
}

fn ledger(k: &Pubkey) -> LedgerKey {
    LedgerKey::new_from_array(k.to_bytes())
}

fn fixed(n: u8) -> LedgerKey {
    LedgerKey::new_from_array([n; 32])
}

fn program_id() -> LedgerKey {
    LedgerKey::from_str("FSeLPB3DLwMfnQr6oG4YX9cdmGaZ2M99wCDt7TgGbzoF").unwrap()
}

fn ctx() -> Context {
    let rent = Rent::default();
    Context {
        ids: ProgramIds::standard(),
        now: NOW,
        state_rent_minimum: rent.minimum_balance(362),
        holding_rent_minimum: rent.minimum_balance(165),
    }
}

fn view(key: &LedgerKey, owner: &LedgerKey, is_signer: bool, lamports: u64, data: Vec<u8>) -> AccountView {
    AccountView { key: lib(key), owner: lib(owner), is_signer, lamports, data }
}

fn token_data(mint: &LedgerKey, owner: &LedgerKey, amount: u64) -> Vec<u8> {
    let account = TokenAccount {
        mint: *mint,
        owner: *owner,
        amount,
        state: AccountState::Initialized,
        ..TokenAccount::default()
    };
    let mut data = vec![0u8; TokenAccount::LEN];
    TokenAccount::pack(account, &mut data).unwrap();
    data
}

fn pool_data(nonce: u8) -> Vec<u8> {
    let mut d = vec![1u8, 1, nonce];
    for n in 0..7u8 {
        d.extend_from_slice(&[100 + n; 32]);
    }
    d.extend_from_slice(&[0u8; 64]);
    d.push(0);
    d.extend_from_slice(&[0u8; 32]);
    d
}

fn users() -> Vec<LedgerKey> {
    (1..=6u8).map(fixed).collect()
}

fn init_data(bump: u8, price: u64) -> Vec<u8> {
    let mut d = vec![0u8, bump];
    d.extend_from_slice(&price.to_le_bytes());
    for u in users() {
        d.extend_from_slice(u.as_ref());
    }
    d
}

struct InitSetup {
    accounts: Vec<AccountView>,
    bump: u8,
    state_key: LedgerKey,
}

fn init_setup() -> InitSetup {
    let creator = fixed(40);
    let pool = fixed(41);
    let mint = fixed(42);
    let target_token = fixed(43);
    let native_token = fixed(44);
    let (authority, nonce) = LedgerKey::find_program_address(&[pool.as_ref()], &spl_token_swap::id());
    let (state_key, bump) = LedgerKey::find_program_address(
        &[b"whitelistpda", creator.as_ref(), target_token.as_ref()],
        &program_id(),
    );
    let system = solana_program::system_program::id();
    let accounts = vec![
        view(&creator, &system, true, 10_000_000_000, vec![]),
        view(&state_key, &system, false, 0, vec![]),
        view(&pool, &spl_token_swap::id(), false, 1, pool_data(nonce)),
        view(&mint, &spl_token::id(), false, 1, vec![]),
        view(&target_token, &spl_token::id(), false, 1, token_data(&mint, &authority, 500)),
        view(
            &native_token,
            &spl_token::id(),
            false,
            1,
            token_data(&spl_token::native_mint::id(), &authority, 500),
        ),
        view(&system, &fixed(0), false, 1, vec![]),
    ];
    InitSetup { accounts, bump, state_key }
}

fn run(accounts: &[AccountView], data: &[u8]) -> Result<whitelist::ledger::Plan, ProcessError> {
    WhiteListProcessor::process(&lib(&program_id()), accounts, data, &ctx())
}

#[test]
fn standard_ids_are_the_deployed_ones() {
    let ids = ProgramIds::standard();
    assert_eq!(ledger(&ids.token_program), spl_token::id());
    assert_eq!(ledger(&ids.system_program), solana_program::system_program::id());
    assert_eq!(ledger(&ids.native_mint), spl_token::native_mint::id());
    assert_eq!(ledger(&ids.associated_token_program), spl_associated_token_account::id());
    assert_eq!(ledger(&ids.token_swap_program), spl_token_swap::id());
}

#[test]
fn test_pool_record_is_a_real_pool() {
    assert!(spl_token_swap::state::SwapVersion::unpack(&pool_data(3)).is_ok());
}

#[test]
fn initialize_succeeds_once_then_refuses() {
    let s = init_setup();
    let plan = run(&s.accounts, &init_data(s.bump, PRICE)).unwrap();
    assert_eq!(plan.actions.len(), 3);
    match plan.actions[0] {
        Action::Allocate { account, space, signer } => {
            assert_eq!(ledger(&account), s.state_key);
            assert_eq!(space, 362);
            let seeds = signer.to_seeds();
            let slices: Vec<&[u8]> = seeds.iter().map(|v| v.as_slice()).collect();
            assert_eq!(LedgerKey::create_program_address(&slices, &program_id()).unwrap(), s.state_key);
        }
        other => panic!("unexpected {:?}", other),
    }
    match plan.actions[1] {
        Action::Assign { account, owner, .. } => {
            assert_eq!(ledger(&account), s.state_key);
            assert_eq!(ledger(&owner), program_id());
        }
        other => panic!("unexpected {:?}", other),
    }
    match plan.actions[2] {
        Action::Transfer { from, to, lamports } => {
            assert_eq!(ledger(&from), fixed(40));
            assert_eq!(ledger(&to), s.state_key);
            assert_eq!(lamports, Rent::default().minimum_balance(362));
        }
        other => panic!("unexpected {:?}", other),
    }
    let mut record = vec![0u8; 362];
    WhiteListProcessor::complete(&plan.finish, &mut record).unwrap();
    let stored = WhitelistPDAGlobalState::try_from_slice(&record).unwrap();
    assert!(stored.is_initialized());
    assert_eq!(stored.price_per_token_y, PRICE);
    assert_eq!(stored.global_pda_bump, s.bump);
    assert_eq!(ledger(&stored.whitelist_creator), fixed(40));
    assert_eq!(ledger(&stored.token_swap_pool_state), fixed(41));
    assert_eq!(ledger(&stored.y_mint_account), fixed(42));
    assert_eq!(ledger(&stored.y_token_account), fixed(43));
    assert_eq!(ledger(&stored.native_sol_token_account), fixed(44));
    for (i, k) in stored.whitelist_auth_addresses.iter().enumerate() {
        assert_eq!(ledger(k), users()[i]);
    }

    let again = run(&s.accounts, &init_data(s.bump, PRICE)).unwrap();
    let before = record.clone();
    assert_eq!(
        WhiteListProcessor::complete(&again.finish, &mut record).unwrap_err(),
        ProcessError::AccountAlreadyInitialized
    );
    assert_eq!(record, before);
}

#[test]
fn initialize_rejections() {
    let s = init_setup();
    let good = init_data(s.bump, PRICE);
    assert_eq!(run(&s.accounts[..6], &good).unwrap_err(), ProcessError::NotEnoughAccountKeys);
    assert_eq!(
        run(&s.accounts, &init_data(s.bump, 0)).unwrap_err(),
        ProcessError::InvalidInstructionData
    );

    let mut forged = s.accounts.clone();
    forged[1].key = lib(&fixed(77));
    assert_eq!(run(&forged, &good).unwrap_err(), ProcessError::InvalidAccountData);

    let mut unsigned = s.accounts.clone();
    unsigned[0].is_signer = false;
    assert_eq!(run(&unsigned, &good).unwrap_err(), ProcessError::MissingRequiredSignature);

    let mut foreign_pool = s.accounts.clone();
    foreign_pool[2].owner = lib(&fixed(9));
    assert_eq!(run(&foreign_pool, &good).unwrap_err(), ProcessError::InvalidAccountData);

    let mut stale_pool = s.accounts.clone();
    stale_pool[2].data[0] = 0;
    assert_eq!(run(&stale_pool, &good).unwrap_err(), ProcessError::UninitializedAccount);

    let mut foreign_reserve = s.accounts.clone();
    foreign_reserve[5].owner = lib(&fixed(9));
    assert_eq!(run(&foreign_reserve, &good).unwrap_err(), ProcessError::InvalidAccountData);

    let mut wrong_holder = s.accounts.clone();
    wrong_holder[4].data = token_data(&fixed(42), &fixed(99), 500);
    assert_eq!(
        run(&wrong_holder, &good).unwrap_err(),
        ProcessError::Custom(WhiteListError::IncorrectTokenOwner)
    );

    let mut wrong_system = s.accounts.clone();
    wrong_system[6].key = lib(&fixed(8));
    assert_eq!(run(&wrong_system, &good).unwrap_err(), ProcessError::InvalidAccountData);
}

fn swap_data(amount_in: u64, minimum_out: u64) -> Vec<u8> {
    WhiteListInstruction::SwapSOLToken {
        input_sol_amount: amount_in,
        expected_spl_token_amount: minimum_out,
    }
    .pack()
}

fn global_record(initialized: bool) -> Vec<u8> {
    let keys: Vec<Pubkey> = users().iter().map(lib).collect();
    WhitelistPDAGlobalState {
        whitelist_creator: lib(&fixed(40)),
        global_pda_bump: 255,
        whitelist_auth_addresses: [keys[0], keys[1], keys[2], keys[3], keys[4], keys[5]],
        is_initialized: initialized,
        token_swap_pool_state: lib(&fixed(41)),
        y_mint_account: lib(&fixed(42)),
        y_token_account: lib(&fixed(43)),
        native_sol_token_account: lib(&fixed(44)),
        price_per_token_y: PRICE,
    }
    .serialize()
}

fn swap_accounts(caller: &LedgerKey, native_balance: u64, target_balance: u64) -> Vec<AccountView> {
    let token = spl_token::id();
    let program = program_id();
    vec![
        view(caller, &solana_program::system_program::id(), true, 5_000_000, vec![]),
        view(&fixed(50), &program, false, 1, vec![0u8; 73]),
        view(&fixed(51), &program, false, 1, global_record(true)),
        view(&fixed(41), &spl_token_swap::id(), false, 1, pool_data(1)),
        view(&fixed(52), &fixed(0), false, 0, vec![]),
        view(&fixed(53), &fixed(0), true, 0, vec![]),
        view(
            &fixed(54),
            &token,
            false,
            1,
            token_data(&spl_token::native_mint::id(), caller, native_balance),
        ),
        view(&fixed(55), &token, false, 1, token_data(&fixed(42), caller, target_balance)),
        view(&fixed(56), &token, false, 1, vec![]),
        view(&fixed(57), &token, false, 1, vec![]),
        view(&fixed(58), &token, false, 1, vec![]),
        view(&fixed(59), &token, false, 1, vec![]),
        view(&fixed(60), &token, false, 1, vec![]),
        view(&token, &fixed(0), false, 1, vec![]),
        view(&spl_token_swap::id(), &fixed(0), false, 1, vec![]),
    ]
}

#[test]
fn swap_happy_path_then_replay_refused() {
    let caller = fixed(1);
    let mut accounts = swap_accounts(&caller, 2_000_000, 0);
    let plan = run(&accounts, &swap_data(1_000_000, 10)).unwrap();
    assert_eq!(plan.actions.len(), 1);
    match plan.actions[0] {
        Action::Swap { call } => {
            assert_eq!(ledger(&call.pool), fixed(41));
            assert_eq!(ledger(&call.authority), fixed(52));
            assert_eq!(ledger(&call.user_transfer_authority), fixed(53));
            assert_eq!(ledger(&call.source), fixed(54));
            assert_eq!(ledger(&call.destination), fixed(55));
            assert_eq!(ledger(&call.swap_source), fixed(56));
            assert_eq!(ledger(&call.swap_destination), fixed(57));
            assert_eq!(ledger(&call.pool_mint), fixed(58));
            assert_eq!(ledger(&call.pool_fee), fixed(59));
            assert_eq!(ledger(&call.host_fee), fixed(60));
            assert_eq!(call.amount_in, 1_000_000);
            assert_eq!(call.minimum_amount_out, 10);
        }
        other => panic!("unexpected {:?}", other),
    }
    let mut record = accounts[1].data.clone();
    WhiteListProcessor::complete(&plan.finish, &mut record).unwrap();
    let stored = WhitelistUserState::try_from_slice(&record).unwrap();
    assert!(stored.is_initialized());
    assert_eq!(ledger(&stored.whitelisted_by_account), caller);
    assert_eq!(stored.whitelisted_at, NOW);
    assert_eq!(ledger(&stored.user_transfer_authority_account), fixed(53));

    accounts[1].data = record;
    accounts[6].data = token_data(&spl_token::native_mint::id(), &caller, 1_000_000);
    accounts[7].data = token_data(&fixed(42), &caller, 25);
    assert_eq!(
        run(&accounts, &swap_data(1_000_000, 10)).unwrap_err(),
        ProcessError::AccountAlreadyInitialized
    );
}

#[test]
fn swap_refuses_callers_outside_the_whitelist() {
    let stranger = fixed(7);
    let accounts = swap_accounts(&stranger, u64::MAX, 0);
    assert_eq!(
        run(&accounts, &swap_data(1, 1)).unwrap_err(),
        ProcessError::Custom(WhiteListError::AccountNotWhitelisted)
    );
}

#[test]
fn swap_refuses_a_balance_below_the_price() {
    let accounts = swap_accounts(&fixed(2), PRICE - 1, 0);
    assert_eq!(run(&accounts, &swap_data(1, 1)).unwrap_err(), ProcessError::InsufficientFunds);
    let exact = swap_accounts(&fixed(2), PRICE, 0);
    assert!(run(&exact, &swap_data(1, 1)).is_ok());
}

#[test]
fn swap_refuses_a_non_empty_target_holding() {
    let accounts = swap_accounts(&fixed(3), 2_000_000, 1);
    assert_eq!(
        run(&accounts, &swap_data(1, 1)).unwrap_err(),
        ProcessError::Custom(WhiteListError::AccountAlreadyRedeemed)
    );
}

#[test]
fn swap_ownership_and_identity_checks() {
    let caller = fixed(1);
    let data = swap_data(1, 1);
    let base = swap_accounts(&caller, 2_000_000, 0);

    assert_eq!(run(&base[..14], &data).unwrap_err(), ProcessError::NotEnoughAccountKeys);

    let mut unsigned = base.clone();
    unsigned[0].is_signer = false;
    assert_eq!(run(&unsigned, &data).unwrap_err(), ProcessError::MissingRequiredSignature);

    let mut wrong_program = base.clone();
    wrong_program[14].key = lib(&fixed(9));
    assert_eq!(run(&wrong_program, &data).unwrap_err(), ProcessError::IncorrectProgramId);

    for i in [1usize, 2, 3, 6, 7, 8, 9, 10, 11] {
        let mut foreign = base.clone();
        foreign[i].owner = lib(&fixed(9));
        assert_eq!(
            run(&foreign, &data).unwrap_err(),
            ProcessError::Custom(WhiteListError::IncorrectStateAccount)
        );
    }

    let mut bad_record = base.clone();
    bad_record[2].data.pop();
    assert_eq!(run(&bad_record, &data).unwrap_err(), ProcessError::BorshIoError);

    let mut someone_elses = base.clone();
    someone_elses[7].data = token_data(&fixed(42), &fixed(2), 0);
    assert_eq!(run(&someone_elses, &data).unwrap_err(), ProcessError::IllegalOwner);

    let mut wrong_mint = base.clone();
    wrong_mint[7].data = token_data(&fixed(43), &caller, 0);
    assert_eq!(run(&wrong_mint, &data).unwrap_err(), ProcessError::InvalidAccountData);

    let mut empty_holding = base.clone();
    empty_holding[6].data = vec![0u8; 165];
    assert_eq!(run(&empty_holding, &data).unwrap_err(), ProcessError::UninitializedAccount);

    let mut not_live = base.clone();
    not_live[2].data = global_record(false);
    assert_eq!(run(&not_live, &data).unwrap_err(), ProcessError::UninitializedAccount);

    let mut other_pool = base.clone();
    other_pool[3].key = lib(&fixed(61));
    assert_eq!(run(&other_pool, &data).unwrap_err(), ProcessError::InvalidAccountData);
}

fn holding_of(wallet: &LedgerKey) -> LedgerKey {
    spl_associated_token_account::get_associated_token_address(wallet, &spl_token::native_mint::id())
}

fn wrap_data(tag: u8, amount: u64) -> Vec<u8> {
    let mut d = vec![tag];
    d.extend_from_slice(&amount.to_le_bytes());
    d
}

fn create_accounts(balance: u64) -> Vec<AccountView> {
    let wallet = fixed(20);
    let system = solana_program::system_program::id();
    vec![
        view(&wallet, &system, true, balance, vec![]),
        view(&holding_of(&wallet), &system, false, 0, vec![]),
        view(&spl_token::native_mint::id(), &spl_token::id(), false, 1, vec![]),
        view(&system, &fixed(0), false, 1, vec![]),
        view(&spl_token::id(), &fixed(0), false, 1, vec![]),
        view(&spl_associated_token_account::id(), &fixed(0), false, 1, vec![]),
        view(&solana_program::sysvar::rent::id(), &fixed(0), false, 1, vec![]),
    ]
}

#[test]
fn create_and_wrap_plan_and_rejections() {
    let rent = Rent::default().minimum_balance(165);
    let amount = 3_000_000;
    let accounts = create_accounts(amount + rent);
    let plan = run(&accounts, &wrap_data(1, amount)).unwrap();
    assert!(matches!(plan.finish, Finish::Nothing));
    match (plan.actions[0], plan.actions[1]) {
        (
            Action::Transfer { from, to, lamports },
            Action::CreateAssociatedTokenAccount { funder, wallet, mint },
        ) => {
            assert_eq!(ledger(&from), fixed(20));
            assert_eq!(ledger(&to), holding_of(&fixed(20)));
            assert_eq!(lamports, amount);
            assert_eq!(ledger(&funder), fixed(20));
            assert_eq!(ledger(&wallet), fixed(20));
            assert_eq!(ledger(&mint), spl_token::native_mint::id());
        }
        other => panic!("unexpected {:?}", other),
    }

    let short = create_accounts(amount + rent - 1);
    assert_eq!(run(&short, &wrap_data(1, amount)).unwrap_err(), ProcessError::InsufficientFunds);
    let huge = create_accounts(u64::MAX);
    assert_eq!(run(&huge, &wrap_data(1, u64::MAX)).unwrap_err(), ProcessError::InsufficientFunds);

    let mut existing = create_accounts(amount + rent);
    existing[1].owner = lib(&spl_token::id());
    assert_eq!(
        run(&existing, &wrap_data(1, amount)).unwrap_err(),
        ProcessError::AccountAlreadyInitialized
    );

    let mut wrong_mint = create_accounts(amount + rent);
    wrong_mint[2].key = lib(&fixed(42));
    assert_eq!(run(&wrong_mint, &wrap_data(1, amount)).unwrap_err(), ProcessError::IncorrectProgramId);

    let mut wrong_factory = create_accounts(amount + rent);
    wrong_factory[5].key = lib(&fixed(42));
    assert_eq!(
        run(&wrong_factory, &wrap_data(1, amount)).unwrap_err(),
        ProcessError::IncorrectProgramId
    );

    let mut not_canonical = create_accounts(amount + rent);
    not_canonical[1].key = lib(&fixed(20));
    assert_eq!(
        run(&not_canonical, &wrap_data(1, amount)).unwrap_err(),
        ProcessError::InvalidAccountData
    );
}

fn wrap_accounts(balance: u64) -> Vec<AccountView> {
    let wallet = fixed(21);
    let system = solana_program::system_program::id();
    vec![
        view(&wallet, &system, true, balance, vec![]),
        view(&holding_of(&wallet), &spl_token::id(), false, 2_039_280, vec![]),
        view(&system, &fixed(0), false, 1, vec![]),
        view(&spl_token::id(), &fixed(0), false, 1, vec![]),
    ]
}

#[test]
fn wrap_plan_and_rejections() {
    let plan = run(&wrap_accounts(500), &wrap_data(2, 500)).unwrap();
    match (plan.actions[0], plan.actions[1]) {
        (Action::Transfer { from, to, lamports }, Action::SyncNative { account }) => {
            assert_eq!(ledger(&from), fixed(21));
            assert_eq!(ledger(&to), holding_of(&fixed(21)));
            assert_eq!(lamports, 500);
            assert_eq!(ledger(&account), holding_of(&fixed(21)));
        }
        other => panic!("unexpected {:?}", other),
    }
    assert_eq!(run(&wrap_accounts(499), &wrap_data(2, 500)).unwrap_err(), ProcessError::InsufficientFunds);

    let mut unsigned = wrap_accounts(500);
    unsigned[0].is_signer = false;
    assert_eq!(run(&unsigned, &wrap_data(2, 500)).unwrap_err(), ProcessError::MissingRequiredSignature);

    let mut missing = wrap_accounts(500);
    missing[1].owner = lib(&solana_program::system_program::id());
    assert_eq!(run(&missing, &wrap_data(2, 500)).unwrap_err(), ProcessError::UninitializedAccount);

    let mut wrong_token = wrap_accounts(500);
    wrong_token[3].key = lib(&fixed(3));
    assert_eq!(run(&wrong_token, &wrap_data(2, 500)).unwrap_err(), ProcessError::IncorrectProgramId);

    let mut wrong_system = wrap_accounts(500);
    wrong_system[2].key = lib(&fixed(3));
    assert_eq!(run(&wrong_system, &wrap_data(2, 500)).unwrap_err(), ProcessError::IncorrectProgramId);
}

fn unwrap_accounts(holding_lamports: u64) -> Vec<AccountView> {
    let wallet = fixed(20);
    vec![
        view(&wallet, &solana_program::system_program::id(), true, 0, vec![]),
        view(&holding_of(&wallet), &spl_token::id(), false, holding_lamports, vec![]),
        view(&spl_token::id(), &fixed(0), false, 1, vec![]),
    ]
}

#[test]
fn unwrap_closes_the_holding_that_wrapping_filled() {
    let rent = Rent::default().minimum_balance(165);
    let wrapped = run(&create_accounts(1_000 + rent), &wrap_data(1, 1_000)).unwrap();
    let unwrapped = run(&unwrap_accounts(1_000 + rent), &[3u8]).unwrap();
    match (wrapped.actions[0], unwrapped.actions[0]) {
        (Action::Transfer { to, .. }, Action::CloseAccount { account, destination, owner }) => {
            assert_eq!(ledger(&to), ledger(&account));
            assert_eq!(ledger(&destination), fixed(20));
            assert_eq!(ledger(&owner), fixed(20));
        }
        other => panic!("unexpected {:?}", other),
    }
}

#[test]
fn unwrap_rejections() {
    assert_eq!(run(&unwrap_accounts(0), &[3u8]).unwrap_err(), ProcessError::InsufficientFunds);

    let mut unsigned = unwrap_accounts(10);
    unsigned[0].is_signer = false;
    assert_eq!(run(&unsigned, &[3u8]).unwrap_err(), ProcessError::MissingRequiredSignature);

    let mut not_token = unwrap_accounts(10);
    not_token[1].owner = lib(&fixed(5));
    assert_eq!(run(&not_token, &[3u8]).unwrap_err(), ProcessError::IllegalOwner);

    let mut other_holding = unwrap_accounts(10);
    other_holding[1].key = lib(&holding_of(&fixed(22)));
    assert_eq!(run(&other_holding, &[3u8]).unwrap_err(), ProcessError::InvalidAccountData);

    let mut wrong_token = unwrap_accounts(10);
    wrong_token[2].key = lib(&fixed(5));
    assert_eq!(run(&wrong_token, &[3u8]).unwrap_err(), ProcessError::IncorrectProgramId);

    assert_eq!(run(&unwrap_accounts(10)[..2], &[3u8]).unwrap_err(), ProcessError::NotEnoughAccountKeys);
}

#[test]
fn store_user_state_needs_room() {
    let state = WhitelistUserState {
        is_initialized: true,
        whitelisted_by_account: lib(&fixed(1)),
        whitelisted_at: 5,
        user_transfer_authority_account: lib(&fixed(2)),
    };
    let mut small = vec![9u8; 72];
    assert_eq!(
        WhiteListProcessor::store_user_state(&state, &mut small).unwrap_err(),
        ProcessError::BorshIoError
    );
    assert_eq!(small, vec![9u8; 72]);
    let mut large = vec![9u8; 80];
    WhiteListProcessor::store_user_state(&state, &mut large).unwrap();
    assert_eq!(&large[..73], &state.serialize()[..]);
    assert_eq!(&large[73..], &[9u8; 7]);
}

#[test]
fn derived_addresses_agree_with_the_ledger_for_every_bump() {
    let creator = fixed(40);
    let target_token = fixed(43);
    let mut refused = 0;
    for bump in 0..=255u8 {
        let seeds = whitelist::ledger::WhitelistSeeds {
            creator: lib(&creator),
            target_token_account: lib(&target_token),
            bump,
        };
        let expected = LedgerKey::create_program_address(
            &[b"whitelistpda", creator.as_ref(), target_token.as_ref(), &[bump]],
            &program_id(),
        );
        match (seeds.derive_address(&lib(&program_id())), expected) {
            (Ok(k), Ok(e)) => assert_eq!(ledger(&k), e),
            (Err(ProcessError::InvalidSeeds), Err(_)) => refused += 1,
            other => panic!("disagreement at bump {}: {:?}", bump, other),
        }
    }
    assert!(refused > 0);
}

#[test]
fn initialize_with_a_bump_on_the_curve_is_invalid_seeds() {
    let s = init_setup();
    assert_eq!(
        run(&s.accounts, &init_data(curve_bump(), PRICE)).unwrap_err(),
        ProcessError::InvalidSeeds
    );
}

fn curve_bump() -> u8 {
    (0..=255u8)
        .find(|b| {
            LedgerKey::create_program_address(
                &[b"whitelistpda", fixed(40).as_ref(), fixed(43).as_ref(), &[*b]],
                &program_id(),
            )
            .is_err()
        })
        .unwrap()
}

#[test]
fn earlier_initialization_checks_win_over_the_address_derivation() {
    let s = init_setup();
    let bad = curve_bump();

    let mut foreign_pool = s.accounts.clone();
    foreign_pool[2].owner = lib(&fixed(9));
    assert_eq!(run(&foreign_pool, &init_data(bad, PRICE)).unwrap_err(), ProcessError::InvalidAccountData);

    let mut wrong_holder = s.accounts.clone();
    wrong_holder[4].data = token_data(&fixed(42), &fixed(99), 500);
    assert_eq!(
        run(&wrong_holder, &init_data(bad, PRICE)).unwrap_err(),
        ProcessError::Custom(WhiteListError::IncorrectTokenOwner)
    );

    assert_eq!(
        run(&s.accounts, &init_data(bad, 0)).unwrap_err(),
        ProcessError::InvalidInstructionData
    );

    let mut forged_and_free = s.accounts.clone();
    forged_and_free[1].key = lib(&fixed(77));
    assert_eq!(run(&forged_and_free, &init_data(s.bump, 0)).unwrap_err(), ProcessError::InvalidInstructionData);

    let mut unsigned_wrong_holder = s.accounts.clone();
    unsigned_wrong_holder[0].is_signer = false;
    unsigned_wrong_holder[5].data = token_data(&spl_token::native_mint::id(), &fixed(99), 500);
    assert_eq!(
        run(&unsigned_wrong_holder, &init_data(s.bump, PRICE)).unwrap_err(),
        ProcessError::Custom(WhiteListError::IncorrectTokenOwner)
    );
}

#[test]
fn pool_records_decode_as_the_swap_engine_reads_them() {
    let s = init_setup();
    let good = init_data(s.bump, PRICE);
    let cases: Vec<(usize, u8, ProcessError)> = vec![
        (1, 0, ProcessError::UninitializedAccount),
        (1, 2, ProcessError::InvalidAccountData),
        (291, 4, ProcessError::InvalidAccountData),
        (0, 2, ProcessError::UninitializedAccount),
    ];
    for (at, value, expected) in cases {
        let mut accounts = s.accounts.clone();
        accounts[2].data[at] = value;
        assert_eq!(run(&accounts, &good).unwrap_err(), expected);
        assert!(spl_token_swap::state::SwapVersion::unpack(&accounts[2].data).is_err());
    }
    let mut short = s.accounts.clone();
    short[2].data.pop();
    assert_eq!(run(&short, &good).unwrap_err(), ProcessError::InvalidAccountData);
    let mut empty = s.accounts.clone();
    empty[2].data.clear();
    assert_eq!(run(&empty, &good).unwrap_err(), ProcessError::InvalidAccountData);
    for curve in 0..=3u8 {
        let mut accounts = s.accounts.clone();
        accounts[2].data[291] = curve;
        assert!(run(&accounts, &good).is_ok());
    }
}
