use vstd::prelude::*;
use crate::error::{ProcessError, WhiteListError};
use crate::instruction::{decode_instruction, InstructionModel, WhiteListInstruction};
use crate::interop::{
    associated_token_address, get_associated_token_address, create_program_address, decode_token_account, program_address, seeds_view, decode_swap_pool,
    unpack_swap_pool, unpack_token_account, TokenAccountFields, TokenAccountModel,
};
use crate::ledger::{
    outcome_view, AccountView, Action, ActionModel, Context, Finish, FinishModel, Plan, PlanModel,
    ProgramIds, SeedsModel, SwapCall, SwapCallModel, WhitelistSeeds, whitelist_seeds,
};
use crate::pubkey::Pubkey;
use crate::state::{
    decode_global_state, decode_user_state, GlobalStateModel, UserStateModel,
    WhitelistPDAGlobalState, WhitelistUserState, AUTHORIZED_CAPACITY, GLOBAL_STATE_LEN,
    encode_global_state, encode_user_state, global_model_well_formed, lemma_global_state_round_trip,
    lemma_user_state_round_trip, USER_STATE_LEN,
};

verus! {

/// Accounts a swap request names, in order.
pub const SWAP_ACCOUNTS: usize = 15;

pub const SWAP_USER: usize = 0;
pub const SWAP_USER_STATE: usize = 1;
pub const SWAP_GLOBAL_STATE: usize = 2;
pub const SWAP_POOL: usize = 3;
pub const SWAP_AUTHORITY: usize = 4;
pub const SWAP_TRANSFER_AUTHORITY: usize = 5;
pub const SWAP_USER_NATIVE: usize = 6;
pub const SWAP_USER_TARGET: usize = 7;
pub const SWAP_POOL_NATIVE: usize = 8;
pub const SWAP_POOL_TARGET: usize = 9;
pub const SWAP_POOL_MINT: usize = 10;
pub const SWAP_POOL_FEE: usize = 11;
pub const SWAP_HOST_FEE: usize = 12;
pub const SWAP_TOKEN_PROGRAM: usize = 13;
pub const SWAP_SWAP_PROGRAM: usize = 14;

/// Whether `key` is one of the authorized identities.
pub open spec fn is_authorized(addresses: Seq<Seq<u8>>, key: Seq<u8>) -> bool {
    exists|i: int| 0 <= i < addresses.len() && addresses[i] == key
}

/// The account checks of a swap: enough accounts, the caller's signature, the
/// collaborators' identities, and the owners of every record involved.
pub open spec fn swap_account_checks(program_id: Seq<u8>, a: Seq<AccountView>, ids: ProgramIds) -> Result<
    (),
    ProcessError,
> {
    let token = ids.token_program@;
    if a.len() < SWAP_ACCOUNTS {
        Err(ProcessError::NotEnoughAccountKeys)
    } else if !a[SWAP_USER as int].is_signer {
        Err(ProcessError::MissingRequiredSignature)
    } else if a[SWAP_SWAP_PROGRAM as int].key@ != ids.token_swap_program@ {
        Err(ProcessError::IncorrectProgramId)
    } else if a[SWAP_TOKEN_PROGRAM as int].key@ != token {
        Err(ProcessError::IncorrectProgramId)
    } else if a[SWAP_GLOBAL_STATE as int].owner@ != program_id || a[SWAP_USER_STATE as int].owner@
        != program_id || a[SWAP_POOL as int].owner@ != ids.token_swap_program@ || a[SWAP_USER_NATIVE as int].owner@
        != token || a[SWAP_USER_TARGET as int].owner@ != token || a[SWAP_POOL_NATIVE as int].owner@
        != token || a[SWAP_POOL_TARGET as int].owner@ != token || a[SWAP_POOL_MINT as int].owner@ != token
        || a[SWAP_POOL_FEE as int].owner@ != token {
        Err(ProcessError::Custom(WhiteListError::IncorrectStateAccount))
    } else {
        Ok(())
    }
}

/// The authorization steps of a swap, on the decoded records: holdings owned by the
/// caller and of the right mints, a live configuration, an unused
/// redemption record, membership, balance, the configured pool, and an
/// empty target holding.
pub open spec fn swap_gate(
    a: Seq<AccountView>,
    g: GlobalStateModel,
    u: UserStateModel,
    native: TokenAccountModel,
    target: TokenAccountModel,
    ids: ProgramIds,
) -> Result<(), ProcessError> {
    let user = a[SWAP_USER as int].key@;
    if native.owner != user || target.owner != user {
        Err(ProcessError::IllegalOwner)
    } else if native.mint != ids.native_mint@ || target.mint != g.y_mint_account {
        Err(ProcessError::InvalidAccountData)
    } else if !g.is_initialized {
        Err(ProcessError::UninitializedAccount)
    } else if u.is_initialized {
        Err(ProcessError::AccountAlreadyInitialized)
    } else if !is_authorized(g.whitelist_auth_addresses, user) {
        Err(ProcessError::Custom(WhiteListError::AccountNotWhitelisted))
    } else if native.amount < g.price_per_token_y {
        Err(ProcessError::InsufficientFunds)
    } else if a[SWAP_POOL as int].key@ != g.token_swap_pool_state {
        Err(ProcessError::InvalidAccountData)
    } else if target.amount > 0 {
        Err(ProcessError::Custom(WhiteListError::AccountAlreadyRedeemed))
    } else {
        Ok(())
    }
}

/// The effects of a swap that passed every check: one delegated swap, then
/// the redemption record marked used.
pub open spec fn swap_plan(a: Seq<AccountView>, amount_in: u64, minimum_amount_out: u64, now: i64) -> PlanModel {
    let call = SwapCallModel {
        pool: a[SWAP_POOL as int].key@,
        authority: a[SWAP_AUTHORITY as int].key@,
        user_transfer_authority: a[SWAP_TRANSFER_AUTHORITY as int].key@,
        source: a[SWAP_USER_NATIVE as int].key@,
        swap_source: a[SWAP_POOL_NATIVE as int].key@,
        swap_destination: a[SWAP_POOL_TARGET as int].key@,
        destination: a[SWAP_USER_TARGET as int].key@,
        pool_mint: a[SWAP_POOL_MINT as int].key@,
        pool_fee: a[SWAP_POOL_FEE as int].key@,
        host_fee: a[SWAP_HOST_FEE as int].key@,
        amount_in,
        minimum_amount_out,
    };
    PlanModel {
        actions: seq![ActionModel::Swap { call }],
        finish: FinishModel::StoreUserState {
            state: UserStateModel {
                is_initialized: true,
                whitelisted_by_account: a[SWAP_USER as int].key@,
                whitelisted_at: now,
                user_transfer_authority_account: a[SWAP_TRANSFER_AUTHORITY as int].key@,
            },
        },
    }
}

/// The outcome of a swap request: the account checks, then the records
/// decoded in order (configuration, redemption record, native holding,
/// target holding), then the authorization steps, then the plan.
pub open spec fn swap_outcome(
    program_id: Seq<u8>,
    a: Seq<AccountView>,
    amount_in: u64,
    minimum_amount_out: u64,
    ctx: Context,
) -> Result<PlanModel, ProcessError> {
    match swap_account_checks(program_id, a, ctx.ids) {
        Err(e) => Err(e),
        Ok(_) => match decode_global_state(a[SWAP_GLOBAL_STATE as int].data@) {
            None => Err(ProcessError::BorshIoError),
            Some(g) => match decode_user_state(a[SWAP_USER_STATE as int].data@) {
                None => Err(ProcessError::BorshIoError),
                Some(u) => match decode_token_account(a[SWAP_USER_NATIVE as int].data@) {
                    Err(e) => Err(e),
                    Ok(native) => match decode_token_account(a[SWAP_USER_TARGET as int].data@) {
                        Err(e) => Err(e),
                        Ok(target) => match swap_gate(a, g, u, native, target, ctx.ids) {
                            Err(e) => Err(e),
                            Ok(_) => Ok(swap_plan(a, amount_in, minimum_amount_out, ctx.now)),
                        },
                    },
                },
            },
        },
    }
}

/// Accounts an initialization request names, in order.
pub const INIT_ACCOUNTS: usize = 7;

pub const INIT_CREATOR: usize = 0;
pub const INIT_STATE: usize = 1;
pub const INIT_POOL: usize = 2;
pub const INIT_MINT: usize = 3;
pub const INIT_TARGET_TOKEN: usize = 4;
pub const INIT_NATIVE_TOKEN: usize = 5;
pub const INIT_SYSTEM_PROGRAM: usize = 6;

/// The seeds of the swap authority of `pool`.
pub open spec fn authority_seeds(pool: Seq<u8>, bump: u8) -> Seq<Seq<u8>> {
    seq![pool, seq![bump]]
}

/// The checks of an initialization that follow the decoding of both pool
/// reserves: reserves held by the swap authority, a positive price, the
/// configuration address derived from the creator, the target-token holding
/// and the bump, the creator's signature, the system program.
pub open spec fn init_final_checks(
    program_id: Seq<u8>,
    a: Seq<AccountView>,
    bump: u8,
    price: u64,
    authority: Seq<u8>,
    target: TokenAccountModel,
    native: TokenAccountModel,
    ids: ProgramIds,
) -> Result<(), ProcessError> {
    if target.owner != authority || native.owner != authority {
        Err(ProcessError::Custom(WhiteListError::IncorrectTokenOwner))
    } else if price == 0 {
        Err(ProcessError::InvalidInstructionData)
    } else {
        match program_address(
            whitelist_seeds(a[INIT_CREATOR as int].key@, a[INIT_TARGET_TOKEN as int].key@, bump),
            program_id,
        ) {
            None => Err(ProcessError::InvalidSeeds),
            Some(state_address) => if a[INIT_STATE as int].key@ != state_address {
                Err(ProcessError::InvalidAccountData)
            } else if !a[INIT_CREATOR as int].is_signer {
                Err(ProcessError::MissingRequiredSignature)
            } else if a[INIT_SYSTEM_PROGRAM as int].key@ != ids.system_program@ {
                Err(ProcessError::InvalidAccountData)
            } else {
                Ok(())
            },
        }
    }
}

/// The checks of an initialization, in order: the pool's owner and state,
/// the reserves' owners and holders, then the final checks.
pub open spec fn init_checks(program_id: Seq<u8>, a: Seq<AccountView>, bump: u8, price: u64, ids: ProgramIds) -> Result<
    (),
    ProcessError,
> {
    let token = ids.token_program@;
    if a[INIT_POOL as int].owner@ != ids.token_swap_program@ {
        Err(ProcessError::InvalidAccountData)
    } else {
        match decode_swap_pool(a[INIT_POOL as int].data@) {
            Err(e) => Err(e),
            Ok(pool) => if !pool.is_initialized {
                Err(ProcessError::Custom(WhiteListError::IncorrectPoolOwner))
            } else if a[INIT_TARGET_TOKEN as int].owner@ != token || a[INIT_NATIVE_TOKEN as int].owner@ != token {
                Err(ProcessError::InvalidAccountData)
            } else {
                match program_address(
                    authority_seeds(a[INIT_POOL as int].key@, pool.bump_seed),
                    ids.token_swap_program@,
                ) {
                    None => Err(ProcessError::InvalidSeeds),
                    Some(authority) => match decode_token_account(a[INIT_TARGET_TOKEN as int].data@) {
                        Err(e) => Err(e),
                        Ok(target) => match decode_token_account(a[INIT_NATIVE_TOKEN as int].data@) {
                            Err(e) => Err(e),
                            Ok(native) => init_final_checks(program_id, a, bump, price, authority, target, native, ids),
                        },
                    },
                }
            },
        }
    }
}

/// The effects of an initialization that passed every check: reserve the
/// record's storage, hand it to this program, fund it, then write it.
pub open spec fn init_plan(
    program_id: Seq<u8>,
    a: Seq<AccountView>,
    addresses: Seq<Seq<u8>>,
    bump: u8,
    price: u64,
    ctx: Context,
) -> PlanModel {
    let state = a[INIT_STATE as int].key@;
    let creator = a[INIT_CREATOR as int].key@;
    let signer = SeedsModel { creator, target_token_account: a[INIT_TARGET_TOKEN as int].key@, bump };
    PlanModel {
        actions: seq![
            ActionModel::Allocate { account: state, space: GLOBAL_STATE_LEN as u64, signer },
            ActionModel::Assign { account: state, owner: program_id, signer },
            ActionModel::Transfer { from: creator, to: state, lamports: ctx.state_rent_minimum },
        ],
        finish: FinishModel::InitializeState {
            state: GlobalStateModel {
                whitelist_creator: creator,
                global_pda_bump: bump,
                whitelist_auth_addresses: addresses,
                is_initialized: true,
                token_swap_pool_state: a[INIT_POOL as int].key@,
                y_mint_account: a[INIT_MINT as int].key@,
                y_token_account: a[INIT_TARGET_TOKEN as int].key@,
                native_sol_token_account: a[INIT_NATIVE_TOKEN as int].key@,
                price_per_token_y: price,
            },
        },
    }
}

/// The outcome of an initialization request: enough accounts, then every
/// check, then the plan.
pub open spec fn init_outcome(
    program_id: Seq<u8>,
    a: Seq<AccountView>,
    addresses: Seq<Seq<u8>>,
    bump: u8,
    price: u64,
    ctx: Context,
) -> Result<PlanModel, ProcessError> {
    if a.len() < INIT_ACCOUNTS {
        Err(ProcessError::NotEnoughAccountKeys)
    } else {
        match init_checks(program_id, a, bump, price, ctx.ids) {
            Err(e) => Err(e),
            Ok(_) => Ok(init_plan(program_id, a, addresses, bump, price, ctx)),
        }
    }
}

/// What writing `state` into the record `d` gives: the stored form of
/// `state`, unless `d` holds no configuration or an initialized one.
pub open spec fn initialize_write(d: Seq<u8>, state: GlobalStateModel) -> Result<Seq<u8>, ProcessError> {
    match decode_global_state(d) {
        None => Err(ProcessError::BorshIoError),
        Some(current) => if current.is_initialized {
            Err(ProcessError::AccountAlreadyInitialized)
        } else {
            Ok(encode_global_state(state))
        },
    }
}

/// Accounts a wrap request names, in order.
pub const WRAP_ACCOUNTS: usize = 4;

/// Accounts a create-and-wrap request names, in order.
pub const CREATE_WRAP_ACCOUNTS: usize = 7;

/// Accounts an unwrap request names, in order.
pub const UNWRAP_ACCOUNTS: usize = 3;

/// The checks shared by both ways of wrapping: the funder's signature, a
/// balance that covers the amount and the storage fee, the canonical
/// holding, and the token and system programs.
pub open spec fn wrapping_checks(
    storage_fee: u64,
    amount: u64,
    holding_address: Seq<u8>,
    funding: AccountView,
    holding: AccountView,
    token_program: AccountView,
    system_program: AccountView,
    ids: ProgramIds,
) -> Result<(), ProcessError> {
    if !funding.is_signer {
        Err(ProcessError::MissingRequiredSignature)
    } else if funding.lamports < amount + storage_fee {
        Err(ProcessError::InsufficientFunds)
    } else if holding.key@ != holding_address {
        Err(ProcessError::InvalidAccountData)
    } else if token_program.key@ != ids.token_program@ {
        Err(ProcessError::IncorrectProgramId)
    } else if system_program.key@ != ids.system_program@ {
        Err(ProcessError::IncorrectProgramId)
    } else {
        Ok(())
    }
}

/// The canonical wrapped-currency holding of `wallet`.
pub open spec fn native_holding(wallet: Seq<u8>, ids: ProgramIds) -> Seq<u8> {
    associated_token_address(wallet, ids.native_mint@)
}

/// The outcome of wrapping into a holding that exists: the shared checks
/// with no storage fee, a holding owned by the token program; then a
/// deposit and a balance resync.
pub open spec fn wrap_outcome(a: Seq<AccountView>, amount: u64, ctx: Context) -> Result<PlanModel, ProcessError> {
    if a.len() < WRAP_ACCOUNTS {
        Err(ProcessError::NotEnoughAccountKeys)
    } else {
        let address = native_holding(a[0].key@, ctx.ids);
        match wrapping_checks(0, amount, address, a[0], a[1], a[3], a[2], ctx.ids) {
            Err(e) => Err(e),
            Ok(_) => if a[1].owner@ != ctx.ids.token_program@ {
                Err(ProcessError::UninitializedAccount)
            } else {
                Ok(
                    PlanModel {
                        actions: seq![
                            ActionModel::Transfer { from: a[0].key@, to: address, lamports: amount },
                            ActionModel::SyncNative { account: a[1].key@ },
                        ],
                        finish: FinishModel::Nothing,
                    },
                )
            },
        }
    }
}

/// The outcome of creating a holding and wrapping into it: the shared
/// checks with the holding's storage fee, the factory and the mint, a
/// holding not yet created; then a deposit and the holding's creation.
pub open spec fn create_and_wrap_outcome(a: Seq<AccountView>, amount: u64, ctx: Context) -> Result<
    PlanModel,
    ProcessError,
> {
    if a.len() < CREATE_WRAP_ACCOUNTS {
        Err(ProcessError::NotEnoughAccountKeys)
    } else {
        let address = native_holding(a[0].key@, ctx.ids);
        match wrapping_checks(ctx.holding_rent_minimum, amount, address, a[0], a[1], a[4], a[3], ctx.ids) {
            Err(e) => Err(e),
            Ok(_) => if a[5].key@ != ctx.ids.associated_token_program@ {
                Err(ProcessError::IncorrectProgramId)
            } else if a[2].key@ != ctx.ids.native_mint@ {
                Err(ProcessError::IncorrectProgramId)
            } else if a[1].owner@ != ctx.ids.system_program@ {
                Err(ProcessError::AccountAlreadyInitialized)
            } else {
                Ok(
                    PlanModel {
                        actions: seq![
                            ActionModel::Transfer { from: a[0].key@, to: address, lamports: amount },
                            ActionModel::CreateAssociatedTokenAccount {
                                funder: a[0].key@,
                                wallet: a[0].key@,
                                mint: ctx.ids.native_mint@,
                            },
                        ],
                        finish: FinishModel::Nothing,
                    },
                )
            },
        }
    }
}

/// The outcome of unwrapping: the owner's signature, the token program, a
/// token holding that is the owner's canonical one and holds a balance;
/// then the holding closed to the owner.
pub open spec fn unwrap_outcome(a: Seq<AccountView>, ctx: Context) -> Result<PlanModel, ProcessError> {
    if a.len() < UNWRAP_ACCOUNTS {
        Err(ProcessError::NotEnoughAccountKeys)
    } else if !a[0].is_signer {
        Err(ProcessError::MissingRequiredSignature)
    } else if a[2].key@ != ctx.ids.token_program@ {
        Err(ProcessError::IncorrectProgramId)
    } else if a[1].owner@ != ctx.ids.token_program@ {
        Err(ProcessError::IllegalOwner)
    } else if a[1].key@ != native_holding(a[0].key@, ctx.ids) {
        Err(ProcessError::InvalidAccountData)
    } else if a[1].lamports == 0 {
        Err(ProcessError::InsufficientFunds)
    } else {
        Ok(
            PlanModel {
                actions: seq![
                    ActionModel::CloseAccount {
                        account: a[1].key@,
                        destination: a[0].key@,
                        owner: a[0].key@,
                    },
                ],
                finish: FinishModel::Nothing,
            },
        )
    }
}

/// What storing `state` into the record `d` gives: its stored form over
/// the first bytes of `d`, the rest kept.
pub open spec fn store_user_write(d: Seq<u8>, state: UserStateModel) -> Result<Seq<u8>, ProcessError> {
    if d.len() < USER_STATE_LEN {
        Err(ProcessError::BorshIoError)
    } else {
        Ok(encode_user_state(state) + d.subrange(USER_STATE_LEN as int, d.len() as int))
    }
}

/// What the last step of a plan does to the record at account index 1.
pub open spec fn finish_write(f: FinishModel, d: Seq<u8>) -> Result<Seq<u8>, ProcessError> {
    match f {
        FinishModel::Nothing => Ok(d),
        FinishModel::InitializeState { state } => initialize_write(d, state),
        FinishModel::StoreUserState { state } => store_user_write(d, state),
    }
}

/// The outcome of a request: the command decoded from `data`, then the
/// engine of that command.
pub open spec fn process_outcome(program_id: Seq<u8>, a: Seq<AccountView>, data: Seq<u8>, ctx: Context) -> Result<
    PlanModel,
    ProcessError,
> {
    match decode_instruction(data) {
        Err(e) => Err(e),
        Ok(InstructionModel::InitWhiteList { whitelist_pda_bump, price_per_token_y, authorized_addresses }) =>
            init_outcome(program_id, a, authorized_addresses, whitelist_pda_bump, price_per_token_y, ctx),
        Ok(InstructionModel::CreateAndWrapSOLToken { amount_to_be_wrapped }) => create_and_wrap_outcome(
            a,
            amount_to_be_wrapped,
            ctx,
        ),
        Ok(InstructionModel::WrapSOLToken { amount_to_be_wrapped }) => wrap_outcome(a, amount_to_be_wrapped, ctx),
        Ok(InstructionModel::UnwrapSOLToken) => unwrap_outcome(a, ctx),
        Ok(InstructionModel::SwapSOLToken { input_sol_amount, expected_spl_token_amount }) => swap_outcome(
            program_id,
            a,
            input_sol_amount,
            expected_spl_token_amount,
            ctx,
        ),
    }
}

/// A record that already holds an initialized configuration is never
/// initialized again.
pub proof fn lemma_initialized_record_refused(d: Seq<u8>, state: GlobalStateModel)
    requires
        decode_global_state(d) matches Some(current) && current.is_initialized,
    ensures
        initialize_write(d, state) == Err::<Seq<u8>, ProcessError>(ProcessError::AccountAlreadyInitialized),
{
}

/// Once a record has been initialized, a second initialization of it fails
/// with `AccountAlreadyInitialized`, whatever it would write.
pub proof fn lemma_second_initialization_refused(d: Seq<u8>, first: GlobalStateModel, second: GlobalStateModel)
    requires
        global_model_well_formed(first),
        first.is_initialized,
        initialize_write(d, first) is Ok,
    ensures
        initialize_write(initialize_write(d, first)->Ok_0, second) == Err::<Seq<u8>, ProcessError>(
            ProcessError::AccountAlreadyInitialized,
        ),
{
    lemma_global_state_round_trip(first);
}

/// Single use: after a swap succeeded and its redemption record was
/// stored, a new swap over that record fails with
/// `AccountAlreadyInitialized`, before the balance-based redemption check,
/// though the swap moved balances of the caller's holdings.
pub proof fn lemma_redeemed_record_refused(
    program_id: Seq<u8>,
    a: Seq<AccountView>,
    amount_in: u64,
    minimum_amount_out: u64,
    ctx: Context,
    b: Seq<AccountView>,
    again_in: u64,
    again_minimum_out: u64,
    again_ctx: Context,
)
    requires
        swap_outcome(program_id, a, amount_in, minimum_amount_out, ctx) is Ok,
        b.len() == a.len(),
        forall|i: int|
            0 <= i < a.len() && i != SWAP_USER_STATE && i != SWAP_USER_NATIVE && i != SWAP_USER_TARGET
                ==> b[i] == a[i],
        b[SWAP_USER_STATE as int].owner == a[SWAP_USER_STATE as int].owner,
        finish_write(
            swap_plan(a, amount_in, minimum_amount_out, ctx.now).finish,
            a[SWAP_USER_STATE as int].data@,
        ) == Ok::<Seq<u8>, ProcessError>(b[SWAP_USER_STATE as int].data@),
        b[SWAP_USER_NATIVE as int].owner == a[SWAP_USER_NATIVE as int].owner,
        b[SWAP_USER_TARGET as int].owner == a[SWAP_USER_TARGET as int].owner,
        decode_token_account(b[SWAP_USER_NATIVE as int].data@) matches Ok(t) && t.owner
            == decode_token_account(a[SWAP_USER_NATIVE as int].data@)->Ok_0.owner && t.mint
            == decode_token_account(a[SWAP_USER_NATIVE as int].data@)->Ok_0.mint,
        decode_token_account(b[SWAP_USER_TARGET as int].data@) matches Ok(t) && t.owner
            == decode_token_account(a[SWAP_USER_TARGET as int].data@)->Ok_0.owner && t.mint
            == decode_token_account(a[SWAP_USER_TARGET as int].data@)->Ok_0.mint,
        again_ctx.ids == ctx.ids,
    ensures
        swap_outcome(program_id, b, again_in, again_minimum_out, again_ctx) == Err::<PlanModel, ProcessError>(
            ProcessError::AccountAlreadyInitialized,
        ),
{
    assert(b[SWAP_USER as int] == a[SWAP_USER as int]);
    assert(b[SWAP_GLOBAL_STATE as int] == a[SWAP_GLOBAL_STATE as int]);
    assert(b[SWAP_POOL as int] == a[SWAP_POOL as int]);
    assert(b[SWAP_POOL_NATIVE as int] == a[SWAP_POOL_NATIVE as int]);
    assert(b[SWAP_POOL_TARGET as int] == a[SWAP_POOL_TARGET as int]);
    assert(b[SWAP_POOL_MINT as int] == a[SWAP_POOL_MINT as int]);
    assert(b[SWAP_POOL_FEE as int] == a[SWAP_POOL_FEE as int]);
    assert(b[SWAP_TOKEN_PROGRAM as int] == a[SWAP_TOKEN_PROGRAM as int]);
    assert(b[SWAP_SWAP_PROGRAM as int] == a[SWAP_SWAP_PROGRAM as int]);
    let stored = UserStateModel {
        is_initialized: true,
        whitelisted_by_account: a[SWAP_USER as int].key@,
        whitelisted_at: ctx.now,
        user_transfer_authority_account: a[SWAP_TRANSFER_AUTHORITY as int].key@,
    };
    let old_data = a[SWAP_USER_STATE as int].data@;
    assert(old_data.len() == USER_STATE_LEN);
    assert(old_data.subrange(USER_STATE_LEN as int, old_data.len() as int) =~= Seq::<u8>::empty());
    assert(encode_user_state(stored) + Seq::<u8>::empty() =~= encode_user_state(stored));
    lemma_user_state_round_trip(stored);
    assert(decode_user_state(b[SWAP_USER_STATE as int].data@) == Some(stored));
}

/// Whitelist gating: once the holdings and records pass their checks, a
/// caller outside the authorized set is refused as not whitelisted whatever
/// its balance, and an authorized caller whose balance is below the price is
/// refused for insufficient funds.
pub proof fn lemma_whitelist_gating(
    a: Seq<AccountView>,
    g: GlobalStateModel,
    u: UserStateModel,
    native: TokenAccountModel,
    target: TokenAccountModel,
    ids: ProgramIds,
)
    requires
        native.owner == a[SWAP_USER as int].key@,
        target.owner == a[SWAP_USER as int].key@,
        native.mint == ids.native_mint@,
        target.mint == g.y_mint_account,
        g.is_initialized,
        !u.is_initialized,
    ensures
        !is_authorized(g.whitelist_auth_addresses, a[SWAP_USER as int].key@) ==> swap_gate(
            a,
            g,
            u,
            native,
            target,
            ids,
        ) == Err::<(), ProcessError>(ProcessError::Custom(WhiteListError::AccountNotWhitelisted)),
        is_authorized(g.whitelist_auth_addresses, a[SWAP_USER as int].key@) && native.amount
            < g.price_per_token_y ==> swap_gate(a, g, u, native, target, ids) == Err::<(), ProcessError>(
            ProcessError::InsufficientFunds,
        ),
{
}

/// Wrapping and unwrapping meet at one holding: creating and wrapping sends
/// the amount to the caller's canonical holding, and unwrapping by the same
/// caller closes that very holding back to the caller.
pub proof fn lemma_unwrap_closes_wrapped_holding(
    a: Seq<AccountView>,
    amount: u64,
    b: Seq<AccountView>,
    ctx: Context,
)
    requires
        create_and_wrap_outcome(a, amount, ctx) is Ok,
        unwrap_outcome(b, ctx) is Ok,
        b[0].key == a[0].key,
    ensures
        create_and_wrap_outcome(a, amount, ctx)->Ok_0.actions[0] == (ActionModel::Transfer {
            from: a[0].key@,
            to: native_holding(a[0].key@, ctx.ids),
            lamports: amount,
        }),
        unwrap_outcome(b, ctx)->Ok_0.actions[0] == (ActionModel::CloseAccount {
            account: native_holding(a[0].key@, ctx.ids),
            destination: a[0].key@,
            owner: a[0].key@,
        }),
{
}

/// Whether `key` is among `addresses`, first match wins.
pub fn find_authorized(addresses: &[Pubkey; AUTHORIZED_CAPACITY], key: &Pubkey) -> (r: bool)
    ensures
        r == is_authorized(Seq::new(AUTHORIZED_CAPACITY as nat, |i: int| addresses@[i]@), key@),
{
    let ghost s = Seq::new(AUTHORIZED_CAPACITY as nat, |i: int| addresses@[i]@);
    let mut i: usize = 0;
    while i < AUTHORIZED_CAPACITY
        invariant
            i <= AUTHORIZED_CAPACITY,
            s == Seq::new(AUTHORIZED_CAPACITY as nat, |i: int| addresses@[i]@),
            forall|j: int| 0 <= j < i ==> s[j] != key@,
        decreases AUTHORIZED_CAPACITY - i,
    {
        if addresses[i] == *key {
            assert(s[i as int] == key@);
            return true;
        }
        i = i + 1;
    }
    false
}

/// The checks shared by both ways of wrapping.
pub fn check_for_wrapping(
    rent_storage_fees: u64,
    amount_to_be_wrapped: u64,
    associated_account_address: &Pubkey,
    funding_account: &AccountView,
    associated_token_pda_account: &AccountView,
    spl_token_program_account: &AccountView,
    system_program_account: &AccountView,
    ids: &ProgramIds,
) -> (r: Result<(), ProcessError>)
    ensures
        r == wrapping_checks(
            rent_storage_fees,
            amount_to_be_wrapped,
            associated_account_address@,
            *funding_account,
            *associated_token_pda_account,
            *spl_token_program_account,
            *system_program_account,
            *ids,
        ),
{
    if !funding_account.is_signer {
        return Err(ProcessError::MissingRequiredSignature);
    }
    let covered = match amount_to_be_wrapped.checked_add(rent_storage_fees) {
        Some(required) => funding_account.lamports >= required,
        None => false,
    };
    if !covered {
        return Err(ProcessError::InsufficientFunds);
    }
    if !(associated_token_pda_account.key == *associated_account_address) {
        return Err(ProcessError::InvalidAccountData);
    }
    if !(spl_token_program_account.key == ids.token_program) {
        return Err(ProcessError::IncorrectProgramId);
    }
    if !(system_program_account.key == ids.system_program) {
        return Err(ProcessError::IncorrectProgramId);
    }
    Ok(())
}

pub struct WhiteListProcessor;

impl WhiteListProcessor {
    /// The checks of an initialization, in order.
    fn init_checks_exec(
        program_id: &Pubkey,
        accounts: &[AccountView],
        signer: &WhitelistSeeds,
        price: u64,
        ids: &ProgramIds,
    ) -> (r: Result<(), ProcessError>)
        requires
            accounts@.len() >= INIT_ACCOUNTS,
            signer.creator == accounts@[INIT_CREATOR as int].key,
            signer.target_token_account == accounts@[INIT_TARGET_TOKEN as int].key,
        ensures
            r == init_checks(program_id@, accounts@, signer.bump, price, *ids),
    {
        if !(accounts[INIT_POOL].owner == ids.token_swap_program) {
            return Err(ProcessError::InvalidAccountData);
        }
        let pool = unpack_swap_pool(accounts[INIT_POOL].data.as_slice())?;
        if !pool.is_initialized {
            return Err(ProcessError::Custom(WhiteListError::IncorrectPoolOwner));
        }
        if !(accounts[INIT_TARGET_TOKEN].owner == ids.token_program) || !(
        accounts[INIT_NATIVE_TOKEN].owner == ids.token_program) {
            return Err(ProcessError::InvalidAccountData);
        }
        let pool_key = accounts[INIT_POOL].key.to_vec();
        let bump: Vec<u8> = vec![pool.bump_seed];
        assert(bump@ =~= seq![pool.bump_seed]);
        let seeds: Vec<Vec<u8>> = vec![pool_key, bump];
        assert(seeds_view(seeds@) =~= authority_seeds(accounts@[INIT_POOL as int].key@, pool.bump_seed));
        let authority = match create_program_address(&seeds, &ids.token_swap_program) {
            Some(k) => k,
            None => {
                return Err(ProcessError::InvalidSeeds);
            },
        };
        let target = unpack_token_account(accounts[INIT_TARGET_TOKEN].data.as_slice())?;
        let native = unpack_token_account(accounts[INIT_NATIVE_TOKEN].data.as_slice())?;
        if !(target.owner == authority) || !(native.owner == authority) {
            return Err(ProcessError::Custom(WhiteListError::IncorrectTokenOwner));
        }
        if price == 0 {
            return Err(ProcessError::InvalidInstructionData);
        }
        let state_address = signer.derive_address(program_id)?;
        if !(accounts[INIT_STATE].key == state_address) {
            return Err(ProcessError::InvalidAccountData);
        }
        if !accounts[INIT_CREATOR].is_signer {
            return Err(ProcessError::MissingRequiredSignature);
        }
        if !(accounts[INIT_SYSTEM_PROGRAM].key == ids.system_program) {
            return Err(ProcessError::InvalidAccountData);
        }
        Ok(())
    }

    /// Creates the whitelist configuration record: every check on the pool,
    /// its reserves, the price, the derived address, the signature and the
    /// system program passes before any effect is asked for.
    pub fn process_whitelist_initialize(
        authorized_addresses: [Pubkey; AUTHORIZED_CAPACITY],
        whitelist_pda_bump: u8,
        price_per_token_y: u64,
        program_id: &Pubkey,
        accounts: &[AccountView],
        ctx: &Context,
    ) -> (r: Result<Plan, ProcessError>)
        ensures
            outcome_view(r) == init_outcome(
                program_id@,
                accounts@,
                Seq::new(AUTHORIZED_CAPACITY as nat, |i: int| authorized_addresses@[i]@),
                whitelist_pda_bump,
                price_per_token_y,
                *ctx,
            ),
    {
        if accounts.len() < INIT_ACCOUNTS {
            return Err(ProcessError::NotEnoughAccountKeys);
        }
        let signer = WhitelistSeeds {
            creator: accounts[INIT_CREATOR].key,
            target_token_account: accounts[INIT_TARGET_TOKEN].key,
            bump: whitelist_pda_bump,
        };
        Self::init_checks_exec(program_id, accounts, &signer, price_per_token_y, &ctx.ids)?;
        let state_key = accounts[INIT_STATE].key;
        let creator = accounts[INIT_CREATOR].key;
        let state = WhitelistPDAGlobalState {
            whitelist_creator: creator,
            global_pda_bump: whitelist_pda_bump,
            whitelist_auth_addresses: authorized_addresses,
            is_initialized: true,
            token_swap_pool_state: accounts[INIT_POOL].key,
            y_mint_account: accounts[INIT_MINT].key,
            y_token_account: accounts[INIT_TARGET_TOKEN].key,
            native_sol_token_account: accounts[INIT_NATIVE_TOKEN].key,
            price_per_token_y,
        };
        let actions: Vec<Action> = vec![
            Action::Allocate { account: state_key, space: GLOBAL_STATE_LEN as u64, signer },
            Action::Assign { account: state_key, owner: *program_id, signer },
            Action::Transfer { from: creator, to: state_key, lamports: ctx.state_rent_minimum },
        ];
        let plan = Plan { actions, finish: Finish::InitializeState { state } };
        proof {
            let m = init_plan(
                program_id@,
                accounts@,
                Seq::new(AUTHORIZED_CAPACITY as nat, |i: int| authorized_addresses@[i]@),
                whitelist_pda_bump,
                price_per_token_y,
                *ctx,
            );
            assert(plan@.actions =~= m.actions);
        }
        Ok(plan)
    }

    /// Writes a new configuration into the record `data`, refusing a record
    /// that already holds an initialized configuration; on failure `data` is
    /// left as it was.
    pub fn initialize_state(state: &WhitelistPDAGlobalState, data: &mut Vec<u8>) -> (r: Result<(), ProcessError>)
        ensures
            match initialize_write(old(data)@, state@) {
                Ok(d) => r is Ok && final(data)@ == d,
                Err(e) => r matches Err(f) && f == e && final(data)@ == old(data)@,
            },
    {
        let current = WhitelistPDAGlobalState::try_from_slice(data.as_slice())?;
        if current.is_initialized() {
            return Err(ProcessError::AccountAlreadyInitialized);
        }
        *data = state.serialize();
        Ok(())
    }

    /// Deposits native currency into the caller's existing wrapped-currency
    /// holding and has the token program count it.
    pub fn process_whitelist_wrap_sol(amount_to_be_wrapped: u64, accounts: &[AccountView], ctx: &Context) -> (r:
        Result<Plan, ProcessError>)
        ensures
            outcome_view(r) == wrap_outcome(accounts@, amount_to_be_wrapped, *ctx),
    {
        if accounts.len() < WRAP_ACCOUNTS {
            return Err(ProcessError::NotEnoughAccountKeys);
        }
        let funding = &accounts[0];
        let holding = &accounts[1];
        let address = get_associated_token_address(&funding.key, &ctx.ids.native_mint);
        check_for_wrapping(0, amount_to_be_wrapped, &address, funding, holding, &accounts[3], &accounts[2], &ctx.ids)?;
        if !(holding.owner == ctx.ids.token_program) {
            return Err(ProcessError::UninitializedAccount);
        }
        let actions: Vec<Action> = vec![
            Action::Transfer { from: funding.key, to: address, lamports: amount_to_be_wrapped },
            Action::SyncNative { account: holding.key },
        ];
        let plan = Plan { actions, finish: Finish::Nothing };
        assert(plan@.actions =~= wrap_outcome(accounts@, amount_to_be_wrapped, *ctx).unwrap().actions);
        Ok(plan)
    }

    /// Deposits native currency at the caller's wrapped-currency holding
    /// address and has the factory create the holding there.
    pub fn process_whitelist_create_and_wrap_sol(
        amount_to_be_wrapped: u64,
        accounts: &[AccountView],
        ctx: &Context,
    ) -> (r: Result<Plan, ProcessError>)
        ensures
            outcome_view(r) == create_and_wrap_outcome(accounts@, amount_to_be_wrapped, *ctx),
    {
        if accounts.len() < CREATE_WRAP_ACCOUNTS {
            return Err(ProcessError::NotEnoughAccountKeys);
        }
        let funding = &accounts[0];
        let holding = &accounts[1];
        let address = get_associated_token_address(&funding.key, &ctx.ids.native_mint);
        check_for_wrapping(
            ctx.holding_rent_minimum,
            amount_to_be_wrapped,
            &address,
            funding,
            holding,
            &accounts[4],
            &accounts[3],
            &ctx.ids,
        )?;
        if !(accounts[5].key == ctx.ids.associated_token_program) {
            return Err(ProcessError::IncorrectProgramId);
        }
        if !(accounts[2].key == ctx.ids.native_mint) {
            return Err(ProcessError::IncorrectProgramId);
        }
        if !(holding.owner == ctx.ids.system_program) {
            return Err(ProcessError::AccountAlreadyInitialized);
        }
        let actions: Vec<Action> = vec![
            Action::Transfer { from: funding.key, to: address, lamports: amount_to_be_wrapped },
            Action::CreateAssociatedTokenAccount {
                funder: funding.key,
                wallet: funding.key,
                mint: ctx.ids.native_mint,
            },
        ];
        let plan = Plan { actions, finish: Finish::Nothing };
        assert(plan@.actions =~= create_and_wrap_outcome(accounts@, amount_to_be_wrapped, *ctx).unwrap().actions);
        Ok(plan)
    }

    /// Closes the caller's wrapped-currency holding, its whole balance
    /// returning to the caller.
    pub fn process_whitelist_unwrap_sol(accounts: &[AccountView], ctx: &Context) -> (r: Result<Plan, ProcessError>)
        ensures
            outcome_view(r) == unwrap_outcome(accounts@, *ctx),
    {
        if accounts.len() < UNWRAP_ACCOUNTS {
            return Err(ProcessError::NotEnoughAccountKeys);
        }
        let owner = &accounts[0];
        let holding = &accounts[1];
        let address = get_associated_token_address(&owner.key, &ctx.ids.native_mint);
        if !owner.is_signer {
            return Err(ProcessError::MissingRequiredSignature);
        }
        if !(accounts[2].key == ctx.ids.token_program) {
            return Err(ProcessError::IncorrectProgramId);
        }
        if !(holding.owner == ctx.ids.token_program) {
            return Err(ProcessError::IllegalOwner);
        }
        if !(holding.key == address) {
            return Err(ProcessError::InvalidAccountData);
        }
        if holding.lamports == 0 {
            return Err(ProcessError::InsufficientFunds);
        }
        let actions: Vec<Action> = vec![
            Action::CloseAccount { account: holding.key, destination: owner.key, owner: owner.key },
        ];
        let plan = Plan { actions, finish: Finish::Nothing };
        assert(plan@.actions =~= unwrap_outcome(accounts@, *ctx).unwrap().actions);
        Ok(plan)
    }

    /// Writes a redemption record over the first bytes of the record `data`.
    pub fn store_user_state(state: &WhitelistUserState, data: &mut Vec<u8>) -> (r: Result<(), ProcessError>)
        ensures
            match store_user_write(old(data)@, state@) {
                Ok(d) => r is Ok && final(data)@ == d,
                Err(e) => r matches Err(f) && f == e && final(data)@ == old(data)@,
            },
    {
        if data.len() < USER_STATE_LEN {
            return Err(ProcessError::BorshIoError);
        }
        let bytes = state.serialize();
        let ghost start = data@;
        let mut i: usize = 0;
        while i < USER_STATE_LEN
            invariant
                i <= USER_STATE_LEN,
                bytes@.len() == USER_STATE_LEN,
                data@.len() == start.len(),
                start.len() >= USER_STATE_LEN,
                forall|j: int| 0 <= j < i ==> data@[j] == bytes@[j],
                forall|j: int| i <= j < start.len() ==> data@[j] == start[j],
            decreases USER_STATE_LEN - i,
        {
            data.set(i, bytes[i]);
            i = i + 1;
        }
        assert(data@ =~= encode_user_state(state@) + start.subrange(USER_STATE_LEN as int, start.len() as int));
        Ok(())
    }

    /// Performs the last step of a plan on the record at account index 1,
    /// once the plan's delegated calls have run.
    pub fn complete(finish: &Finish, data: &mut Vec<u8>) -> (r: Result<(), ProcessError>)
        ensures
            match finish_write(finish@, old(data)@) {
                Ok(d) => r is Ok && final(data)@ == d,
                Err(e) => r matches Err(f) && f == e && final(data)@ == old(data)@,
            },
    {
        match finish {
            Finish::Nothing => Ok(()),
            Finish::InitializeState { state } => Self::initialize_state(state, data),
            Finish::StoreUserState { state } => Self::store_user_state(state, data),
        }
    }

    /// Decodes a request and runs the engine of its command.
    pub fn process(program_id: &Pubkey, accounts: &[AccountView], instruction_data: &[u8], ctx: &Context) -> (r:
        Result<Plan, ProcessError>)
        ensures
            outcome_view(r) == process_outcome(program_id@, accounts@, instruction_data@, *ctx),
    {
        let instruction = WhiteListInstruction::parse_instruction(instruction_data)?;
        match instruction {
            WhiteListInstruction::InitWhiteList {
                whitelist_pda_bump,
                price_per_token_y,
                authorized_addresses,
            } => Self::process_whitelist_initialize(
                authorized_addresses,
                whitelist_pda_bump,
                price_per_token_y,
                program_id,
                accounts,
                ctx,
            ),
            WhiteListInstruction::CreateAndWrapSOLToken { amount_to_be_wrapped } =>
                Self::process_whitelist_create_and_wrap_sol(amount_to_be_wrapped, accounts, ctx),
            WhiteListInstruction::WrapSOLToken { amount_to_be_wrapped } => Self::process_whitelist_wrap_sol(
                amount_to_be_wrapped,
                accounts,
                ctx,
            ),
            WhiteListInstruction::UnwrapSOLToken => Self::process_whitelist_unwrap_sol(accounts, ctx),
            WhiteListInstruction::SwapSOLToken { input_sol_amount, expected_spl_token_amount } =>
                Self::process_whitelist_swap_sol(
                input_sol_amount,
                expected_spl_token_amount,
                accounts,
                program_id,
                ctx,
            ),
        }
    }

    fn swap_gate_exec(
        accounts: &[AccountView],
        g: &WhitelistPDAGlobalState,
        u: &WhitelistUserState,
        native: &TokenAccountFields,
        target: &TokenAccountFields,
        ids: &ProgramIds,
    ) -> (r: Result<(), ProcessError>)
        requires
            accounts@.len() >= SWAP_ACCOUNTS,
        ensures
            r == swap_gate(accounts@, g@, u@, native@, target@, *ids),
    {
        let user = &accounts[SWAP_USER].key;
        if !(native.owner == *user) || !(target.owner == *user) {
            return Err(ProcessError::IllegalOwner);
        }
        if !(native.mint == ids.native_mint) || !(target.mint == g.y_mint_account) {
            return Err(ProcessError::InvalidAccountData);
        }
        if !g.is_initialized() {
            return Err(ProcessError::UninitializedAccount);
        }
        if u.is_initialized() {
            return Err(ProcessError::AccountAlreadyInitialized);
        }
        if !find_authorized(&g.whitelist_auth_addresses, user) {
            return Err(ProcessError::Custom(WhiteListError::AccountNotWhitelisted));
        }
        if native.amount < g.price_per_token_y {
            return Err(ProcessError::InsufficientFunds);
        }
        if !(accounts[SWAP_POOL].key == g.token_swap_pool_state) {
            return Err(ProcessError::InvalidAccountData);
        }
        if target.amount > 0 {
            return Err(ProcessError::Custom(WhiteListError::AccountAlreadyRedeemed));
        }
        Ok(())
    }

    fn swap_account_checks_exec(program_id: &Pubkey, accounts: &[AccountView], ids: &ProgramIds) -> (r: Result<
        (),
        ProcessError,
    >)
        ensures
            r == swap_account_checks(program_id@, accounts@, *ids),
    {
        if accounts.len() < SWAP_ACCOUNTS {
            return Err(ProcessError::NotEnoughAccountKeys);
        }
        if !accounts[SWAP_USER].is_signer {
            return Err(ProcessError::MissingRequiredSignature);
        }
        if !(accounts[SWAP_SWAP_PROGRAM].key == ids.token_swap_program) {
            return Err(ProcessError::IncorrectProgramId);
        }
        if !(accounts[SWAP_TOKEN_PROGRAM].key == ids.token_program) {
            return Err(ProcessError::IncorrectProgramId);
        }
        let token = &ids.token_program;
        if !(accounts[SWAP_GLOBAL_STATE].owner == *program_id) || !(accounts[SWAP_USER_STATE].owner
            == *program_id) || !(accounts[SWAP_POOL].owner == ids.token_swap_program)
            || !(accounts[SWAP_USER_NATIVE].owner == *token) || !(accounts[SWAP_USER_TARGET].owner
            == *token) || !(accounts[SWAP_POOL_NATIVE].owner == *token)
            || !(accounts[SWAP_POOL_TARGET].owner == *token) || !(accounts[SWAP_POOL_MINT].owner
            == *token) || !(accounts[SWAP_POOL_FEE].owner == *token) {
            return Err(ProcessError::Custom(WhiteListError::IncorrectStateAccount));
        }
        Ok(())
    }

    /// Swaps native currency for the target token, once per authorized
    /// caller: every authorization step passes before the one delegated swap,
    /// and the redemption record is marked used after it.
    pub fn process_whitelist_swap_sol(
        input_sol_amount: u64,
        expected_spl_token_amount: u64,
        accounts: &[AccountView],
        program_id: &Pubkey,
        ctx: &Context,
    ) -> (r: Result<Plan, ProcessError>)
        ensures
            outcome_view(r) == swap_outcome(
                program_id@,
                accounts@,
                input_sol_amount,
                expected_spl_token_amount,
                *ctx,
            ),
    {
        Self::swap_account_checks_exec(program_id, accounts, &ctx.ids)?;
        let g = WhitelistPDAGlobalState::try_from_slice(accounts[SWAP_GLOBAL_STATE].data.as_slice())?;
        let u = WhitelistUserState::try_from_slice(accounts[SWAP_USER_STATE].data.as_slice())?;
        let native = unpack_token_account(accounts[SWAP_USER_NATIVE].data.as_slice())?;
        let target = unpack_token_account(accounts[SWAP_USER_TARGET].data.as_slice())?;
        Self::swap_gate_exec(accounts, &g, &u, &native, &target, &ctx.ids)?;
        let call = SwapCall {
            pool: accounts[SWAP_POOL].key,
            authority: accounts[SWAP_AUTHORITY].key,
            user_transfer_authority: accounts[SWAP_TRANSFER_AUTHORITY].key,
            source: accounts[SWAP_USER_NATIVE].key,
            swap_source: accounts[SWAP_POOL_NATIVE].key,
            swap_destination: accounts[SWAP_POOL_TARGET].key,
            destination: accounts[SWAP_USER_TARGET].key,
            pool_mint: accounts[SWAP_POOL_MINT].key,
            pool_fee: accounts[SWAP_POOL_FEE].key,
            host_fee: accounts[SWAP_HOST_FEE].key,
            amount_in: input_sol_amount,
            minimum_amount_out: expected_spl_token_amount,
        };
        let state = WhitelistUserState {
            is_initialized: true,
            whitelisted_by_account: accounts[SWAP_USER].key,
            whitelisted_at: ctx.now,
            user_transfer_authority_account: accounts[SWAP_TRANSFER_AUTHORITY].key,
        };
        let plan = Plan { actions: vec![Action::Swap { call }], finish: Finish::StoreUserState { state } };
        assert(plan@.actions =~= swap_plan(accounts@, input_sol_amount, expected_spl_token_amount, ctx.now).actions);
        Ok(plan)
    }
}

} // verus!
