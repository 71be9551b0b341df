use vstd::prelude::*;
use crate::error::ProcessError;
use crate::interop::{
    create_program_address, program_address, seeds_view, MAX_SEEDS, MAX_SEED_LEN, associated_token_program_id, native_mint_id, system_program_id, token_program_id,
    token_swap_program_id,
};
use crate::pubkey::Pubkey;
use crate::state::{GlobalStateModel, UserStateModel, WhitelistPDAGlobalState, WhitelistUserState};

verus! {

/// A snapshot of one ledger record handed to a request.
#[derive(Clone, Debug)]
pub struct AccountView {
    pub key: Pubkey,
    pub owner: Pubkey,
    pub is_signer: bool,
    pub lamports: u64,
    pub data: Vec<u8>,
}

/// The identities of the collaborators the whitelist trusts.
#[derive(Clone, Copy, Debug)]
pub struct ProgramIds {
    pub token_program: Pubkey,
    pub system_program: Pubkey,
    pub native_mint: Pubkey,
    pub associated_token_program: Pubkey,
    pub token_swap_program: Pubkey,
}

impl ProgramIds {
    /// The identities deployed on the ledger.
    pub fn standard() -> (r: ProgramIds) {
        ProgramIds {
            token_program: token_program_id(),
            system_program: system_program_id(),
            native_mint: native_mint_id(),
            associated_token_program: associated_token_program_id(),
            token_swap_program: token_swap_program_id(),
        }
    }
}

/// What the ledger runtime tells a request besides its accounts.
#[derive(Clone, Copy, Debug)]
pub struct Context {
    pub ids: ProgramIds,
    /// The ledger clock, in seconds.
    pub now: i64,
    /// Minimum balance that keeps a whitelist configuration record alive.
    pub state_rent_minimum: u64,
    /// Minimum balance that keeps a token holding alive.
    pub holding_rent_minimum: u64,
}

/// The seeds from which a whitelist configuration's address is derived.
#[derive(Clone, Copy, Debug)]
pub struct WhitelistSeeds {
    pub creator: Pubkey,
    pub target_token_account: Pubkey,
    pub bump: u8,
}

/// The fixed tag that opens a whitelist configuration's seeds: "whitelistpda".
pub open spec fn whitelist_tag() -> Seq<u8> {
    seq![119u8, 104u8, 105u8, 116u8, 101u8, 108u8, 105u8, 115u8, 116u8, 112u8, 100u8, 97u8]
}

/// The seeds of the configuration of `creator` for `target_token_account`.
pub open spec fn whitelist_seeds(creator: Seq<u8>, target_token_account: Seq<u8>, bump: u8) -> Seq<
    Seq<u8>,
> {
    seq![whitelist_tag(), creator, target_token_account, seq![bump]]
}

impl WhitelistSeeds {
    /// The seeds as the address derivation and the runtime's signing take them.
    pub fn to_seeds(&self) -> (r: Vec<Vec<u8>>)
        ensures
            seeds_view(r@) == whitelist_seeds(self.creator@, self.target_token_account@, self.bump),
            r@.len() <= MAX_SEEDS,
            forall|i: int| 0 <= i < r@.len() ==> (#[trigger] r@[i])@.len() <= MAX_SEED_LEN,
    {
        let tag: Vec<u8> = vec![119u8, 104u8, 105u8, 116u8, 101u8, 108u8, 105u8, 115u8, 116u8, 112u8, 100u8, 97u8];
        let creator = self.creator.to_vec();
        let target = self.target_token_account.to_vec();
        let bump: Vec<u8> = vec![self.bump];
        assert(tag@ =~= whitelist_tag());
        assert(bump@ =~= seq![self.bump]);
        let r: Vec<Vec<u8>> = vec![tag, creator, target, bump];
        assert(seeds_view(r@) =~= whitelist_seeds(self.creator@, self.target_token_account@, self.bump));
        r
    }

    /// The configuration address these seeds give under `program_id`.
    pub fn derive_address(&self, program_id: &Pubkey) -> (r: Result<Pubkey, ProcessError>)
        ensures
            match program_address(
                whitelist_seeds(self.creator@, self.target_token_account@, self.bump),
                program_id@,
            ) {
                Some(k) => r matches Ok(a) && a@ == k,
                None => r matches Err(ProcessError::InvalidSeeds),
            },
    {
        let seeds = self.to_seeds();
        match create_program_address(&seeds, program_id) {
            Some(k) => Ok(k),
            None => Err(ProcessError::InvalidSeeds),
        }
    }
}

/// The accounts and amounts of one delegated swap.
#[derive(Clone, Copy, Debug)]
pub struct SwapCall {
    pub pool: Pubkey,
    pub authority: Pubkey,
    pub user_transfer_authority: Pubkey,
    pub source: Pubkey,
    pub swap_source: Pubkey,
    pub swap_destination: Pubkey,
    pub destination: Pubkey,
    pub pool_mint: Pubkey,
    pub pool_fee: Pubkey,
    pub host_fee: Pubkey,
    pub amount_in: u64,
    pub minimum_amount_out: u64,
}

/// One delegated call that the runtime performs for a request.
#[derive(Clone, Copy, Debug)]
pub enum Action {
    /// Reserve `space` bytes at `account`, signed with the derivation seeds.
    Allocate { account: Pubkey, space: u64, signer: WhitelistSeeds },
    /// Hand `account` over to `owner`, signed with the derivation seeds.
    Assign { account: Pubkey, owner: Pubkey, signer: WhitelistSeeds },
    /// Move native currency.
    Transfer { from: Pubkey, to: Pubkey, lamports: u64 },
    /// Have the token program count the native currency deposited in `account`.
    SyncNative { account: Pubkey },
    /// Materialize the canonical holding of `wallet` for `mint`, paid by `funder`.
    CreateAssociatedTokenAccount { funder: Pubkey, wallet: Pubkey, mint: Pubkey },
    /// Close a holding, its whole balance going to `destination`.
    CloseAccount { account: Pubkey, destination: Pubkey, owner: Pubkey },
    /// Swap through the swap engine.
    Swap { call: SwapCall },
}

/// What is left to do once the delegated calls have run.
#[derive(Clone, Copy, Debug)]
pub enum Finish {
    Nothing,
    /// Write this configuration into the record at account index 1, unless
    /// that record already holds an initialized one.
    InitializeState { state: WhitelistPDAGlobalState },
    /// Write this redemption record into the record at account index 1.
    StoreUserState { state: WhitelistUserState },
}

/// The effects a validated request asks for, in order.
#[derive(Clone, Debug)]
pub struct Plan {
    pub actions: Vec<Action>,
    pub finish: Finish,
}

pub struct SeedsModel {
    pub creator: Seq<u8>,
    pub target_token_account: Seq<u8>,
    pub bump: u8,
}

pub struct SwapCallModel {
    pub pool: Seq<u8>,
    pub authority: Seq<u8>,
    pub user_transfer_authority: Seq<u8>,
    pub source: Seq<u8>,
    pub swap_source: Seq<u8>,
    pub swap_destination: Seq<u8>,
    pub destination: Seq<u8>,
    pub pool_mint: Seq<u8>,
    pub pool_fee: Seq<u8>,
    pub host_fee: Seq<u8>,
    pub amount_in: u64,
    pub minimum_amount_out: u64,
}

pub enum ActionModel {
    Allocate { account: Seq<u8>, space: u64, signer: SeedsModel },
    Assign { account: Seq<u8>, owner: Seq<u8>, signer: SeedsModel },
    Transfer { from: Seq<u8>, to: Seq<u8>, lamports: u64 },
    SyncNative { account: Seq<u8> },
    CreateAssociatedTokenAccount { funder: Seq<u8>, wallet: Seq<u8>, mint: Seq<u8> },
    CloseAccount { account: Seq<u8>, destination: Seq<u8>, owner: Seq<u8> },
    Swap { call: SwapCallModel },
}

pub enum FinishModel {
    Nothing,
    InitializeState { state: GlobalStateModel },
    StoreUserState { state: UserStateModel },
}

pub struct PlanModel {
    pub actions: Seq<ActionModel>,
    pub finish: FinishModel,
}

impl View for WhitelistSeeds {
    type V = SeedsModel;

    open spec fn view(&self) -> SeedsModel {
        SeedsModel {
            creator: self.creator@,
            target_token_account: self.target_token_account@,
            bump: self.bump,
        }
    }
}

impl View for SwapCall {
    type V = SwapCallModel;

    open spec fn view(&self) -> SwapCallModel {
        SwapCallModel {
            pool: self.pool@,
            authority: self.authority@,
            user_transfer_authority: self.user_transfer_authority@,
            source: self.source@,
            swap_source: self.swap_source@,
            swap_destination: self.swap_destination@,
            destination: self.destination@,
            pool_mint: self.pool_mint@,
            pool_fee: self.pool_fee@,
            host_fee: self.host_fee@,
            amount_in: self.amount_in,
            minimum_amount_out: self.minimum_amount_out,
        }
    }
}

impl View for Action {
    type V = ActionModel;

    open spec fn view(&self) -> ActionModel {
        match *self {
            Action::Allocate { account, space, signer } => ActionModel::Allocate {
                account: account@,
                space,
                signer: signer@,
            },
            Action::Assign { account, owner, signer } => ActionModel::Assign {
                account: account@,
                owner: owner@,
                signer: signer@,
            },
            Action::Transfer { from, to, lamports } => ActionModel::Transfer {
                from: from@,
                to: to@,
                lamports,
            },
            Action::SyncNative { account } => ActionModel::SyncNative { account: account@ },
            Action::CreateAssociatedTokenAccount { funder, wallet, mint } =>
                ActionModel::CreateAssociatedTokenAccount {
                funder: funder@,
                wallet: wallet@,
                mint: mint@,
            },
            Action::CloseAccount { account, destination, owner } => ActionModel::CloseAccount {
                account: account@,
                destination: destination@,
                owner: owner@,
            },
            Action::Swap { call } => ActionModel::Swap { call: call@ },
        }
    }
}

impl View for Finish {
    type V = FinishModel;

    open spec fn view(&self) -> FinishModel {
        match *self {
            Finish::Nothing => FinishModel::Nothing,
            Finish::InitializeState { state } => FinishModel::InitializeState { state: state@ },
            Finish::StoreUserState { state } => FinishModel::StoreUserState { state: state@ },
        }
    }
}

impl View for Plan {
    type V = PlanModel;

    open spec fn view(&self) -> PlanModel {
        PlanModel { actions: self.actions@.map_values(|a: Action| a@), finish: self.finish@ }
    }
}

/// The outcome of a request as models.
pub open spec fn outcome_view(r: Result<Plan, crate::error::ProcessError>) -> Result<
    PlanModel,
    crate::error::ProcessError,
> {
    match r {
        Ok(p) => Ok(p@),
        Err(e) => Err(e),
    }
}

} // verus!
