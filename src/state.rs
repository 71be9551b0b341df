use vstd::prelude::*;
use crate::bytes::{u64_le, u64_le_bytes, read_u64_le, push_u64_le, lemma_u64_le_round_trip};
use crate::error::ProcessError;
use crate::pubkey::{Pubkey, PUBKEY_BYTES};

verus! {

/// How many identities a whitelist authorizes.
pub const AUTHORIZED_CAPACITY: usize = 6;

/// Encoded size of a whitelist configuration record.
pub const GLOBAL_STATE_LEN: usize = 362;

/// Encoded size of a per-user redemption record.
pub const USER_STATE_LEN: usize = 73;

/// Offsets of the fields of a whitelist configuration record.
pub const GLOBAL_BUMP_AT: usize = 32;
pub const GLOBAL_ADDRESSES_AT: usize = 33;
pub const GLOBAL_INITIALIZED_AT: usize = 225;
pub const GLOBAL_POOL_AT: usize = 226;
pub const GLOBAL_MINT_AT: usize = 258;
pub const GLOBAL_TOKEN_AT: usize = 290;
pub const GLOBAL_NATIVE_AT: usize = 322;
pub const GLOBAL_PRICE_AT: usize = 354;

/// Offsets of the fields of a per-user redemption record.
pub const USER_BY_AT: usize = 1;
pub const USER_TIME_AT: usize = 33;
pub const USER_AUTHORITY_AT: usize = 41;

/// The whitelist configuration, one per deployed whitelist.
#[derive(Clone, Copy, Debug)]
pub struct WhitelistPDAGlobalState {
    pub whitelist_creator: Pubkey,
    pub global_pda_bump: u8,
    pub whitelist_auth_addresses: [Pubkey; AUTHORIZED_CAPACITY],
    pub is_initialized: bool,
    pub token_swap_pool_state: Pubkey,
    pub y_mint_account: Pubkey,
    pub y_token_account: Pubkey,
    pub native_sol_token_account: Pubkey,
    pub price_per_token_y: u64,
}

/// The whitelist configuration with every identity seen as its bytes.
pub struct GlobalStateModel {
    pub whitelist_creator: Seq<u8>,
    pub global_pda_bump: u8,
    pub whitelist_auth_addresses: Seq<Seq<u8>>,
    pub is_initialized: bool,
    pub token_swap_pool_state: Seq<u8>,
    pub y_mint_account: Seq<u8>,
    pub y_token_account: Seq<u8>,
    pub native_sol_token_account: Seq<u8>,
    pub price_per_token_y: u64,
}

/// The redemption record of one user.
#[derive(Clone, Copy, Debug)]
pub struct WhitelistUserState {
    pub is_initialized: bool,
    pub whitelisted_by_account: Pubkey,
    pub whitelisted_at: i64,
    pub user_transfer_authority_account: Pubkey,
}

pub struct UserStateModel {
    pub is_initialized: bool,
    pub whitelisted_by_account: Seq<u8>,
    pub whitelisted_at: i64,
    pub user_transfer_authority_account: Seq<u8>,
}

impl View for WhitelistPDAGlobalState {
    type V = GlobalStateModel;

    open spec fn view(&self) -> GlobalStateModel {
        GlobalStateModel {
            whitelist_creator: self.whitelist_creator@,
            global_pda_bump: self.global_pda_bump,
            whitelist_auth_addresses: Seq::new(
                AUTHORIZED_CAPACITY as nat,
                |i: int| self.whitelist_auth_addresses@[i]@,
            ),
            is_initialized: self.is_initialized,
            token_swap_pool_state: self.token_swap_pool_state@,
            y_mint_account: self.y_mint_account@,
            y_token_account: self.y_token_account@,
            native_sol_token_account: self.native_sol_token_account@,
            price_per_token_y: self.price_per_token_y,
        }
    }
}

impl View for WhitelistUserState {
    type V = UserStateModel;

    open spec fn view(&self) -> UserStateModel {
        UserStateModel {
            is_initialized: self.is_initialized,
            whitelisted_by_account: self.whitelisted_by_account@,
            whitelisted_at: self.whitelisted_at,
            user_transfer_authority_account: self.user_transfer_authority_account@,
        }
    }
}

/// The identity stored at `d[at..at + 32]`.
pub open spec fn key_at(d: Seq<u8>, at: int) -> Seq<u8> {
    d.subrange(at, at + PUBKEY_BYTES)
}

/// A stored flag: one byte, 0 or 1.
pub open spec fn flag_byte(b: bool) -> u8 {
    if b {
        1
    } else {
        0
    }
}

/// A model whose identities all have the ledger's width.
pub open spec fn global_model_well_formed(m: GlobalStateModel) -> bool {
    &&& m.whitelist_creator.len() == PUBKEY_BYTES
    &&& m.whitelist_auth_addresses.len() == AUTHORIZED_CAPACITY
    &&& forall|i: int|
        0 <= i < AUTHORIZED_CAPACITY ==> (#[trigger] m.whitelist_auth_addresses[i]).len()
            == PUBKEY_BYTES
    &&& m.token_swap_pool_state.len() == PUBKEY_BYTES
    &&& m.y_mint_account.len() == PUBKEY_BYTES
    &&& m.y_token_account.len() == PUBKEY_BYTES
    &&& m.native_sol_token_account.len() == PUBKEY_BYTES
}

pub open spec fn user_model_well_formed(m: UserStateModel) -> bool {
    &&& m.whitelisted_by_account.len() == PUBKEY_BYTES
    &&& m.user_transfer_authority_account.len() == PUBKEY_BYTES
}

/// The stored form of a whitelist configuration: its fields in order,
/// identities as 32 bytes, flags and bumps as one byte, the price as
/// eight little-endian bytes.
pub open spec fn encode_global_state(m: GlobalStateModel) -> Seq<u8> {
    m.whitelist_creator + seq![m.global_pda_bump] + m.whitelist_auth_addresses[0]
        + m.whitelist_auth_addresses[1] + m.whitelist_auth_addresses[2]
        + m.whitelist_auth_addresses[3] + m.whitelist_auth_addresses[4]
        + m.whitelist_auth_addresses[5] + seq![flag_byte(m.is_initialized)]
        + m.token_swap_pool_state + m.y_mint_account + m.y_token_account
        + m.native_sol_token_account + u64_le_bytes(m.price_per_token_y)
}

/// The configuration stored in `d`, if `d` holds one: exactly the encoded
/// size, with a flag byte of 0 or 1.
pub open spec fn decode_global_state(d: Seq<u8>) -> Option<GlobalStateModel> {
    if d.len() == GLOBAL_STATE_LEN && d[GLOBAL_INITIALIZED_AT as int] <= 1 {
        Some(
            GlobalStateModel {
                whitelist_creator: key_at(d, 0),
                global_pda_bump: d[GLOBAL_BUMP_AT as int],
                whitelist_auth_addresses: Seq::new(
                    AUTHORIZED_CAPACITY as nat,
                    |i: int| key_at(d, GLOBAL_ADDRESSES_AT + PUBKEY_BYTES * i),
                ),
                is_initialized: d[GLOBAL_INITIALIZED_AT as int] == 1,
                token_swap_pool_state: key_at(d, GLOBAL_POOL_AT as int),
                y_mint_account: key_at(d, GLOBAL_MINT_AT as int),
                y_token_account: key_at(d, GLOBAL_TOKEN_AT as int),
                native_sol_token_account: key_at(d, GLOBAL_NATIVE_AT as int),
                price_per_token_y: u64_le(d.subrange(GLOBAL_PRICE_AT as int, GLOBAL_STATE_LEN as int)),
            },
        )
    } else {
        None
    }
}

/// The stored form of a redemption record.
pub open spec fn encode_user_state(m: UserStateModel) -> Seq<u8> {
    seq![flag_byte(m.is_initialized)] + m.whitelisted_by_account + u64_le_bytes(
        m.whitelisted_at as u64,
    ) + m.user_transfer_authority_account
}

/// The redemption record stored in `d`, if `d` holds one.
pub open spec fn decode_user_state(d: Seq<u8>) -> Option<UserStateModel> {
    if d.len() == USER_STATE_LEN && d[0] <= 1 {
        Some(
            UserStateModel {
                is_initialized: d[0] == 1,
                whitelisted_by_account: key_at(d, USER_BY_AT as int),
                whitelisted_at: u64_le(d.subrange(USER_TIME_AT as int, USER_AUTHORITY_AT as int)) as i64,
                user_transfer_authority_account: key_at(d, USER_AUTHORITY_AT as int),
            },
        )
    } else {
        None
    }
}

impl WhitelistPDAGlobalState {
    pub fn is_initialized(&self) -> (r: bool)
        ensures
            r == self.is_initialized,
    {
        self.is_initialized
    }

    /// Decodes a configuration from the whole of `data`.
    pub fn try_from_slice(data: &[u8]) -> (r: Result<WhitelistPDAGlobalState, ProcessError>)
        ensures
            match decode_global_state(data@) {
                Some(m) => r matches Ok(s) && s@ == m,
                None => r matches Err(ProcessError::BorshIoError),
            },
    {
        if data.len() != GLOBAL_STATE_LEN || data[GLOBAL_INITIALIZED_AT] > 1 {
            return Err(ProcessError::BorshIoError);
        }
        let s = WhitelistPDAGlobalState {
            whitelist_creator: Pubkey::read_at(data, 0),
            global_pda_bump: data[GLOBAL_BUMP_AT],
            whitelist_auth_addresses: [
                Pubkey::read_at(data, GLOBAL_ADDRESSES_AT),
                Pubkey::read_at(data, GLOBAL_ADDRESSES_AT + PUBKEY_BYTES),
                Pubkey::read_at(data, GLOBAL_ADDRESSES_AT + 2 * PUBKEY_BYTES),
                Pubkey::read_at(data, GLOBAL_ADDRESSES_AT + 3 * PUBKEY_BYTES),
                Pubkey::read_at(data, GLOBAL_ADDRESSES_AT + 4 * PUBKEY_BYTES),
                Pubkey::read_at(data, GLOBAL_ADDRESSES_AT + 5 * PUBKEY_BYTES),
            ],
            is_initialized: data[GLOBAL_INITIALIZED_AT] == 1,
            token_swap_pool_state: Pubkey::read_at(data, GLOBAL_POOL_AT),
            y_mint_account: Pubkey::read_at(data, GLOBAL_MINT_AT),
            y_token_account: Pubkey::read_at(data, GLOBAL_TOKEN_AT),
            native_sol_token_account: Pubkey::read_at(data, GLOBAL_NATIVE_AT),
            price_per_token_y: read_u64_le(data, GLOBAL_PRICE_AT),
        };
        proof {
            let m = decode_global_state(data@).unwrap();
            assert(s@.whitelist_auth_addresses =~= m.whitelist_auth_addresses);
        }
        Ok(s)
    }

    /// The stored form of this configuration.
    pub fn serialize(&self) -> (r: Vec<u8>)
        ensures
            r@ == encode_global_state(self@),
    {
        let mut out: Vec<u8> = self.whitelist_creator.to_vec();
        out.push(self.global_pda_bump);
        let mut i: usize = 0;
        while i < AUTHORIZED_CAPACITY
            invariant
                i <= AUTHORIZED_CAPACITY,
                out@ == self.whitelist_creator@ + seq![self.global_pda_bump] + addresses_prefix(
                    self@.whitelist_auth_addresses,
                    i as int,
                ),
            decreases AUTHORIZED_CAPACITY - i,
        {
            let part = self.whitelist_auth_addresses[i].to_vec();
            let mut extra = part;
            out.append(&mut extra);
            proof {
                assert(addresses_prefix(self@.whitelist_auth_addresses, i + 1)
                    =~= addresses_prefix(self@.whitelist_auth_addresses, i as int)
                    + self@.whitelist_auth_addresses[i as int]);
                assert(out@ =~= self.whitelist_creator@ + seq![self.global_pda_bump]
                    + addresses_prefix(self@.whitelist_auth_addresses, i + 1));
            }
            i = i + 1;
        }
        out.push(if self.is_initialized { 1u8 } else { 0u8 });
        let mut pool = self.token_swap_pool_state.to_vec();
        out.append(&mut pool);
        let mut mint = self.y_mint_account.to_vec();
        out.append(&mut mint);
        let mut token = self.y_token_account.to_vec();
        out.append(&mut token);
        let mut native = self.native_sol_token_account.to_vec();
        out.append(&mut native);
        push_u64_le(&mut out, self.price_per_token_y);
        proof {
            let a = self@.whitelist_auth_addresses;
            reveal_with_fuel(addresses_prefix, 7);
            assert(addresses_prefix(a, 6) =~= a[0] + a[1] + a[2] + a[3] + a[4] + a[5]);
            assert(out@ =~= encode_global_state(self@));
        }
        out
    }
}

/// The first `n` authorized identities, one after another.
pub open spec fn addresses_prefix(a: Seq<Seq<u8>>, n: int) -> Seq<u8>
    decreases n,
{
    if n <= 0 {
        Seq::empty()
    } else {
        addresses_prefix(a, n - 1) + a[n - 1]
    }
}

impl WhitelistUserState {
    pub fn is_initialized(&self) -> (r: bool)
        ensures
            r == self.is_initialized,
    {
        self.is_initialized
    }

    /// Decodes a redemption record from the whole of `data`.
    pub fn try_from_slice(data: &[u8]) -> (r: Result<WhitelistUserState, ProcessError>)
        ensures
            match decode_user_state(data@) {
                Some(m) => r matches Ok(s) && s@ == m,
                None => r matches Err(ProcessError::BorshIoError),
            },
    {
        if data.len() != USER_STATE_LEN || data[0] > 1 {
            return Err(ProcessError::BorshIoError);
        }
        Ok(WhitelistUserState {
            is_initialized: data[0] == 1,
            whitelisted_by_account: Pubkey::read_at(data, USER_BY_AT),
            whitelisted_at: read_u64_le(data, USER_TIME_AT) as i64,
            user_transfer_authority_account: Pubkey::read_at(data, USER_AUTHORITY_AT),
        })
    }

    /// The stored form of this record.
    pub fn serialize(&self) -> (r: Vec<u8>)
        ensures
            r@ == encode_user_state(self@),
    {
        let mut out: Vec<u8> = Vec::new();
        out.push(if self.is_initialized { 1u8 } else { 0u8 });
        let mut by = self.whitelisted_by_account.to_vec();
        out.append(&mut by);
        push_u64_le(&mut out, self.whitelisted_at as u64);
        let mut authority = self.user_transfer_authority_account.to_vec();
        out.append(&mut authority);
        proof {
            assert(out@ =~= encode_user_state(self@));
        }
        out
    }
}

/// Decoding the stored form of a configuration gives the configuration back.
pub proof fn lemma_global_state_round_trip(m: GlobalStateModel)
    requires
        global_model_well_formed(m),
    ensures
        decode_global_state(encode_global_state(m)) == Some(m),
{
    let e = encode_global_state(m);
    let a = m.whitelist_auth_addresses;
    assert(a[0].len() == 32 && a[1].len() == 32 && a[2].len() == 32);
    assert(a[3].len() == 32 && a[4].len() == 32 && a[5].len() == 32);
    assert(e.len() == GLOBAL_STATE_LEN);
    assert(key_at(e, 0) =~= m.whitelist_creator);
    assert(key_at(e, 33) =~= a[0]);
    assert(key_at(e, 65) =~= a[1]);
    assert(key_at(e, 97) =~= a[2]);
    assert(key_at(e, 129) =~= a[3]);
    assert(key_at(e, 161) =~= a[4]);
    assert(key_at(e, 193) =~= a[5]);
    assert(key_at(e, 226) =~= m.token_swap_pool_state);
    assert(key_at(e, 258) =~= m.y_mint_account);
    assert(key_at(e, 290) =~= m.y_token_account);
    assert(key_at(e, 322) =~= m.native_sol_token_account);
    assert(e.subrange(354, 362) =~= u64_le_bytes(m.price_per_token_y));
    lemma_u64_le_round_trip(m.price_per_token_y);
    assert(e[225] == flag_byte(m.is_initialized));
    let d = decode_global_state(e).unwrap();
    assert(d.whitelist_auth_addresses =~= a);
}

/// Decoding the stored form of a redemption record gives the record back.
pub proof fn lemma_user_state_round_trip(m: UserStateModel)
    requires
        user_model_well_formed(m),
    ensures
        decode_user_state(encode_user_state(m)) == Some(m),
{
    let e = encode_user_state(m);
    assert(e.len() == USER_STATE_LEN);
    assert(key_at(e, 1) =~= m.whitelisted_by_account);
    assert(key_at(e, 41) =~= m.user_transfer_authority_account);
    assert(e.subrange(33, 41) =~= u64_le_bytes(m.whitelisted_at as u64));
    lemma_u64_le_round_trip(m.whitelisted_at as u64);
    let v = m.whitelisted_at;
    assert(((v as u64) as i64) == v) by (bit_vector);
}

} // verus!
