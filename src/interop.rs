use vstd::prelude::*;
use crate::bytes::u64_le;
use crate::error::ProcessError;
use crate::pubkey::Pubkey;
use crate::state::key_at;

verus! {

/// Most seeds an address derivation accepts.
pub const MAX_SEEDS: usize = 16;

/// Longest seed an address derivation accepts.
pub const MAX_SEED_LEN: usize = 32;

/// Encoded size of a token holding record.
pub const TOKEN_ACCOUNT_LEN: usize = 165;

/// Encoded size of a swap pool record, its version byte included.
pub const SWAP_POOL_LEN: usize = 324;

/// The address derived from `seeds` under `program_id`, or `None` where the
/// derivation lands on the curve and yields no program address.
pub uninterp spec fn program_address(seeds: Seq<Seq<u8>>, program_id: Seq<u8>) -> Option<Seq<u8>>;

/// Derivation seeds as byte sequences.
pub open spec fn seeds_view(seeds: Seq<Vec<u8>>) -> Seq<Seq<u8>> {
    seeds.map_values(|s: Vec<u8>| s@)
}

/// The canonical token holding of `wallet` for `mint`.
pub uninterp spec fn associated_token_address(wallet: Seq<u8>, mint: Seq<u8>) -> Seq<u8>;

/// The fields of a token holding that the whitelist reads.
#[derive(Clone, Copy, Debug)]
pub struct TokenAccountFields {
    pub mint: Pubkey,
    pub owner: Pubkey,
    pub amount: u64,
}

pub struct TokenAccountModel {
    pub mint: Seq<u8>,
    pub owner: Seq<u8>,
    pub amount: u64,
}

impl View for TokenAccountFields {
    type V = TokenAccountModel;

    open spec fn view(&self) -> TokenAccountModel {
        TokenAccountModel { mint: self.mint@, owner: self.owner@, amount: self.amount }
    }
}

/// The four-byte tag of an optional field: 0 for absent, 1 for present.
pub open spec fn option_tag_ok(d: Seq<u8>, at: int) -> bool {
    &&& d[at] <= 1
    &&& d[at + 1] == 0
    &&& d[at + 2] == 0
    &&& d[at + 3] == 0
}

/// A token holding as the token program stores it: mint, owner, amount,
/// an optional delegate, a state byte (0 uninitialized, 1 initialized,
/// 2 frozen), an optional native reserve, the delegated amount and an
/// optional close authority.
pub open spec fn decode_token_account(d: Seq<u8>) -> Result<TokenAccountModel, ProcessError> {
    if d.len() != TOKEN_ACCOUNT_LEN || !option_tag_ok(d, 72) || d[108] > 2 || !option_tag_ok(d, 109)
        || !option_tag_ok(d, 129) {
        Err(ProcessError::InvalidAccountData)
    } else if d[108] == 0 {
        Err(ProcessError::UninitializedAccount)
    } else {
        Ok(TokenAccountModel { mint: key_at(d, 0), owner: key_at(d, 32), amount: u64_le(d.subrange(64, 72)) })
    }
}

/// What the whitelist reads of a swap pool record.
#[derive(Clone, Copy, Debug)]
pub struct SwapPoolHeader {
    pub is_initialized: bool,
    pub bump_seed: u8,
}

/// Offset of the curve-type byte in a swap pool record.
pub const SWAP_CURVE_TYPE_AT: usize = 291;

/// A swap pool record as the swap engine stores it: a version byte of 1,
/// then an initialization flag (0 or 1), the authority's bump seed, seven
/// identities, eight fee integers, and a curve whose type byte is 0 to 3
/// followed by 32 bytes of curve parameters that always decode. A record
/// that is not initialized, or of another version, reads as uninitialized.
pub open spec fn decode_swap_pool(d: Seq<u8>) -> Result<SwapPoolHeader, ProcessError> {
    if d.len() == 0 {
        Err(ProcessError::InvalidAccountData)
    } else if d[0] != 1 {
        Err(ProcessError::UninitializedAccount)
    } else if d.len() != SWAP_POOL_LEN || d[1] > 1 || d[SWAP_CURVE_TYPE_AT as int] > 3 {
        Err(ProcessError::InvalidAccountData)
    } else if d[1] == 0 {
        Err(ProcessError::UninitializedAccount)
    } else {
        Ok(SwapPoolHeader { is_initialized: true, bump_seed: d[2] })
    }
}

/// Relies on `Pubkey::create_program_address` of solana-program: the
/// derivation depends on the seeds and the program alone, and with at most
/// sixteen seeds of at most 32 bytes its only failure is a point on the curve.
#[verifier::external_body]
pub(crate) fn create_program_address(seeds: &Vec<Vec<u8>>, program_id: &Pubkey) -> (r: Option<Pubkey>)
    requires
        seeds@.len() <= MAX_SEEDS,
        forall|i: int| 0 <= i < seeds@.len() ==> (#[trigger] seeds@[i])@.len() <= MAX_SEED_LEN,
    ensures
        match r {
            Some(k) => program_address(seeds_view(seeds@), program_id@) == Some(k@),
            None => program_address(seeds_view(seeds@), program_id@) is None,
        },
{
    let slices: Vec<&[u8]> = seeds.iter().map(|s| s.as_slice()).collect();
    let program = solana_program::pubkey::Pubkey::new_from_array(program_id.bytes);
    match solana_program::pubkey::Pubkey::create_program_address(&slices, &program) {
        Ok(k) => Some(Pubkey { bytes: k.to_bytes() }),
        Err(_) => None,
    }
}

/// Relies on `get_associated_token_address` of spl-associated-token-account:
/// the address depends on the wallet and the mint alone. (It panics only
/// where no bump seed at all yields a program address.)
#[verifier::external_body]
pub(crate) fn get_associated_token_address(wallet: &Pubkey, mint: &Pubkey) -> (r: Pubkey)
    ensures
        r@ == associated_token_address(wallet@, mint@),
{
    let w = solana_program::pubkey::Pubkey::new_from_array(wallet.bytes);
    let m = solana_program::pubkey::Pubkey::new_from_array(mint.bytes);
    let a = spl_associated_token_account::get_associated_token_address(&w, &m);
    Pubkey { bytes: a.to_bytes() }
}

/// Relies on `Pack::unpack` for `spl_token::state::Account`: the exact
/// length, valid option tags and state byte, else `InvalidAccountData`;
/// a zero state byte gives `UninitializedAccount`.
#[verifier::external_body]
pub(crate) fn unpack_token_account(data: &[u8]) -> (r: Result<TokenAccountFields, ProcessError>)
    ensures
        match decode_token_account(data@) {
            Ok(m) => r matches Ok(t) && t@ == m,
            Err(e) => r matches Err(f) && f == e,
        },
{
    match <spl_token::state::Account as solana_program::program_pack::Pack>::unpack(data) {
        Ok(a) => Ok(
            TokenAccountFields {
                mint: Pubkey { bytes: a.mint.to_bytes() },
                owner: Pubkey { bytes: a.owner.to_bytes() },
                amount: a.amount,
            },
        ),
        Err(solana_program::program_error::ProgramError::UninitializedAccount) => Err(
            ProcessError::UninitializedAccount,
        ),
        Err(_) => Err(ProcessError::InvalidAccountData),
    }
}

/// Relies on `SwapVersion::unpack` of spl-token-swap, whose record layout
/// and failures `decode_swap_pool` states: the initialization flag, fees and
/// curve are read in that order, and only an unknown curve type fails among
/// the curves.
#[verifier::external_body]
pub(crate) fn unpack_swap_pool(data: &[u8]) -> (r: Result<SwapPoolHeader, ProcessError>)
    ensures
        r == decode_swap_pool(data@),
{
    match spl_token_swap::state::SwapVersion::unpack(data) {
        Ok(s) => Ok(SwapPoolHeader { is_initialized: s.is_initialized(), bump_seed: s.nonce() }),
        Err(solana_program::program_error::ProgramError::UninitializedAccount) => Err(
            ProcessError::UninitializedAccount,
        ),
        Err(_) => Err(ProcessError::InvalidAccountData),
    }
}

/// Relies on `spl_token::id`: the token program's identity.
#[verifier::external_body]
pub(crate) fn token_program_id() -> (r: Pubkey) {
    Pubkey { bytes: spl_token::id().to_bytes() }
}

/// Relies on `solana_program::system_program::id`: the system program's identity.
#[verifier::external_body]
pub(crate) fn system_program_id() -> (r: Pubkey) {
    Pubkey { bytes: solana_program::system_program::id().to_bytes() }
}

/// Relies on `spl_token::native_mint::id`: the wrapped native currency's mint.
#[verifier::external_body]
pub(crate) fn native_mint_id() -> (r: Pubkey) {
    Pubkey { bytes: spl_token::native_mint::id().to_bytes() }
}

/// Relies on `spl_associated_token_account::id`: the associated-holding factory's identity.
#[verifier::external_body]
pub(crate) fn associated_token_program_id() -> (r: Pubkey) {
    Pubkey { bytes: spl_associated_token_account::id().to_bytes() }
}

/// Relies on `spl_token_swap::id`: the swap engine's identity.
#[verifier::external_body]
pub(crate) fn token_swap_program_id() -> (r: Pubkey) {
    Pubkey { bytes: spl_token_swap::id().to_bytes() }
}

} // verus!
