use vstd::prelude::*;
use crate::bytes::{u64_le, u64_le_bytes, read_u64_le, push_u64_le, lemma_u64_le_round_trip};
use crate::error::{ProcessError, WhiteListError};
use crate::pubkey::{Pubkey, PUBKEY_BYTES};
use crate::state::{addresses_prefix, key_at, AUTHORIZED_CAPACITY};

verus! {

/// Payload size of an initialization command: bump, price, identities.
pub const INIT_PAYLOAD_LEN: usize = 201;

/// Payload size of a command that carries one amount.
pub const AMOUNT_PAYLOAD_LEN: usize = 8;

/// Payload size of a swap command: amount in, minimum amount out.
pub const SWAP_PAYLOAD_LEN: usize = 16;

/// The five commands of the whitelist.
#[derive(Clone, Copy, Debug)]
pub enum WhiteListInstruction {
    /// Creates the configuration record with the identities allowed to swap.
    InitWhiteList {
        whitelist_pda_bump: u8,
        price_per_token_y: u64,
        authorized_addresses: [Pubkey; AUTHORIZED_CAPACITY],
    },
    /// Creates the caller's wrapped-currency holding and wraps an amount into it.
    CreateAndWrapSOLToken { amount_to_be_wrapped: u64 },
    /// Wraps an amount into the caller's existing wrapped-currency holding.
    WrapSOLToken { amount_to_be_wrapped: u64 },
    /// Closes the caller's wrapped-currency holding.
    UnwrapSOLToken,
    /// Swaps native currency for the target token, once per authorized caller.
    SwapSOLToken { input_sol_amount: u64, expected_spl_token_amount: u64 },
}

pub enum InstructionModel {
    InitWhiteList { whitelist_pda_bump: u8, price_per_token_y: u64, authorized_addresses: Seq<Seq<u8>> },
    CreateAndWrapSOLToken { amount_to_be_wrapped: u64 },
    WrapSOLToken { amount_to_be_wrapped: u64 },
    UnwrapSOLToken,
    SwapSOLToken { input_sol_amount: u64, expected_spl_token_amount: u64 },
}

/// The identities of a fixed-capacity array, as byte sequences.
pub open spec fn keys_view(a: [Pubkey; AUTHORIZED_CAPACITY]) -> Seq<Seq<u8>> {
    Seq::new(AUTHORIZED_CAPACITY as nat, |i: int| a@[i]@)
}

impl View for WhiteListInstruction {
    type V = InstructionModel;

    open spec fn view(&self) -> InstructionModel {
        match *self {
            WhiteListInstruction::InitWhiteList {
                whitelist_pda_bump,
                price_per_token_y,
                authorized_addresses,
            } => InstructionModel::InitWhiteList {
                whitelist_pda_bump,
                price_per_token_y,
                authorized_addresses: keys_view(authorized_addresses),
            },
            WhiteListInstruction::CreateAndWrapSOLToken { amount_to_be_wrapped } =>
                InstructionModel::CreateAndWrapSOLToken { amount_to_be_wrapped },
            WhiteListInstruction::WrapSOLToken { amount_to_be_wrapped } =>
                InstructionModel::WrapSOLToken { amount_to_be_wrapped },
            WhiteListInstruction::UnwrapSOLToken => InstructionModel::UnwrapSOLToken,
            WhiteListInstruction::SwapSOLToken { input_sol_amount, expected_spl_token_amount } =>
                InstructionModel::SwapSOLToken { input_sol_amount, expected_spl_token_amount },
        }
    }
}

/// How many payload bytes must follow `tag`.
pub open spec fn payload_len(tag: u8) -> int {
    if tag == 0 {
        INIT_PAYLOAD_LEN as int
    } else if tag == 1 || tag == 2 {
        AMOUNT_PAYLOAD_LEN as int
    } else if tag == 4 {
        SWAP_PAYLOAD_LEN as int
    } else {
        0
    }
}

/// The command that `d` encodes: a tag byte from 0 to 4, then at least the
/// payload of that tag; bytes beyond it are ignored.
pub open spec fn decode_instruction(d: Seq<u8>) -> Result<InstructionModel, ProcessError> {
    if d.len() == 0 || d[0] > 4 || d.len() < 1 + payload_len(d[0]) {
        Err(ProcessError::Custom(WhiteListError::InvalidInstruction))
    } else if d[0] == 0 {
        Ok(
            InstructionModel::InitWhiteList {
                whitelist_pda_bump: d[1],
                price_per_token_y: u64_le(d.subrange(2, 10)),
                authorized_addresses: Seq::new(
                    AUTHORIZED_CAPACITY as nat,
                    |i: int| key_at(d, 10 + PUBKEY_BYTES * i),
                ),
            },
        )
    } else if d[0] == 1 {
        Ok(InstructionModel::CreateAndWrapSOLToken { amount_to_be_wrapped: u64_le(d.subrange(1, 9)) })
    } else if d[0] == 2 {
        Ok(InstructionModel::WrapSOLToken { amount_to_be_wrapped: u64_le(d.subrange(1, 9)) })
    } else if d[0] == 3 {
        Ok(InstructionModel::UnwrapSOLToken)
    } else {
        Ok(
            InstructionModel::SwapSOLToken {
                input_sol_amount: u64_le(d.subrange(1, 9)),
                expected_spl_token_amount: u64_le(d.subrange(9, 17)),
            },
        )
    }
}

/// The wire form of a command: its tag, then its fields in order.
pub open spec fn encode_instruction(m: InstructionModel) -> Seq<u8> {
    match m {
        InstructionModel::InitWhiteList { whitelist_pda_bump, price_per_token_y, authorized_addresses } =>
            seq![0u8, whitelist_pda_bump] + u64_le_bytes(price_per_token_y) + addresses_prefix(
            authorized_addresses,
            AUTHORIZED_CAPACITY as int,
        ),
        InstructionModel::CreateAndWrapSOLToken { amount_to_be_wrapped } => seq![1u8] + u64_le_bytes(
            amount_to_be_wrapped,
        ),
        InstructionModel::WrapSOLToken { amount_to_be_wrapped } => seq![2u8] + u64_le_bytes(
            amount_to_be_wrapped,
        ),
        InstructionModel::UnwrapSOLToken => seq![3u8],
        InstructionModel::SwapSOLToken { input_sol_amount, expected_spl_token_amount } => seq![4u8]
            + u64_le_bytes(input_sol_amount) + u64_le_bytes(expected_spl_token_amount),
    }
}

/// A command whose identities all have the ledger's width.
pub open spec fn instruction_well_formed(m: InstructionModel) -> bool {
    match m {
        InstructionModel::InitWhiteList { authorized_addresses, .. } => {
            &&& authorized_addresses.len() == AUTHORIZED_CAPACITY
            &&& forall|i: int|
                0 <= i < AUTHORIZED_CAPACITY ==> (#[trigger] authorized_addresses[i]).len()
                    == PUBKEY_BYTES
        },
        _ => true,
    }
}

impl WhiteListInstruction {
    /// The identity at `input[at..at + 32]`.
    fn unpack_pubkey(input: &[u8], at: usize) -> (r: Result<Pubkey, ProcessError>)
        ensures
            at + PUBKEY_BYTES <= input@.len() ==> (r matches Ok(k) && k@ == key_at(input@, at as int)),
            at + PUBKEY_BYTES > input@.len() ==> r matches Err(
                ProcessError::Custom(WhiteListError::InvalidInstruction),
            ),
    {
        if at <= input.len() && PUBKEY_BYTES <= input.len() - at {
            Ok(Pubkey::read_at(input, at))
        } else {
            Err(ProcessError::Custom(WhiteListError::InvalidInstruction))
        }
    }

    /// The little-endian amount at `data[at..at + 8]`.
    fn parse_amount(data: &[u8], at: usize) -> (r: Result<u64, ProcessError>)
        ensures
            at + 8 <= data@.len() ==> r == Ok::<u64, ProcessError>(
                u64_le(data@.subrange(at as int, at + 8)),
            ),
            at + 8 > data@.len() ==> r matches Err(
                ProcessError::Custom(WhiteListError::InvalidInstruction),
            ),
    {
        if at <= data.len() && 8 <= data.len() - at {
            Ok(read_u64_le(data, at))
        } else {
            Err(ProcessError::Custom(WhiteListError::InvalidInstruction))
        }
    }

    /// The six identities that start at `data[at]`, one after another.
    fn parse_authorized_addresses(data: &[u8], at: usize) -> (r: Result<
        [Pubkey; AUTHORIZED_CAPACITY],
        ProcessError,
    >)
        ensures
            at + PUBKEY_BYTES * AUTHORIZED_CAPACITY <= data@.len() ==> (r matches Ok(a) && keys_view(a)
                == Seq::new(AUTHORIZED_CAPACITY as nat, |i: int| key_at(data@, at + PUBKEY_BYTES * i))),
            at + PUBKEY_BYTES * AUTHORIZED_CAPACITY > data@.len() ==> r matches Err(
                ProcessError::Custom(WhiteListError::InvalidInstruction),
            ),
    {
        let mut keys: [Pubkey; AUTHORIZED_CAPACITY] = [Pubkey::new_from_array([0u8; PUBKEY_BYTES]); AUTHORIZED_CAPACITY];
        let n: usize = data.len();
        let mut pos: usize = at;
        let mut i: usize = 0;
        while i < AUTHORIZED_CAPACITY
            invariant
                n == data@.len(),
                i <= AUTHORIZED_CAPACITY,
                pos == at + PUBKEY_BYTES * i,
                i > 0 ==> pos <= data@.len(),
                forall|j: int| 0 <= j < i ==> (#[trigger] keys@[j])@ == key_at(data@, at + PUBKEY_BYTES * j),
            decreases AUTHORIZED_CAPACITY - i,
        {
            let key = Self::unpack_pubkey(data, pos)?;
            keys[i] = key;
            pos = pos + PUBKEY_BYTES;
            i = i + 1;
        }
        assert(keys_view(keys) =~= Seq::new(
            AUTHORIZED_CAPACITY as nat,
            |i: int| key_at(data@, at + PUBKEY_BYTES * i),
        ));
        Ok(keys)
    }

    /// Decodes a command: a tag byte, then that tag's payload.
    pub fn parse_instruction(instruction_data: &[u8]) -> (r: Result<WhiteListInstruction, ProcessError>)
        ensures
            match decode_instruction(instruction_data@) {
                Ok(m) => r matches Ok(i) && i@ == m,
                Err(e) => r matches Err(f) && f == e,
            },
    {
        let n: usize = instruction_data.len();
        if n == 0 {
            return Err(ProcessError::Custom(WhiteListError::InvalidInstruction));
        }
        let tag = instruction_data[0];
        if tag == 0 {
            if n < 1 + INIT_PAYLOAD_LEN {
                return Err(ProcessError::Custom(WhiteListError::InvalidInstruction));
            }
            let price = Self::parse_amount(instruction_data, 2)?;
            let addresses = Self::parse_authorized_addresses(instruction_data, 10)?;
            Ok(
                WhiteListInstruction::InitWhiteList {
                    whitelist_pda_bump: instruction_data[1],
                    price_per_token_y: price,
                    authorized_addresses: addresses,
                },
            )
        } else if tag == 1 {
            let amount = Self::parse_amount(instruction_data, 1)?;
            Ok(WhiteListInstruction::CreateAndWrapSOLToken { amount_to_be_wrapped: amount })
        } else if tag == 2 {
            let amount = Self::parse_amount(instruction_data, 1)?;
            Ok(WhiteListInstruction::WrapSOLToken { amount_to_be_wrapped: amount })
        } else if tag == 3 {
            Ok(WhiteListInstruction::UnwrapSOLToken)
        } else if tag == 4 {
            let amount_in = Self::parse_amount(instruction_data, 1)?;
            let minimum_out = Self::parse_amount(instruction_data, 9)?;
            Ok(
                WhiteListInstruction::SwapSOLToken {
                    input_sol_amount: amount_in,
                    expected_spl_token_amount: minimum_out,
                },
            )
        } else {
            Err(ProcessError::Custom(WhiteListError::InvalidInstruction))
        }
    }

    /// The wire form of this command.
    pub fn pack(&self) -> (r: Vec<u8>)
        ensures
            r@ == encode_instruction(self@),
    {
        let mut out: Vec<u8> = Vec::new();
        match self {
            WhiteListInstruction::InitWhiteList {
                whitelist_pda_bump,
                price_per_token_y,
                authorized_addresses,
            } => {
                out.push(0u8);
                out.push(*whitelist_pda_bump);
                push_u64_le(&mut out, *price_per_token_y);
                let ghost head = out@;
                let mut i: usize = 0;
                while i < AUTHORIZED_CAPACITY
                    invariant
                        i <= AUTHORIZED_CAPACITY,
                        out@ == head + addresses_prefix(keys_view(*authorized_addresses), i as int),
                    decreases AUTHORIZED_CAPACITY - i,
                {
                    let mut part = authorized_addresses[i].to_vec();
                    out.append(&mut part);
                    proof {
                        let a = keys_view(*authorized_addresses);
                        assert(addresses_prefix(a, i + 1) =~= addresses_prefix(a, i as int) + a[i as int]);
                        assert(out@ =~= head + addresses_prefix(a, i + 1));
                    }
                    i = i + 1;
                }
                assert(out@ =~= encode_instruction(self@));
            },
            WhiteListInstruction::CreateAndWrapSOLToken { amount_to_be_wrapped } => {
                out.push(1u8);
                push_u64_le(&mut out, *amount_to_be_wrapped);
                assert(out@ =~= encode_instruction(self@));
            },
            WhiteListInstruction::WrapSOLToken { amount_to_be_wrapped } => {
                out.push(2u8);
                push_u64_le(&mut out, *amount_to_be_wrapped);
                assert(out@ =~= encode_instruction(self@));
            },
            WhiteListInstruction::UnwrapSOLToken => {
                out.push(3u8);
                assert(out@ =~= encode_instruction(self@));
            },
            WhiteListInstruction::SwapSOLToken { input_sol_amount, expected_spl_token_amount } => {
                out.push(4u8);
                push_u64_le(&mut out, *input_sol_amount);
                push_u64_le(&mut out, *expected_spl_token_amount);
                assert(out@ =~= encode_instruction(self@));
            },
        }
        out
    }
}

/// A buffer that is empty, names no command, or is shorter than its tag's
/// payload is rejected as an invalid instruction.
pub proof fn lemma_short_buffer_rejected(d: Seq<u8>)
    requires
        d.len() == 0 || d[0] > 4 || d.len() < 1 + payload_len(d[0]),
    ensures
        decode_instruction(d) == Err::<InstructionModel, ProcessError>(
            ProcessError::Custom(WhiteListError::InvalidInstruction),
        ),
{
}

/// Decoding the wire form of a command gives the command back, field for field.
pub proof fn lemma_parse_pack_round_trip(m: InstructionModel)
    requires
        instruction_well_formed(m),
    ensures
        decode_instruction(encode_instruction(m)) == Ok::<InstructionModel, ProcessError>(m),
{
    let e = encode_instruction(m);
    match m {
        InstructionModel::InitWhiteList { whitelist_pda_bump, price_per_token_y, authorized_addresses } => {
            let a = authorized_addresses;
            reveal_with_fuel(addresses_prefix, 7);
            assert(a[0].len() == 32 && a[1].len() == 32 && a[2].len() == 32);
            assert(a[3].len() == 32 && a[4].len() == 32 && a[5].len() == 32);
            assert(e.len() == 1 + INIT_PAYLOAD_LEN);
            assert(e.subrange(2, 10) =~= u64_le_bytes(price_per_token_y));
            lemma_u64_le_round_trip(price_per_token_y);
            assert(key_at(e, 10) =~= a[0]);
            assert(key_at(e, 42) =~= a[1]);
            assert(key_at(e, 74) =~= a[2]);
            assert(key_at(e, 106) =~= a[3]);
            assert(key_at(e, 138) =~= a[4]);
            assert(key_at(e, 170) =~= a[5]);
            assert(Seq::new(AUTHORIZED_CAPACITY as nat, |i: int| key_at(e, 10 + PUBKEY_BYTES * i)) =~= a);
        },
        InstructionModel::CreateAndWrapSOLToken { amount_to_be_wrapped } => {
            assert(e.subrange(1, 9) =~= u64_le_bytes(amount_to_be_wrapped));
            lemma_u64_le_round_trip(amount_to_be_wrapped);
        },
        InstructionModel::WrapSOLToken { amount_to_be_wrapped } => {
            assert(e.subrange(1, 9) =~= u64_le_bytes(amount_to_be_wrapped));
            lemma_u64_le_round_trip(amount_to_be_wrapped);
        },
        InstructionModel::UnwrapSOLToken => {},
        InstructionModel::SwapSOLToken { input_sol_amount, expected_spl_token_amount } => {
            assert(e.subrange(1, 9) =~= u64_le_bytes(input_sol_amount));
            assert(e.subrange(9, 17) =~= u64_le_bytes(expected_spl_token_amount));
            lemma_u64_le_round_trip(input_sol_amount);
            lemma_u64_le_round_trip(expected_spl_token_amount);
        },
    }
}

} // verus!
