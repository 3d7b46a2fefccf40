//! The packed form of instructions: one byte that tells the instruction,
//! then what it carries.

use vstd::prelude::*;
use crate::error::SimpleDexError;
use crate::instructions::SimpleDexInstruction;
use crate::instructions::create_offer::CreateOfferArgs;
use crate::packun::{
    Cursor, DeserializePacked, lemma_u16_le_round_trip, lemma_u64_le_round_trip,
    lemma_written_joined, SerializePacked, u16_from_le, u16_to_le, u64_from_le, u64_to_le,
};

verus! {

impl DeserializePacked for SimpleDexInstruction {
    open spec fn parse(bytes: Seq<u8>) -> (Result<SimpleDexInstruction, SimpleDexError>, nat) {
        if bytes.len() == 0 {
            (Err(SimpleDexError::PackunError), 0)
        } else if bytes[0] == 0 {
            match create_offer_args(bytes.skip(1)) {
                Some(args) => (Ok(SimpleDexInstruction::CreateOffer(args)), 20),
                None => (Err(SimpleDexError::PackunError), bytes.len()),
            }
        } else if bytes[0] == 1 {
            (Ok(SimpleDexInstruction::CancelOffer), 1)
        } else if bytes[0] == 2 {
            (Ok(SimpleDexInstruction::MatchOffers), 1)
        } else {
            (Err(SimpleDexError::PackunError), 1)
        }
    }

    fn read_bytes<'a>(buf: &mut &'a [u8]) -> (r: Result<SimpleDexInstruction, SimpleDexError>) {
        let ghost all = buf@;
        let tag = u8::read_bytes(buf)?;
        match tag {
            0 => {
                let args = CreateOfferArgs::read_bytes(buf)?;
                assert(buf@ =~= all.skip(1 + CreateOfferArgs::parse(all.skip(1)).1 as int));
                assert(all.skip(1).len() == all.len() - 1);
                Ok(SimpleDexInstruction::CreateOffer(args))
            },
            1 => Ok(SimpleDexInstruction::CancelOffer),
            2 => Ok(SimpleDexInstruction::MatchOffers),
            _ => Err(SimpleDexError::PackunError),
        }
    }
}

/// What the maker of an offer chose, as the first 19 of `bytes` tell it;
/// nothing where there are fewer.
pub open spec fn create_offer_args(bytes: Seq<u8>) -> Option<CreateOfferArgs> {
    if bytes.len() >= 19 {
        Some(
            CreateOfferArgs {
                bump: bytes[0],
                seed: u16_from_le(bytes.subrange(1, 3)),
                offering: u64_from_le(bytes.subrange(3, 11)),
                accept_at_least: u64_from_le(bytes.subrange(11, 19)),
            },
        )
    } else {
        None
    }
}

impl DeserializePacked for CreateOfferArgs {
    open spec fn parse(bytes: Seq<u8>) -> (Result<CreateOfferArgs, SimpleDexError>, nat) {
        match create_offer_args(bytes) {
            Some(args) => (Ok(args), 19),
            None => (Err(SimpleDexError::PackunError), bytes.len()),
        }
    }

    fn read_bytes<'a>(buf: &mut &'a [u8]) -> (r: Result<CreateOfferArgs, SimpleDexError>) {
        let ghost all = buf@;
        let bump = match u8::read_bytes(buf) {
            Ok(v) => v,
            Err(e) => {
                return Err(e);
            },
        };
        assert(buf@ =~= all.skip(1));
        let seed = match u16::read_bytes(buf) {
            Ok(v) => v,
            Err(e) => {
                assert(buf@ =~= all.skip(all.len() as int));
                return Err(e);
            },
        };
        assert(buf@ =~= all.skip(3));
        let offering = match u64::read_bytes(buf) {
            Ok(v) => v,
            Err(e) => {
                assert(buf@ =~= all.skip(all.len() as int));
                return Err(e);
            },
        };
        assert(buf@ =~= all.skip(11));
        let accept_at_least = match u64::read_bytes(buf) {
            Ok(v) => v,
            Err(e) => {
                assert(buf@ =~= all.skip(all.len() as int));
                return Err(e);
            },
        };
        assert(buf@ =~= all.skip(19));
        Ok(CreateOfferArgs { bump, seed, offering, accept_at_least })
    }
}

impl SerializePacked for SimpleDexInstruction {
    open spec fn packed(&self) -> Seq<u8> {
        match self {
            SimpleDexInstruction::CreateOffer(args) => seq![0u8] + args.packed(),
            SimpleDexInstruction::CancelOffer => seq![1u8],
            SimpleDexInstruction::MatchOffers => seq![2u8],
        }
    }

    fn write_bytes(&self, buf: &mut Cursor) -> (r: Result<(), SimpleDexError>) {
        let ghost start = buf@;
        match self {
            SimpleDexInstruction::CreateOffer(args) => {
                proof {
                    lemma_written_joined(start, seq![0u8], args.packed());
                }
                match 0u8.write_bytes(buf) {
                    Ok(()) => {},
                    Err(e) => {
                        return Err(e);
                    },
                }
                args.write_bytes(buf)
            },
            SimpleDexInstruction::CancelOffer => 1u8.write_bytes(buf),
            SimpleDexInstruction::MatchOffers => 2u8.write_bytes(buf),
        }
    }
}

impl SerializePacked for CreateOfferArgs {
    open spec fn packed(&self) -> Seq<u8> {
        seq![self.bump] + u16_to_le(self.seed) + u64_to_le(self.offering) + u64_to_le(
            self.accept_at_least,
        )
    }

    fn write_bytes(&self, buf: &mut Cursor) -> (r: Result<(), SimpleDexError>) {
        let ghost start = buf@;
        let ghost seed = u16_to_le(self.seed);
        let ghost offering = u64_to_le(self.offering);
        let ghost asking = u64_to_le(self.accept_at_least);
        let ghost to_bump = seq![self.bump];
        let ghost to_seed = to_bump + seed;
        let ghost to_offering = to_seed + offering;
        proof {
            lemma_u16_le_round_trip(self.seed);
            lemma_u64_le_round_trip(self.offering);
            lemma_u64_le_round_trip(self.accept_at_least);
            lemma_written_joined(start, to_bump, seed);
            lemma_written_joined(start, to_seed, offering);
            lemma_written_joined(start, to_offering, asking);
            // where a field does not fit, what is written is the whole cut short
            lemma_written_joined(start, to_bump, seed + offering + asking);
            lemma_written_joined(start, to_seed, offering + asking);
            assert(to_bump + (seed + offering + asking) =~= self.packed());
            assert(to_seed + (offering + asking) =~= self.packed());
        }
        match self.bump.write_bytes(buf) {
            Ok(()) => {},
            Err(e) => {
                return Err(e);
            },
        }
        match self.seed.write_bytes(buf) {
            Ok(()) => {},
            Err(e) => {
                return Err(e);
            },
        }
        match self.offering.write_bytes(buf) {
            Ok(()) => {},
            Err(e) => {
                return Err(e);
            },
        }
        self.accept_at_least.write_bytes(buf)
    }
}

/// The number of bytes of an instruction's packed form.
pub open spec fn packed_len(instruction: &SimpleDexInstruction) -> nat {
    match instruction {
        SimpleDexInstruction::CreateOffer(_) => {
            SimpleDexInstruction::PACKED_LEN_CREATE_OFFER as nat
        },
        SimpleDexInstruction::CancelOffer => SimpleDexInstruction::PACKED_LEN_CANCEL_OFFER as nat,
        SimpleDexInstruction::MatchOffers => SimpleDexInstruction::PACKED_LEN_MATCH_OFFERS as nat,
    }
}

/// The packed form of an instruction, in a buffer of exactly its length.
pub fn pack_instruction(instruction: &SimpleDexInstruction) -> (data: Vec<u8>)
    ensures
        data@ == instruction.packed(),
        data@.len() == packed_len(instruction),
{
    let len = match instruction {
        SimpleDexInstruction::CreateOffer(_) => SimpleDexInstruction::PACKED_LEN_CREATE_OFFER,
        SimpleDexInstruction::CancelOffer => SimpleDexInstruction::PACKED_LEN_CANCEL_OFFER,
        SimpleDexInstruction::MatchOffers => SimpleDexInstruction::PACKED_LEN_MATCH_OFFERS,
    };
    proof {
        match instruction {
            SimpleDexInstruction::CreateOffer(args) => {
                lemma_u16_le_round_trip(args.seed);
                lemma_u64_le_round_trip(args.offering);
                lemma_u64_le_round_trip(args.accept_at_least);
            },
            _ => {},
        }
    }
    let mut writer = Cursor::zeroed(len);
    let ghost start = writer@;
    let written = instruction.write_bytes(&mut writer);
    assert(written is Ok);
    let data = writer.into_inner();
    assert(data@ =~= instruction.packed());
    data
}

/// An instruction is read back from its packed form, whatever follows it.
pub proof fn lemma_instruction_round_trip(instruction: SimpleDexInstruction, rest: Seq<u8>)
    ensures
        SimpleDexInstruction::parse(instruction.packed() + rest) == (
            Ok::<SimpleDexInstruction, SimpleDexError>(instruction),
            instruction.packed().len(),
        ),
{
    match instruction {
        SimpleDexInstruction::CreateOffer(args) => {
            let bytes = instruction.packed() + rest;
            let inner = bytes.skip(1);
            lemma_u16_le_round_trip(args.seed);
            lemma_u64_le_round_trip(args.offering);
            lemma_u64_le_round_trip(args.accept_at_least);
            assert(inner =~= args.packed() + rest);
            assert(inner.subrange(1, 3) =~= u16_to_le(args.seed));
            assert(inner.subrange(3, 11) =~= u64_to_le(args.offering));
            assert(inner.subrange(11, 19) =~= u64_to_le(args.accept_at_least));
        },
        SimpleDexInstruction::CancelOffer => {},
        SimpleDexInstruction::MatchOffers => {},
    }
}

} // verus!
