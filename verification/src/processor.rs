//! The exchange's entry: which instruction was sent, and what it asks for.

use vstd::prelude::*;
use crate::account::AccountInfo;
use crate::address::Address;
use crate::error::{custom, host_error, ProgramError};
use crate::instructions::SimpleDexInstruction;
use crate::instructions::cancel_offer::{CancelPlan, process_cancel, process_cancel_result};
use crate::instructions::create_offer::{
    CreateOfferPlan, process_create_offer, process_create_offer_result,
};
use crate::instructions::match_offers::{
    MatchPlan, process_match_offers, process_match_offers_result,
};
use crate::packun::DeserializePacked;

verus! {

/// What an instruction that passed every test asks for.
pub enum Plan<'a> {
    CreateOffer(CreateOfferPlan<'a>),
    CancelOffer(CancelPlan<'a>),
    MatchOffers(MatchPlan<'a>),
}

/// The exchange's entry.
pub struct Processor {}

impl Processor {
    /// The instruction that `input` holds, or the failure to read one: the
    /// program addressed must be the exchange, and the bytes must start
    /// with a packed instruction.
    pub open spec fn instruction_spec(
        program_id: &Address,
        input: Seq<u8>,
    ) -> Result<SimpleDexInstruction, ProgramError> {
        if program_id@ != crate::ID@ {
            Err(ProgramError::IncorrectProgramId)
        } else {
            match SimpleDexInstruction::parse(input).0 {
                Ok(instruction) => Ok(instruction),
                Err(e) => Err(custom(e)),
            }
        }
    }

    /// Reads the instruction and tests it against the accounts. The result
    /// is what the instruction's own function returns: see
    /// [`process_create_offer`], [`process_cancel`] and
    /// [`process_match_offers`]. `slot` is the host's clock, and
    /// `rent_minimum` the deposit that frees an account of a record's
    /// length of rent; only a new offer uses them.
    pub fn process<'a>(
        program_id: &Address,
        accounts: &'a [AccountInfo],
        input: &[u8],
        slot: u64,
        rent_minimum: u64,
    ) -> (r: Result<Plan<'a>, ProgramError>)
        ensures
            match Self::instruction_spec(program_id, input@) {
                Err(e) => r is Err && r->Err_0 == e,
                Ok(SimpleDexInstruction::CreateOffer(args)) => match r {
                    Ok(plan) => plan is CreateOffer && process_create_offer_result(
                        accounts@,
                        args,
                        slot,
                        rent_minimum,
                        Ok(plan->CreateOffer_0),
                    ),
                    Err(e) => process_create_offer_result(
                        accounts@,
                        args,
                        slot,
                        rent_minimum,
                        Err(e),
                    ),
                },
                Ok(SimpleDexInstruction::CancelOffer) => match r {
                    Ok(plan) => plan is CancelOffer && process_cancel_result(
                        accounts@,
                        Ok(plan->CancelOffer_0),
                    ),
                    Err(e) => process_cancel_result(accounts@, Err(e)),
                },
                Ok(SimpleDexInstruction::MatchOffers) => match r {
                    Ok(plan) => plan is MatchOffers && process_match_offers_result(
                        accounts@,
                        Ok(plan->MatchOffers_0),
                    ),
                    Err(e) => process_match_offers_result(accounts@, Err(e)),
                },
            },
    {
        if *program_id != crate::id() {
            return Err(ProgramError::IncorrectProgramId);
        }
        let mut reader = input;
        let instruction = host_error(SimpleDexInstruction::read_bytes(&mut reader))?;
        match instruction {
            SimpleDexInstruction::CreateOffer(args) => Ok(
                Plan::CreateOffer(process_create_offer(accounts, args, slot, rent_minimum)?),
            ),
            SimpleDexInstruction::CancelOffer => Ok(Plan::CancelOffer(process_cancel(accounts)?)),
            SimpleDexInstruction::MatchOffers => Ok(
                Plan::MatchOffers(process_match_offers(accounts)?),
            ),
        }
    }
}

} // verus!
