//! The single settlement pass.
//!
//! One invocation runs the linear pipeline: validate the decoded request,
//! draw the random value, build the instruction payload, and hand the pair
//! of instructions to the host's emission channel. There are exactly two
//! failure exits, each with its own numeric code: a request that did not
//! decode, and an emission that did not go through. The host performs the
//! decode and the emission; the decisions between them are verified here.

use vstd::prelude::*;
use crate::instruction::{
    RequestParameters, SettlementContext, SettlementInstruction, build_settlement_instruction,
    is_settlement_instruction,
};
use crate::rng::BoundedDraw;

verus! {

/// Lower bound of the settlement draw.
pub const DRAW_MIN: u32 = 1;

/// Upper bound of the settlement draw.
pub const DRAW_MAX: u32 = 100000;

/// The failure classes one invocation can report, a closed set.
#[derive(Clone, Copy, PartialEq, Eq, Structural, Debug)]
pub enum SettlementError {
    /// The request parameters were malformed or missing.
    InvalidParams,
    /// The assembled instructions could not be delivered by the host channel.
    EmissionFailed,
}

impl SettlementError {
    /// The numeric code the host channel expects for this failure class.
    pub open spec fn spec_code(self) -> u32 {
        match self {
            SettlementError::InvalidParams => 1,
            SettlementError::EmissionFailed => 3,
        }
    }

    /// Returns the numeric code of this failure class.
    pub fn code(&self) -> (c: u32)
        ensures
            c == self.spec_code(),
            c == 1 <==> *self == SettlementError::InvalidParams,
            c == 3 <==> *self == SettlementError::EmissionFailed,
    {
        match self {
            SettlementError::InvalidParams => 1,
            SettlementError::EmissionFailed => 3,
        }
    }
}

/// Runs the decision half of one invocation: a missing request fails with
/// the invalid-parameters class and builds nothing; a decoded request draws
/// one value and yields the two instructions to emit, the host's fixed
/// compute-budget instruction first and the settlement instruction second.
pub fn run_settlement(
    ctx: &SettlementContext,
    decoded: Option<RequestParameters>,
    compute_budget: SettlementInstruction,
) -> (r: Result<Vec<SettlementInstruction>, SettlementError>)
    ensures
        decoded is None <==> r is Err,
        r is Err ==> r->Err_0 == SettlementError::InvalidParams,
        decoded matches Some(p) ==> r matches Ok(ixs) && ixs@.len() == 2 && ixs@[0]
            == compute_budget && (exists|v: u32|
            DRAW_MIN <= v <= DRAW_MAX && is_settlement_instruction(ixs@[1], *ctx, p, v)),
{
    let p = match decoded {
        None => {
            return Err(SettlementError::InvalidParams);
        },
        Some(p) => p,
    };
    let d = BoundedDraw::new(DRAW_MIN, DRAW_MAX);
    let settle_ixn = build_settlement_instruction(ctx, &p, d.value);
    let mut ixs: Vec<SettlementInstruction> = Vec::new();
    ixs.push(compute_budget);
    ixs.push(settle_ixn);
    proof {
        assert(DRAW_MIN <= d.value <= DRAW_MAX && is_settlement_instruction(
            ixs@[1],
            *ctx,
            p,
            d.value,
        ));
    }
    Ok(ixs)
}

/// Maps the host channel's emission outcome to the end of the run: success
/// finishes it, failure exits with the emission failure class.
pub fn emission_result(emitted: bool) -> (r: Result<(), SettlementError>)
    ensures
        emitted <==> r is Ok,
        !emitted ==> r->Err_0 == SettlementError::EmissionFailed,
{
    if emitted {
        Ok(())
    } else {
        Err(SettlementError::EmissionFailed)
    }
}

} // verus!
