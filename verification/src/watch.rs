//! The watch loop's decisions: what to notify for a record, and whether
//! to keep listening.
//!
//! Two configurations exist.  Watching every shape never stops the
//! loop.  Watching a single bid-entered identifier stops the loop on
//! any record that is not a bid for exactly that identifier; a delivery
//! outcome never stops it.

use vstd::prelude::*;
use crate::u256::U256;
use crate::events::{EventModel, EventShape, RawLogRecord};
use crate::decode::{decode_event, spec_decode};
use crate::render::{record_message, render_event, spec_message, spec_record_message};

verus! {

/// Which records the loop watches for.
pub enum WatchMode {
    /// Decode all shapes; unrecognized records get a diagnostic message.
    All,
    /// Only bid-entered records for this identifier; anything else stops
    /// the loop.
    SingleBid { punk_index: U256 },
}

#[derive(PartialEq, Eq, Structural, Clone, Copy, Debug)]
pub enum LoopState {
    Listening,
    Stopped,
}

/// What one record makes the loop do: possibly notify, then either keep
/// listening or stop.
pub struct StepOutcome {
    pub message: Option<String>,
    pub next: LoopState,
}

/// The state the loop is in after consuming one record.
pub open spec fn spec_step_state(mode: WatchMode, topics: Seq<Seq<u8>>, data: Seq<u8>) -> LoopState {
    match mode {
        WatchMode::All => LoopState::Listening,
        WatchMode::SingleBid { punk_index } => match spec_decode(topics, data) {
            Some(e) => match e {
                EventModel::PunkBidEntered { punk_index: idx, value: _, from_address: _ } => if idx
                    == punk_index.value() {
                    LoopState::Listening
                } else {
                    LoopState::Stopped
                },
                _ => LoopState::Stopped,
            },
            None => LoopState::Stopped,
        },
    }
}

/// The message the loop sends for one record, if any.
pub open spec fn spec_step_message(mode: WatchMode, topics: Seq<Seq<u8>>, data: Seq<u8>) -> Option<
    Seq<char>,
> {
    match mode {
        WatchMode::All => Some(spec_record_message(topics, data)),
        WatchMode::SingleBid { punk_index } => match spec_decode(topics, data) {
            Some(e) => match e {
                EventModel::PunkBidEntered { punk_index: idx, value: _, from_address: _ } => if idx
                    == punk_index.value() {
                    Some(spec_message(e))
                } else {
                    None
                },
                _ => None,
            },
            None => None,
        },
    }
}

/// Consumes one record: decodes it under the mode and decides message
/// and next state.
pub fn step(mode: &WatchMode, r: &RawLogRecord) -> (out: StepOutcome)
    ensures
        out.next == spec_step_state(*mode, r.topics_model(), r.data@),
        match out.message {
            Some(m) => spec_step_message(*mode, r.topics_model(), r.data@) == Some(m@),
            None => spec_step_message(*mode, r.topics_model(), r.data@) is None,
        },
{
    match mode {
        WatchMode::All => StepOutcome {
            message: Some(record_message(r)),
            next: LoopState::Listening,
        },
        WatchMode::SingleBid { punk_index: target } => match decode_event(r) {
            Some(e) => match e {
                EventShape::PunkBidEntered { punk_index, value, from_address } => {
                    if punk_index.eq_value(target) {
                        let e = EventShape::PunkBidEntered { punk_index, value, from_address };
                        StepOutcome {
                            message: Some(render_event(&e)),
                            next: LoopState::Listening,
                        }
                    } else {
                        StepOutcome { message: None, next: LoopState::Stopped }
                    }
                },
                _ => StepOutcome { message: None, next: LoopState::Stopped },
            },
            None => StepOutcome { message: None, next: LoopState::Stopped },
        },
    }
}

/// The loop state after a delivery attempt: unchanged, whatever the
/// outcome was.
pub open spec fn spec_after_delivery(state: LoopState, delivered: bool) -> LoopState {
    state
}

/// Records a delivery outcome.  Failure is logged by the caller and
/// swallowed here: the state never changes.
pub fn after_delivery(state: LoopState, delivered: bool) -> (next: LoopState)
    ensures
        next == spec_after_delivery(state, delivered),
        next == state,
{
    state
}

/// A failed delivery leaves the loop exactly where a successful one
/// does: processing of later records never depends on the sink.
pub proof fn lemma_delivery_failure_harmless(state: LoopState, a: bool, b: bool)
    ensures
        spec_after_delivery(state, a) == spec_after_delivery(state, b),
        spec_after_delivery(state, a) == state,
{
}

/// In the single-identifier configuration the loop keeps listening
/// exactly on a bid-entered record for the configured identifier.
pub proof fn lemma_single_bid_filter(target: U256, topics: Seq<Seq<u8>>, data: Seq<u8>)
    ensures
        spec_step_state(WatchMode::SingleBid { punk_index: target }, topics, data)
            == LoopState::Listening <==> (spec_decode(topics, data) matches Some(
            EventModel::PunkBidEntered { punk_index: idx, value: _, from_address: _ },
        ) && idx == target.value()),
{
}

} // verus!
