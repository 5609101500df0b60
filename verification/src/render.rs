//! Rendering a decoded event (or an unrecognized record) as the exact
//! notification text.  Each renderer's output equals a spec-level
//! character sequence, so rendering is deterministic.

use vstd::prelude::*;
use vstd::string::StringExecFns;
use crate::events::{EventModel, EventShape, RawLogRecord};
use crate::format::{append_dec, append_hex, dec_rep, hex_rep};
use crate::decode::{decode_event, spec_decode};

verus! {

/// An address in canonical form: `0x` then forty lowercase hex digits.
pub open spec fn addr_rep(a: Seq<u8>) -> Seq<char> {
    "0x"@ + hex_rep(a)
}

/// The message text for each event shape.
pub open spec fn spec_message(e: EventModel) -> Seq<char> {
    match e {
        EventModel::Assign { to, punk_index } => "Assign: punk "@ + dec_rep(punk_index)
            + " assigned to "@ + addr_rep(to),
        EventModel::Transfer { from, to, value } => "Transfer: from "@ + addr_rep(from) + " to "@
            + addr_rep(to) + ", value: "@ + dec_rep(value),
        EventModel::PunkTransfer { from, to, punk_index } => "PunkTransfer: punk "@ + dec_rep(
            punk_index,
        ) + " transferred from "@ + addr_rep(from) + " to "@ + addr_rep(to),
        EventModel::PunkOffered { punk_index, min_value, to_address } => "PunkOffered: punk "@
            + dec_rep(punk_index) + " offered at minimum "@ + dec_rep(min_value) + " wei to "@
            + addr_rep(to_address),
        EventModel::PunkBidEntered { punk_index, value, from_address } => "PunkBidEntered: punk "@
            + dec_rep(punk_index) + " bid "@ + dec_rep(value) + " wei by "@ + addr_rep(
            from_address,
        ),
        EventModel::PunkBidWithdrawn { punk_index, value, from_address } =>
            "PunkBidWithdrawn: punk "@ + dec_rep(punk_index) + " bid withdrawn by "@ + addr_rep(
            from_address,
        ) + " for "@ + dec_rep(value) + " wei"@,
        EventModel::PunkBought { punk_index, value, from_address, to_address } =>
            "PunkBought: punk "@ + dec_rep(punk_index) + " bought for "@ + dec_rep(value)
            + " wei from "@ + addr_rep(from_address) + " to "@ + addr_rep(to_address),
        EventModel::PunkNoLongerForSale { punk_index } => "PunkNoLongerForSale: punk "@ + dec_rep(
            punk_index,
        ) + " is no longer for sale"@,
    }
}

/// The topics of a record rendered as a comma-separated hex list.
pub open spec fn topics_rep(ts: Seq<Seq<u8>>) -> Seq<char>
    decreases ts.len(),
{
    if ts.len() == 0 {
        Seq::empty()
    } else if ts.len() == 1 {
        "0x"@ + hex_rep(ts[0])
    } else {
        topics_rep(ts.drop_last()) + ", "@ + "0x"@ + hex_rep(ts.last())
    }
}

/// The diagnostic text for a record that matches no shape.
pub open spec fn spec_unknown_message(topics: Seq<Seq<u8>>, data: Seq<u8>) -> Seq<char> {
    "Unknown event: topics ["@ + topics_rep(topics) + "], data 0x"@ + hex_rep(data)
}

/// The text produced for a record: the decoded shape's message, or the
/// diagnostic text when nothing matches.
pub open spec fn spec_record_message(topics: Seq<Seq<u8>>, data: Seq<u8>) -> Seq<char> {
    match spec_decode(topics, data) {
        Some(e) => spec_message(e),
        None => spec_unknown_message(topics, data),
    }
}

/// Renders one decoded event.
pub fn render_event(e: &EventShape) -> (s: String)
    ensures
        s@ == spec_message(e@),
{
    let mut s = String::new();
    match e {
        EventShape::Assign { to, punk_index } => {
            s.append("Assign: punk ");
            append_dec(&mut s, punk_index);
            s.append(" assigned to ");
            s.append("0x");
            append_hex(&mut s, &to.bytes);
        },
        EventShape::Transfer { from, to, value } => {
            s.append("Transfer: from ");
            s.append("0x");
            append_hex(&mut s, &from.bytes);
            s.append(" to ");
            s.append("0x");
            append_hex(&mut s, &to.bytes);
            s.append(", value: ");
            append_dec(&mut s, value);
        },
        EventShape::PunkTransfer { from, to, punk_index } => {
            s.append("PunkTransfer: punk ");
            append_dec(&mut s, punk_index);
            s.append(" transferred from ");
            s.append("0x");
            append_hex(&mut s, &from.bytes);
            s.append(" to ");
            s.append("0x");
            append_hex(&mut s, &to.bytes);
        },
        EventShape::PunkOffered { punk_index, min_value, to_address } => {
            s.append("PunkOffered: punk ");
            append_dec(&mut s, punk_index);
            s.append(" offered at minimum ");
            append_dec(&mut s, min_value);
            s.append(" wei to ");
            s.append("0x");
            append_hex(&mut s, &to_address.bytes);
        },
        EventShape::PunkBidEntered { punk_index, value, from_address } => {
            s.append("PunkBidEntered: punk ");
            append_dec(&mut s, punk_index);
            s.append(" bid ");
            append_dec(&mut s, value);
            s.append(" wei by ");
            s.append("0x");
            append_hex(&mut s, &from_address.bytes);
        },
        EventShape::PunkBidWithdrawn { punk_index, value, from_address } => {
            s.append("PunkBidWithdrawn: punk ");
            append_dec(&mut s, punk_index);
            s.append(" bid withdrawn by ");
            s.append("0x");
            append_hex(&mut s, &from_address.bytes);
            s.append(" for ");
            append_dec(&mut s, value);
            s.append(" wei");
        },
        EventShape::PunkBought { punk_index, value, from_address, to_address } => {
            s.append("PunkBought: punk ");
            append_dec(&mut s, punk_index);
            s.append(" bought for ");
            append_dec(&mut s, value);
            s.append(" wei from ");
            s.append("0x");
            append_hex(&mut s, &from_address.bytes);
            s.append(" to ");
            s.append("0x");
            append_hex(&mut s, &to_address.bytes);
        },
        EventShape::PunkNoLongerForSale { punk_index } => {
            s.append("PunkNoLongerForSale: punk ");
            append_dec(&mut s, punk_index);
            s.append(" is no longer for sale");
        },
    }
    proof {
        assert(s@ =~= spec_message(e@));
    }
    s
}

/// Renders the diagnostic text for an unrecognized record.
pub fn render_unknown(r: &RawLogRecord) -> (s: String)
    ensures
        s@ == spec_unknown_message(r.topics_model(), r.data@),
{
    let mut s = String::new();
    s.append("Unknown event: topics [");
    let ghost prefix: Seq<char> = s@;
    let n: usize = r.topics.len();
    let mut i: usize = 0;
    while i < n
        invariant
            n == r.topics@.len(),
            i <= n,
            r.topics_model() == r.topics.deep_view(),
            s@ == prefix + topics_rep(r.topics_model().take(i as int)),
        decreases n - i,
    {
        if i > 0 {
            s.append(", ");
        }
        s.append("0x");
        append_hex(&mut s, &r.topics[i]);
        proof {
            let ts = r.topics_model();
            assert(ts[i as int] == r.topics@[i as int]@);
            assert(ts.take(i as int + 1).drop_last() =~= ts.take(i as int));
            assert(ts.take(i as int + 1).last() == ts[i as int]);
            assert(s@ =~= prefix + topics_rep(ts.take(i as int + 1)));
        }
        i = i + 1;
    }
    s.append("], data 0x");
    append_hex(&mut s, &r.data);
    proof {
        assert(r.topics_model().take(n as int) =~= r.topics_model());
        assert(s@ =~= spec_unknown_message(r.topics_model(), r.data@));
    }
    s
}

/// Decodes a record and renders its message.
pub fn record_message(r: &RawLogRecord) -> (s: String)
    ensures
        s@ == spec_record_message(r.topics_model(), r.data@),
{
    match decode_event(r) {
        Some(e) => render_event(&e),
        None => render_unknown(r),
    }
}

} // verus!
