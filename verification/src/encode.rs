//! The canonical wire encoding of each event shape, and the proof that
//! decoding inverts it: a correctly encoded record always decodes back
//! to the event it came from.

use vstd::prelude::*;
use vstd::arithmetic::div_mod::lemma_fundamental_div_mod;
use crate::{be_val, pow256};
use crate::events::{
    EventModel, word_val, sel_assign, sel_transfer, sel_punk_transfer,
    sel_punk_offered, sel_punk_bid_entered, sel_punk_bid_withdrawn, sel_punk_bought,
    sel_punk_no_longer_for_sale, lemma_selectors_distinct,
};
use crate::decode::{
    addr_in_topic, spec_decode, matches_assign, matches_transfer, matches_punk_transfer,
    matches_punk_offered, matches_punk_bid_entered, matches_punk_bid_withdrawn,
    matches_punk_bought, matches_punk_no_longer_for_sale,
};

verus! {

/// The `len`-byte big-endian encoding of `n`.
pub open spec fn be_bytes(n: nat, len: nat) -> Seq<u8>
    decreases len,
{
    if len == 0 {
        Seq::empty()
    } else {
        be_bytes(n / 256, (len - 1) as nat).push((n % 256) as u8)
    }
}

pub proof fn lemma_be_bytes_len(n: nat, len: nat)
    ensures
        be_bytes(n, len).len() == len,
    decreases len,
{
    if len > 0 {
        lemma_be_bytes_len(n / 256, (len - 1) as nat);
    }
}

/// Reading back the encoding of a value below `256^len` gives the value.
pub proof fn lemma_be_val_of_be_bytes(n: nat, len: nat)
    requires
        n < pow256(len),
    ensures
        be_val(be_bytes(n, len)) == n,
    decreases len,
{
    if len == 0 {
    } else {
        lemma_fundamental_div_mod(n as int, 256);
        assert(n / 256 < pow256((len - 1) as nat));
        lemma_be_val_of_be_bytes(n / 256, (len - 1) as nat);
        lemma_be_bytes_len(n / 256, (len - 1) as nat);
        assert(be_bytes(n, len).drop_last() =~= be_bytes(n / 256, (len - 1) as nat));
        assert(be_bytes(n, len).last() == (n % 256) as u8);
    }
}

/// A 32-byte topic carrying an address: twelve zero bytes, then the
/// twenty address bytes.
pub open spec fn addr_topic(a: Seq<u8>) -> Seq<u8> {
    Seq::new(12, |i: int| 0u8) + a
}

/// A well-formed model: addresses of twenty bytes, numbers within 256
/// bits.
pub open spec fn wf_model(e: EventModel) -> bool {
    match e {
        EventModel::Assign { to, punk_index } => to.len() == 20 && punk_index < pow256(32),
        EventModel::Transfer { from, to, value } => from.len() == 20 && to.len() == 20 && value
            < pow256(32),
        EventModel::PunkTransfer { from, to, punk_index } => from.len() == 20 && to.len() == 20
            && punk_index < pow256(32),
        EventModel::PunkOffered { punk_index, min_value, to_address } => to_address.len() == 20
            && punk_index < pow256(32) && min_value < pow256(32),
        EventModel::PunkBidEntered { punk_index, value, from_address } => from_address.len() == 20
            && punk_index < pow256(32) && value < pow256(32),
        EventModel::PunkBidWithdrawn { punk_index, value, from_address } => from_address.len()
            == 20 && punk_index < pow256(32) && value < pow256(32),
        EventModel::PunkBought { punk_index, value, from_address, to_address } =>
            from_address.len() == 20 && to_address.len() == 20 && punk_index < pow256(32) && value
            < pow256(32),
        EventModel::PunkNoLongerForSale { punk_index } => punk_index < pow256(32),
    }
}

/// The topics of the canonical encoding of an event.
pub open spec fn encode_topics(e: EventModel) -> Seq<Seq<u8>> {
    match e {
        EventModel::Assign { to, punk_index } => seq![be_bytes(sel_assign(), 32), addr_topic(to)],
        EventModel::Transfer { from, to, value } => seq![
            be_bytes(sel_transfer(), 32),
            addr_topic(from),
            addr_topic(to),
        ],
        EventModel::PunkTransfer { from, to, punk_index } => seq![
            be_bytes(sel_punk_transfer(), 32),
            addr_topic(from),
            addr_topic(to),
        ],
        EventModel::PunkOffered { punk_index, min_value, to_address } => seq![
            be_bytes(sel_punk_offered(), 32),
            be_bytes(punk_index, 32),
            addr_topic(to_address),
        ],
        EventModel::PunkBidEntered { punk_index, value, from_address } => seq![
            be_bytes(sel_punk_bid_entered(), 32),
            be_bytes(punk_index, 32),
            addr_topic(from_address),
        ],
        EventModel::PunkBidWithdrawn { punk_index, value, from_address } => seq![
            be_bytes(sel_punk_bid_withdrawn(), 32),
            be_bytes(punk_index, 32),
            addr_topic(from_address),
        ],
        EventModel::PunkBought { punk_index, value, from_address, to_address } => seq![
            be_bytes(sel_punk_bought(), 32),
            be_bytes(punk_index, 32),
            addr_topic(from_address),
            addr_topic(to_address),
        ],
        EventModel::PunkNoLongerForSale { punk_index } => seq![
            be_bytes(sel_punk_no_longer_for_sale(), 32),
            be_bytes(punk_index, 32),
        ],
    }
}

/// The data payload of the canonical encoding: the non-indexed field,
/// or empty where the shape has none.
pub open spec fn encode_data(e: EventModel) -> Seq<u8> {
    match e {
        EventModel::Assign { to, punk_index } => be_bytes(punk_index, 32),
        EventModel::Transfer { from, to, value } => be_bytes(value, 32),
        EventModel::PunkTransfer { from, to, punk_index } => be_bytes(punk_index, 32),
        EventModel::PunkOffered { punk_index, min_value, to_address } => be_bytes(min_value, 32),
        EventModel::PunkBidEntered { punk_index, value, from_address } => be_bytes(value, 32),
        EventModel::PunkBidWithdrawn { punk_index, value, from_address } => be_bytes(value, 32),
        EventModel::PunkBought { punk_index, value, from_address, to_address } => be_bytes(
            value,
            32,
        ),
        EventModel::PunkNoLongerForSale { punk_index } => Seq::empty(),
    }
}

/// Any 256-bit word given by four limbs is below `256^32`.
pub proof fn lemma_word_val_bound(w3: u64, w2: u64, w1: u64, w0: u64)
    ensures
        word_val(w3, w2, w1, w0) < pow256(32),
{
    reveal_with_fuel(pow256, 33);
    assert(pow256(32)
        == 0x1_0000_0000_0000_0000_0000_0000_0000_0000_0000_0000_0000_0000_0000_0000_0000_0000);
    assert(((w3 * 0x1_0000_0000_0000_0000 + w2) * 0x1_0000_0000_0000_0000 + w1)
        * 0x1_0000_0000_0000_0000 + w0
        < 0x1_0000_0000_0000_0000_0000_0000_0000_0000_0000_0000_0000_0000_0000_0000_0000_0000)
        by (nonlinear_arith)
        requires
            w3 < 0x1_0000_0000_0000_0000,
            w2 < 0x1_0000_0000_0000_0000,
            w1 < 0x1_0000_0000_0000_0000,
            w0 < 0x1_0000_0000_0000_0000,
    ;
}

/// The eight selectors all fit in 32 bytes.
pub proof fn lemma_selectors_bounded()
    ensures
        sel_assign() < pow256(32),
        sel_transfer() < pow256(32),
        sel_punk_transfer() < pow256(32),
        sel_punk_offered() < pow256(32),
        sel_punk_bid_entered() < pow256(32),
        sel_punk_bid_withdrawn() < pow256(32),
        sel_punk_bought() < pow256(32),
        sel_punk_no_longer_for_sale() < pow256(32),
{
    assert forall|w3: u64, w2: u64, w1: u64, w0: u64| word_val(w3, w2, w1, w0) < pow256(
        32,
    ) by {
        lemma_word_val_bound(w3, w2, w1, w0);
    }
}

/// Round trip: a correctly encoded record for any shape decodes back to
/// exactly that shape, fields intact.
pub proof fn lemma_encode_decode(e: EventModel)
    requires
        wf_model(e),
    ensures
        spec_decode(encode_topics(e), encode_data(e)) == Some(e),
{
    lemma_selectors_distinct();
    lemma_selectors_bounded();
    let topics = encode_topics(e);
    let data = encode_data(e);
    match e {
        EventModel::Assign { to, punk_index } => {
            lemma_be_bytes_len(sel_assign(), 32);
            lemma_be_val_of_be_bytes(sel_assign(), 32);
            lemma_be_bytes_len(punk_index, 32);
            lemma_be_val_of_be_bytes(punk_index, 32);
            assert(addr_topic(to).len() == 32);
            assert(matches_assign(topics, data));
            assert(addr_in_topic(topics[1]) =~= to);
        },
        EventModel::Transfer { from, to, value } => {
            lemma_be_bytes_len(sel_transfer(), 32);
            lemma_be_val_of_be_bytes(sel_transfer(), 32);
            lemma_be_bytes_len(value, 32);
            lemma_be_val_of_be_bytes(value, 32);
            assert(addr_topic(from).len() == 32);
            assert(addr_topic(to).len() == 32);
            assert(!matches_assign(topics, data));
            assert(matches_transfer(topics, data));
            assert(addr_in_topic(topics[1]) =~= from);
            assert(addr_in_topic(topics[2]) =~= to);
        },
        EventModel::PunkTransfer { from, to, punk_index } => {
            lemma_be_bytes_len(sel_punk_transfer(), 32);
            lemma_be_val_of_be_bytes(sel_punk_transfer(), 32);
            lemma_be_bytes_len(punk_index, 32);
            lemma_be_val_of_be_bytes(punk_index, 32);
            assert(addr_topic(from).len() == 32);
            assert(addr_topic(to).len() == 32);
            assert(!matches_assign(topics, data));
            assert(!matches_transfer(topics, data));
            assert(matches_punk_transfer(topics, data));
            assert(addr_in_topic(topics[1]) =~= from);
            assert(addr_in_topic(topics[2]) =~= to);
        },
        EventModel::PunkOffered { punk_index, min_value, to_address } => {
            lemma_be_bytes_len(sel_punk_offered(), 32);
            lemma_be_val_of_be_bytes(sel_punk_offered(), 32);
            lemma_be_bytes_len(punk_index, 32);
            lemma_be_val_of_be_bytes(punk_index, 32);
            lemma_be_bytes_len(min_value, 32);
            lemma_be_val_of_be_bytes(min_value, 32);
            assert(addr_topic(to_address).len() == 32);
            assert(!matches_assign(topics, data));
            assert(!matches_transfer(topics, data));
            assert(!matches_punk_transfer(topics, data));
            assert(matches_punk_offered(topics, data));
            assert(addr_in_topic(topics[2]) =~= to_address);
        },
        EventModel::PunkBidEntered { punk_index, value, from_address } => {
            lemma_be_bytes_len(sel_punk_bid_entered(), 32);
            lemma_be_val_of_be_bytes(sel_punk_bid_entered(), 32);
            lemma_be_bytes_len(punk_index, 32);
            lemma_be_val_of_be_bytes(punk_index, 32);
            lemma_be_bytes_len(value, 32);
            lemma_be_val_of_be_bytes(value, 32);
            assert(addr_topic(from_address).len() == 32);
            assert(!matches_assign(topics, data));
            assert(!matches_transfer(topics, data));
            assert(!matches_punk_transfer(topics, data));
            assert(!matches_punk_offered(topics, data));
            assert(matches_punk_bid_entered(topics, data));
            assert(addr_in_topic(topics[2]) =~= from_address);
        },
        EventModel::PunkBidWithdrawn { punk_index, value, from_address } => {
            lemma_be_bytes_len(sel_punk_bid_withdrawn(), 32);
            lemma_be_val_of_be_bytes(sel_punk_bid_withdrawn(), 32);
            lemma_be_bytes_len(punk_index, 32);
            lemma_be_val_of_be_bytes(punk_index, 32);
            lemma_be_bytes_len(value, 32);
            lemma_be_val_of_be_bytes(value, 32);
            assert(addr_topic(from_address).len() == 32);
            assert(!matches_assign(topics, data));
            assert(!matches_transfer(topics, data));
            assert(!matches_punk_transfer(topics, data));
            assert(!matches_punk_offered(topics, data));
            assert(!matches_punk_bid_entered(topics, data));
            assert(matches_punk_bid_withdrawn(topics, data));
            assert(addr_in_topic(topics[2]) =~= from_address);
        },
        EventModel::PunkBought { punk_index, value, from_address, to_address } => {
            lemma_be_bytes_len(sel_punk_bought(), 32);
            lemma_be_val_of_be_bytes(sel_punk_bought(), 32);
            lemma_be_bytes_len(punk_index, 32);
            lemma_be_val_of_be_bytes(punk_index, 32);
            lemma_be_bytes_len(value, 32);
            lemma_be_val_of_be_bytes(value, 32);
            assert(addr_topic(from_address).len() == 32);
            assert(addr_topic(to_address).len() == 32);
            assert(!matches_assign(topics, data));
            assert(!matches_transfer(topics, data));
            assert(!matches_punk_transfer(topics, data));
            assert(!matches_punk_offered(topics, data));
            assert(!matches_punk_bid_entered(topics, data));
            assert(!matches_punk_bid_withdrawn(topics, data));
            assert(matches_punk_bought(topics, data));
            assert(addr_in_topic(topics[2]) =~= from_address);
            assert(addr_in_topic(topics[3]) =~= to_address);
        },
        EventModel::PunkNoLongerForSale { punk_index } => {
            lemma_be_bytes_len(sel_punk_no_longer_for_sale(), 32);
            lemma_be_val_of_be_bytes(sel_punk_no_longer_for_sale(), 32);
            lemma_be_bytes_len(punk_index, 32);
            lemma_be_val_of_be_bytes(punk_index, 32);
            assert(!matches_assign(topics, data));
            assert(!matches_transfer(topics, data));
            assert(!matches_punk_transfer(topics, data));
            assert(!matches_punk_offered(topics, data));
            assert(!matches_punk_bid_entered(topics, data));
            assert(!matches_punk_bid_withdrawn(topics, data));
            assert(!matches_punk_bought(topics, data));
            assert(matches_punk_no_longer_for_sale(topics, data));
        },
    }
}

/// The message produced for a correctly encoded record is the encoded
/// event's own message: same input, same text, every field embedded.
pub proof fn lemma_encoded_record_message(e: EventModel)
    requires
        wf_model(e),
    ensures
        crate::render::spec_record_message(encode_topics(e), encode_data(e))
            == crate::render::spec_message(e),
{
    lemma_encode_decode(e);
}

} // verus!
