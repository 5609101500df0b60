//! Decoding a raw log record into an event shape.
//!
//! Dispatch is keyed on the leading topic (the selector).  The match
//! predicates are tried in the fixed declaration order of the shapes,
//! and the first match wins; a record matching none yields `None`.

use vstd::prelude::*;
use crate::{be_val, pow256, lemma_be_val_append};
use crate::u256::U256;
use crate::events::{
    Address, EventModel, EventShape, RawLogRecord, sel_assign, sel_assign_word, sel_transfer,
    sel_transfer_word, sel_punk_transfer, sel_punk_transfer_word, sel_punk_offered,
    sel_punk_offered_word, sel_punk_bid_entered, sel_punk_bid_entered_word,
    sel_punk_bid_withdrawn, sel_punk_bid_withdrawn_word, sel_punk_bought, sel_punk_bought_word,
    sel_punk_no_longer_for_sale, sel_punk_no_longer_for_sale_word, lemma_selectors_distinct,
};

verus! {

/// The address carried in a 32-byte topic: its low 20 bytes.
pub open spec fn addr_in_topic(t: Seq<u8>) -> Seq<u8> {
    t.subrange(12, 32)
}

/// A record has a readable selector: at least one topic, 32 bytes long.
pub open spec fn has_selector(topics: Seq<Seq<u8>>) -> bool {
    topics.len() >= 1 && topics[0].len() == 32
}

pub open spec fn matches_assign(topics: Seq<Seq<u8>>, data: Seq<u8>) -> bool {
    has_selector(topics) && be_val(topics[0]) == sel_assign() && topics.len() == 2
        && topics[1].len() == 32 && data.len() == 32
}

pub open spec fn matches_transfer(topics: Seq<Seq<u8>>, data: Seq<u8>) -> bool {
    has_selector(topics) && be_val(topics[0]) == sel_transfer() && topics.len() == 3
        && topics[1].len() == 32 && topics[2].len() == 32 && data.len() == 32
}

pub open spec fn matches_punk_transfer(topics: Seq<Seq<u8>>, data: Seq<u8>) -> bool {
    has_selector(topics) && be_val(topics[0]) == sel_punk_transfer() && topics.len() == 3
        && topics[1].len() == 32 && topics[2].len() == 32 && data.len() == 32
}

pub open spec fn matches_punk_offered(topics: Seq<Seq<u8>>, data: Seq<u8>) -> bool {
    has_selector(topics) && be_val(topics[0]) == sel_punk_offered() && topics.len() == 3
        && topics[1].len() == 32 && topics[2].len() == 32 && data.len() == 32
}

pub open spec fn matches_punk_bid_entered(topics: Seq<Seq<u8>>, data: Seq<u8>) -> bool {
    has_selector(topics) && be_val(topics[0]) == sel_punk_bid_entered() && topics.len() == 3
        && topics[1].len() == 32 && topics[2].len() == 32 && data.len() == 32
}

pub open spec fn matches_punk_bid_withdrawn(topics: Seq<Seq<u8>>, data: Seq<u8>) -> bool {
    has_selector(topics) && be_val(topics[0]) == sel_punk_bid_withdrawn() && topics.len() == 3
        && topics[1].len() == 32 && topics[2].len() == 32 && data.len() == 32
}

pub open spec fn matches_punk_bought(topics: Seq<Seq<u8>>, data: Seq<u8>) -> bool {
    has_selector(topics) && be_val(topics[0]) == sel_punk_bought() && topics.len() == 4
        && topics[1].len() == 32 && topics[2].len() == 32 && topics[3].len() == 32 && data.len()
        == 32
}

pub open spec fn matches_punk_no_longer_for_sale(topics: Seq<Seq<u8>>, data: Seq<u8>) -> bool {
    has_selector(topics) && be_val(topics[0]) == sel_punk_no_longer_for_sale() && topics.len() == 2
        && topics[1].len() == 32 && data.len() == 0
}

/// The decoded model of a record, or `None` for an unrecognized record.
/// The shapes are tried in declaration order and the first match wins.
pub open spec fn spec_decode(topics: Seq<Seq<u8>>, data: Seq<u8>) -> Option<EventModel> {
    if matches_assign(topics, data) {
        Some(
            EventModel::Assign { to: addr_in_topic(topics[1]), punk_index: be_val(data) },
        )
    } else if matches_transfer(topics, data) {
        Some(
            EventModel::Transfer {
                from: addr_in_topic(topics[1]),
                to: addr_in_topic(topics[2]),
                value: be_val(data),
            },
        )
    } else if matches_punk_transfer(topics, data) {
        Some(
            EventModel::PunkTransfer {
                from: addr_in_topic(topics[1]),
                to: addr_in_topic(topics[2]),
                punk_index: be_val(data),
            },
        )
    } else if matches_punk_offered(topics, data) {
        Some(
            EventModel::PunkOffered {
                punk_index: be_val(topics[1]),
                min_value: be_val(data),
                to_address: addr_in_topic(topics[2]),
            },
        )
    } else if matches_punk_bid_entered(topics, data) {
        Some(
            EventModel::PunkBidEntered {
                punk_index: be_val(topics[1]),
                value: be_val(data),
                from_address: addr_in_topic(topics[2]),
            },
        )
    } else if matches_punk_bid_withdrawn(topics, data) {
        Some(
            EventModel::PunkBidWithdrawn {
                punk_index: be_val(topics[1]),
                value: be_val(data),
                from_address: addr_in_topic(topics[2]),
            },
        )
    } else if matches_punk_bought(topics, data) {
        Some(
            EventModel::PunkBought {
                punk_index: be_val(topics[1]),
                value: be_val(data),
                from_address: addr_in_topic(topics[2]),
                to_address: addr_in_topic(topics[3]),
            },
        )
    } else if matches_punk_no_longer_for_sale(topics, data) {
        Some(EventModel::PunkNoLongerForSale { punk_index: be_val(topics[1]) })
    } else {
        None
    }
}

/// Eight bytes of `v` starting at `off`, read big-endian.
fn u64_from_be(v: &Vec<u8>, off: usize) -> (r: u64)
    requires
        off + 8 <= v@.len(),
    ensures
        r as nat == be_val(v@.subrange(off as int, off as int + 8)),
{
    let ghost o: int = off as int;
    let n: usize = v.len();
    let mut acc: u64 = v[off] as u64;
    acc = acc * 256 + v[off + 1] as u64;
    acc = acc * 256 + v[off + 2] as u64;
    acc = acc * 256 + v[off + 3] as u64;
    acc = acc * 256 + v[off + 4] as u64;
    acc = acc * 256 + v[off + 5] as u64;
    acc = acc * 256 + v[off + 6] as u64;
    acc = acc * 256 + v[off + 7] as u64;
    proof {
        reveal_with_fuel(be_val, 9);
        assert(v@.subrange(o, o + 8).drop_last() =~= v@.subrange(o, o + 7));
        assert(v@.subrange(o, o + 7).drop_last() =~= v@.subrange(o, o + 6));
        assert(v@.subrange(o, o + 6).drop_last() =~= v@.subrange(o, o + 5));
        assert(v@.subrange(o, o + 5).drop_last() =~= v@.subrange(o, o + 4));
        assert(v@.subrange(o, o + 4).drop_last() =~= v@.subrange(o, o + 3));
        assert(v@.subrange(o, o + 3).drop_last() =~= v@.subrange(o, o + 2));
        assert(v@.subrange(o, o + 2).drop_last() =~= v@.subrange(o, o + 1));
        assert(v@.subrange(o, o + 1).drop_last() =~= v@.subrange(o, o));
        assert(v@.subrange(o, o).len() == 0);
    }
    acc
}

/// A 32-byte word of `v`, read big-endian into four limbs.
pub fn u256_from_be(v: &Vec<u8>) -> (r: U256)
    requires
        v@.len() == 32,
    ensures
        r.value() == be_val(v@),
{
    let w3: u64 = u64_from_be(v, 0);
    let w2: u64 = u64_from_be(v, 8);
    let w1: u64 = u64_from_be(v, 16);
    let w0: u64 = u64_from_be(v, 24);
    let r = U256 { w0, w1, w2, w3 };
    proof {
        let c3 = v@.subrange(0, 8);
        let c2 = v@.subrange(8, 16);
        let c1 = v@.subrange(16, 24);
        let c0 = v@.subrange(24, 32);
        assert(v@ =~= c3 + (c2 + (c1 + c0)));
        lemma_be_val_append(c3, c2 + (c1 + c0));
        lemma_be_val_append(c2, c1 + c0);
        lemma_be_val_append(c1, c0);
        assert((c2 + (c1 + c0)).len() == 24);
        assert((c1 + c0).len() == 16);
        reveal_with_fuel(pow256, 25);
        assert(pow256(8) == 0x1_0000_0000_0000_0000);
        assert(pow256(16) == 0x1_0000_0000_0000_0000_0000_0000_0000_0000);
        assert(pow256(24)
            == 0x1_0000_0000_0000_0000_0000_0000_0000_0000_0000_0000_0000_0000);
        assert(r.value() == be_val(v@)) by (nonlinear_arith)
            requires
                be_val(v@) == be_val(c3) * pow256(24) + (be_val(c2) * pow256(16) + (be_val(c1)
                    * pow256(8) + be_val(c0))),
                pow256(8) == 0x1_0000_0000_0000_0000,
                pow256(16) == 0x1_0000_0000_0000_0000_0000_0000_0000_0000,
                pow256(24) == 0x1_0000_0000_0000_0000_0000_0000_0000_0000_0000_0000_0000_0000,
                w3 == be_val(c3),
                w2 == be_val(c2),
                w1 == be_val(c1),
                w0 == be_val(c0),
                r.value() == ((w3 * 0x1_0000_0000_0000_0000 + w2) * 0x1_0000_0000_0000_0000 + w1)
                    * 0x1_0000_0000_0000_0000 + w0,
        ;
    }
    r
}

/// The low 20 bytes of a 32-byte topic, as an address.
pub fn addr_from_topic(t: &Vec<u8>) -> (r: Address)
    requires
        t@.len() == 32,
    ensures
        r.wf(),
        r@ == addr_in_topic(t@),
{
    let mut bytes: Vec<u8> = Vec::new();
    let mut i: usize = 12;
    while i < 32
        invariant
            12 <= i <= 32,
            t@.len() == 32,
            bytes@ =~= t@.subrange(12, i as int),
        decreases 32 - i,
    {
        bytes.push(t[i]);
        proof {
            assert(bytes@ =~= t@.subrange(12, i as int + 1));
        }
        i = i + 1;
    }
    proof {
        assert(t@.subrange(12, 32) =~= addr_in_topic(t@));
    }
    Address { bytes }
}

/// Decodes a record into the first matching shape, or `None` when the
/// record is unrecognized.
pub fn decode_event(r: &RawLogRecord) -> (res: Option<EventShape>)
    ensures
        match res {
            Some(e) => e.wf() && Some(e@) == spec_decode(r.topics_model(), r.data@),
            None => spec_decode(r.topics_model(), r.data@) is None,
        },
{
    proof {
        lemma_selectors_distinct();
    }
    if r.topics.len() == 0 {
        return None;
    }
    let t0: &Vec<u8> = &r.topics[0];
    proof {
        assert(r.topics_model()[0] == t0@);
    }
    if t0.len() != 32 {
        return None;
    }
    let sel = u256_from_be(t0);
    let two_topics: bool = r.topics.len() == 2;
    let three_topics: bool = r.topics.len() == 3;
    let four_topics: bool = r.topics.len() == 4;
    if sel.eq_value(&sel_assign_word()) {
        if two_topics && r.topics[1].len() == 32 && r.data.len() == 32 {
            proof {
                assert(r.topics_model()[1] == r.topics@[1]@);
            }
            let to = addr_from_topic(&r.topics[1]);
            let punk_index = u256_from_be(&r.data);
            Some(EventShape::Assign { to, punk_index })
        } else {
            None
        }
    } else if sel.eq_value(&sel_transfer_word()) {
        if three_topics && r.topics[1].len() == 32 && r.topics[2].len() == 32 && r.data.len()
            == 32 {
            proof {
                assert(r.topics_model()[1] == r.topics@[1]@);
                assert(r.topics_model()[2] == r.topics@[2]@);
            }
            let from = addr_from_topic(&r.topics[1]);
            let to = addr_from_topic(&r.topics[2]);
            let value = u256_from_be(&r.data);
            Some(EventShape::Transfer { from, to, value })
        } else {
            None
        }
    } else if sel.eq_value(&sel_punk_transfer_word()) {
        if three_topics && r.topics[1].len() == 32 && r.topics[2].len() == 32 && r.data.len()
            == 32 {
            proof {
                assert(r.topics_model()[1] == r.topics@[1]@);
                assert(r.topics_model()[2] == r.topics@[2]@);
            }
            let from = addr_from_topic(&r.topics[1]);
            let to = addr_from_topic(&r.topics[2]);
            let punk_index = u256_from_be(&r.data);
            Some(EventShape::PunkTransfer { from, to, punk_index })
        } else {
            None
        }
    } else if sel.eq_value(&sel_punk_offered_word()) {
        if three_topics && r.topics[1].len() == 32 && r.topics[2].len() == 32 && r.data.len()
            == 32 {
            proof {
                assert(r.topics_model()[1] == r.topics@[1]@);
                assert(r.topics_model()[2] == r.topics@[2]@);
            }
            let punk_index = u256_from_be(&r.topics[1]);
            let min_value = u256_from_be(&r.data);
            let to_address = addr_from_topic(&r.topics[2]);
            Some(EventShape::PunkOffered { punk_index, min_value, to_address })
        } else {
            None
        }
    } else if sel.eq_value(&sel_punk_bid_entered_word()) {
        if three_topics && r.topics[1].len() == 32 && r.topics[2].len() == 32 && r.data.len()
            == 32 {
            proof {
                assert(r.topics_model()[1] == r.topics@[1]@);
                assert(r.topics_model()[2] == r.topics@[2]@);
            }
            let punk_index = u256_from_be(&r.topics[1]);
            let value = u256_from_be(&r.data);
            let from_address = addr_from_topic(&r.topics[2]);
            Some(EventShape::PunkBidEntered { punk_index, value, from_address })
        } else {
            None
        }
    } else if sel.eq_value(&sel_punk_bid_withdrawn_word()) {
        if three_topics && r.topics[1].len() == 32 && r.topics[2].len() == 32 && r.data.len()
            == 32 {
            proof {
                assert(r.topics_model()[1] == r.topics@[1]@);
                assert(r.topics_model()[2] == r.topics@[2]@);
            }
            let punk_index = u256_from_be(&r.topics[1]);
            let value = u256_from_be(&r.data);
            let from_address = addr_from_topic(&r.topics[2]);
            Some(EventShape::PunkBidWithdrawn { punk_index, value, from_address })
        } else {
            None
        }
    } else if sel.eq_value(&sel_punk_bought_word()) {
        if four_topics && r.topics[1].len() == 32 && r.topics[2].len() == 32 && r.topics[3].len()
            == 32 && r.data.len() == 32 {
            proof {
                assert(r.topics_model()[1] == r.topics@[1]@);
                assert(r.topics_model()[2] == r.topics@[2]@);
                assert(r.topics_model()[3] == r.topics@[3]@);
            }
            let punk_index = u256_from_be(&r.topics[1]);
            let value = u256_from_be(&r.data);
            let from_address = addr_from_topic(&r.topics[2]);
            let to_address = addr_from_topic(&r.topics[3]);
            Some(EventShape::PunkBought { punk_index, value, from_address, to_address })
        } else {
            None
        }
    } else if sel.eq_value(&sel_punk_no_longer_for_sale_word()) {
        if two_topics && r.topics[1].len() == 32 && r.data.len() == 0 {
            proof {
                assert(r.topics_model()[1] == r.topics@[1]@);
            }
            let punk_index = u256_from_be(&r.topics[1]);
            Some(EventShape::PunkNoLongerForSale { punk_index })
        } else {
            None
        }
    } else {
        None
    }
}

/// A record whose leading topic carries none of the eight selectors is
/// never decoded.
pub proof fn lemma_unknown_selector_unrecognized(topics: Seq<Seq<u8>>, data: Seq<u8>)
    requires
        has_selector(topics) ==> {
            let sel = be_val(topics[0]);
            sel != sel_assign() && sel != sel_transfer() && sel != sel_punk_transfer() && sel
                != sel_punk_offered() && sel != sel_punk_bid_entered() && sel
                != sel_punk_bid_withdrawn() && sel != sel_punk_bought() && sel
                != sel_punk_no_longer_for_sale()
        },
    ensures
        spec_decode(topics, data) is None,
{
}

/// At most one shape matches any record: the selectors are pairwise
/// distinct, so the first-match rule never discards a later match.
pub proof fn lemma_at_most_one_match(topics: Seq<Seq<u8>>, data: Seq<u8>)
    ensures
        matches_assign(topics, data) ==> !matches_transfer(topics, data)
            && !matches_punk_transfer(topics, data) && !matches_punk_offered(topics, data)
            && !matches_punk_bid_entered(topics, data) && !matches_punk_bid_withdrawn(topics, data)
            && !matches_punk_bought(topics, data) && !matches_punk_no_longer_for_sale(topics, data),
        matches_transfer(topics, data) ==> !matches_punk_transfer(topics, data)
            && !matches_punk_offered(topics, data) && !matches_punk_bid_entered(topics, data)
            && !matches_punk_bid_withdrawn(topics, data) && !matches_punk_bought(topics, data)
            && !matches_punk_no_longer_for_sale(topics, data),
        matches_punk_transfer(topics, data) ==> !matches_punk_offered(topics, data)
            && !matches_punk_bid_entered(topics, data) && !matches_punk_bid_withdrawn(topics, data)
            && !matches_punk_bought(topics, data) && !matches_punk_no_longer_for_sale(topics, data),
        matches_punk_offered(topics, data) ==> !matches_punk_bid_entered(topics, data)
            && !matches_punk_bid_withdrawn(topics, data) && !matches_punk_bought(topics, data)
            && !matches_punk_no_longer_for_sale(topics, data),
        matches_punk_bid_entered(topics, data) ==> !matches_punk_bid_withdrawn(topics, data)
            && !matches_punk_bought(topics, data) && !matches_punk_no_longer_for_sale(topics, data),
        matches_punk_bid_withdrawn(topics, data) ==> !matches_punk_bought(topics, data)
            && !matches_punk_no_longer_for_sale(topics, data),
        matches_punk_bought(topics, data) ==> !matches_punk_no_longer_for_sale(topics, data),
{
    lemma_selectors_distinct();
}

} // verus!
