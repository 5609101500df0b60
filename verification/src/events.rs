//! The closed set of marketplace event shapes, their spec-level models,
//! and the selector of each shape (the hash of its signature, carried as
//! the leading topic of a log record).

use vstd::prelude::*;
use crate::u256::{U256, limb_base};

verus! {

/// A 20-byte account address.
pub struct Address {
    pub bytes: Vec<u8>,
}

impl Address {
    pub open spec fn wf(&self) -> bool {
        self.bytes@.len() == 20
    }
}

impl View for Address {
    type V = Seq<u8>;

    open spec fn view(&self) -> Seq<u8> {
        self.bytes@
    }
}

/// One raw log entry: indexed topics (32 bytes each on the wire) and the
/// non-indexed data payload.
pub struct RawLogRecord {
    pub topics: Vec<Vec<u8>>,
    pub data: Vec<u8>,
}

impl RawLogRecord {
    pub open spec fn topics_model(&self) -> Seq<Seq<u8>> {
        self.topics.deep_view()
    }
}

/// A decoded event, fields typed as they appear in the contract's
/// signatures.
pub enum EventShape {
    Assign { to: Address, punk_index: U256 },
    Transfer { from: Address, to: Address, value: U256 },
    PunkTransfer { from: Address, to: Address, punk_index: U256 },
    PunkOffered { punk_index: U256, min_value: U256, to_address: Address },
    PunkBidEntered { punk_index: U256, value: U256, from_address: Address },
    PunkBidWithdrawn { punk_index: U256, value: U256, from_address: Address },
    PunkBought { punk_index: U256, value: U256, from_address: Address, to_address: Address },
    PunkNoLongerForSale { punk_index: U256 },
}

/// The mathematical shape of a decoded event: addresses as byte
/// sequences, amounts and identifiers as naturals.
pub enum EventModel {
    Assign { to: Seq<u8>, punk_index: nat },
    Transfer { from: Seq<u8>, to: Seq<u8>, value: nat },
    PunkTransfer { from: Seq<u8>, to: Seq<u8>, punk_index: nat },
    PunkOffered { punk_index: nat, min_value: nat, to_address: Seq<u8> },
    PunkBidEntered { punk_index: nat, value: nat, from_address: Seq<u8> },
    PunkBidWithdrawn { punk_index: nat, value: nat, from_address: Seq<u8> },
    PunkBought { punk_index: nat, value: nat, from_address: Seq<u8>, to_address: Seq<u8> },
    PunkNoLongerForSale { punk_index: nat },
}

impl EventShape {
    /// Every address field holds exactly 20 bytes.
    pub open spec fn wf(&self) -> bool {
        match self {
            EventShape::Assign { to, .. } => to.wf(),
            EventShape::Transfer { from, to, .. } => from.wf() && to.wf(),
            EventShape::PunkTransfer { from, to, .. } => from.wf() && to.wf(),
            EventShape::PunkOffered { to_address, .. } => to_address.wf(),
            EventShape::PunkBidEntered { from_address, .. } => from_address.wf(),
            EventShape::PunkBidWithdrawn { from_address, .. } => from_address.wf(),
            EventShape::PunkBought { from_address, to_address, .. } => from_address.wf()
                && to_address.wf(),
            EventShape::PunkNoLongerForSale { .. } => true,
        }
    }
}

impl View for EventShape {
    type V = EventModel;

    open spec fn view(&self) -> EventModel {
        match self {
            EventShape::Assign { to, punk_index } => EventModel::Assign {
                to: to@,
                punk_index: punk_index.value(),
            },
            EventShape::Transfer { from, to, value } => EventModel::Transfer {
                from: from@,
                to: to@,
                value: value.value(),
            },
            EventShape::PunkTransfer { from, to, punk_index } => EventModel::PunkTransfer {
                from: from@,
                to: to@,
                punk_index: punk_index.value(),
            },
            EventShape::PunkOffered { punk_index, min_value, to_address } => EventModel::PunkOffered {
                punk_index: punk_index.value(),
                min_value: min_value.value(),
                to_address: to_address@,
            },
            EventShape::PunkBidEntered { punk_index, value, from_address } => EventModel::PunkBidEntered {
                punk_index: punk_index.value(),
                value: value.value(),
                from_address: from_address@,
            },
            EventShape::PunkBidWithdrawn { punk_index, value, from_address } => EventModel::PunkBidWithdrawn {
                punk_index: punk_index.value(),
                value: value.value(),
                from_address: from_address@,
            },
            EventShape::PunkBought { punk_index, value, from_address, to_address } => EventModel::PunkBought {
                punk_index: punk_index.value(),
                value: value.value(),
                from_address: from_address@,
                to_address: to_address@,
            },
            EventShape::PunkNoLongerForSale { punk_index } => EventModel::PunkNoLongerForSale {
                punk_index: punk_index.value(),
            },
        }
    }
}

/// The value of a 256-bit word given as four 64-bit limbs, most
/// significant first.
pub open spec fn word_val(w3: u64, w2: u64, w1: u64, w0: u64) -> nat {
    (((w3 * limb_base() + w2) * limb_base() + w1) * limb_base() + w0) as nat
}

pub open spec fn sel_assign() -> nat {
    word_val(0x8a0e37b73a0d9c82, 0xe205d4d1a3ff3d0b, 0x57ce5f4d7bccf6ba, 0xc03336dc101cb7ba)
}

pub open spec fn sel_transfer() -> nat {
    word_val(0xddf252ad1be2c89b, 0x69c2b068fc378daa, 0x952ba7f163c4a116, 0x28f55a4df523b3ef)
}

pub open spec fn sel_punk_transfer() -> nat {
    word_val(0x05af636b70da6819, 0x000c49f85b21fa82, 0x081c632069bb626f, 0x30932034099107d8)
}

pub open spec fn sel_punk_offered() -> nat {
    word_val(0x3c7b682d5da98001, 0xa9b8cbda6c647d2c, 0x63d698a4184fd1d5, 0x5e2ce7b66f5d21eb)
}

pub open spec fn sel_punk_bid_entered() -> nat {
    word_val(0x5b859394fabae0c1, 0xba88baffe67e751a, 0xb5248d2e879028b8, 0xc8d6897b0519f56a)
}

pub open spec fn sel_punk_bid_withdrawn() -> nat {
    word_val(0x6f30e1ee4d81dcc7, 0xa8a478577f65d2ed, 0x2edb120565960ac4, 0x5fe7c50551c87932)
}

pub open spec fn sel_punk_bought() -> nat {
    word_val(0x58e5d5a525e3b40b, 0xc15abaa38b588267, 0x8db1ee68befd2f60, 0xbafe3a7fd06db9e3)
}

pub open spec fn sel_punk_no_longer_for_sale() -> nat {
    word_val(0xb0e0a660b4e50f26, 0xf0b7ce75c24655fc, 0x76cc66e3334a54ff, 0x410277229fa10bd4)
}

pub fn sel_assign_word() -> (r: U256)
    ensures
        r.value() == sel_assign(),
{
    U256 { w3: 0x8a0e37b73a0d9c82, w2: 0xe205d4d1a3ff3d0b, w1: 0x57ce5f4d7bccf6ba, w0: 0xc03336dc101cb7ba }
}

pub fn sel_transfer_word() -> (r: U256)
    ensures
        r.value() == sel_transfer(),
{
    U256 { w3: 0xddf252ad1be2c89b, w2: 0x69c2b068fc378daa, w1: 0x952ba7f163c4a116, w0: 0x28f55a4df523b3ef }
}

pub fn sel_punk_transfer_word() -> (r: U256)
    ensures
        r.value() == sel_punk_transfer(),
{
    U256 { w3: 0x05af636b70da6819, w2: 0x000c49f85b21fa82, w1: 0x081c632069bb626f, w0: 0x30932034099107d8 }
}

pub fn sel_punk_offered_word() -> (r: U256)
    ensures
        r.value() == sel_punk_offered(),
{
    U256 { w3: 0x3c7b682d5da98001, w2: 0xa9b8cbda6c647d2c, w1: 0x63d698a4184fd1d5, w0: 0x5e2ce7b66f5d21eb }
}

pub fn sel_punk_bid_entered_word() -> (r: U256)
    ensures
        r.value() == sel_punk_bid_entered(),
{
    U256 { w3: 0x5b859394fabae0c1, w2: 0xba88baffe67e751a, w1: 0xb5248d2e879028b8, w0: 0xc8d6897b0519f56a }
}

pub fn sel_punk_bid_withdrawn_word() -> (r: U256)
    ensures
        r.value() == sel_punk_bid_withdrawn(),
{
    U256 { w3: 0x6f30e1ee4d81dcc7, w2: 0xa8a478577f65d2ed, w1: 0x2edb120565960ac4, w0: 0x5fe7c50551c87932 }
}

pub fn sel_punk_bought_word() -> (r: U256)
    ensures
        r.value() == sel_punk_bought(),
{
    U256 { w3: 0x58e5d5a525e3b40b, w2: 0xc15abaa38b588267, w1: 0x8db1ee68befd2f60, w0: 0xbafe3a7fd06db9e3 }
}

pub fn sel_punk_no_longer_for_sale_word() -> (r: U256)
    ensures
        r.value() == sel_punk_no_longer_for_sale(),
{
    U256 { w3: 0xb0e0a660b4e50f26, w2: 0xf0b7ce75c24655fc, w1: 0x76cc66e3334a54ff, w0: 0x410277229fa10bd4 }
}

/// Two words with equal values have equal limbs.
pub proof fn lemma_word_val_injective(
    a3: u64,
    a2: u64,
    a1: u64,
    a0: u64,
    b3: u64,
    b2: u64,
    b1: u64,
    b0: u64,
)
    ensures
        word_val(a3, a2, a1, a0) == word_val(b3, b2, b1, b0) ==> (a3 == b3 && a2 == b2 && a1 == b1
            && a0 == b0),
{
    crate::u256::lemma_value_injective(
        U256 { w0: a0, w1: a1, w2: a2, w3: a3 },
        U256 { w0: b0, w1: b1, w2: b2, w3: b3 },
    );
}

/// The eight selectors are pairwise distinct.
pub proof fn lemma_selectors_distinct()
    ensures
        sel_assign() != sel_transfer(),
        sel_assign() != sel_punk_transfer(),
        sel_assign() != sel_punk_offered(),
        sel_assign() != sel_punk_bid_entered(),
        sel_assign() != sel_punk_bid_withdrawn(),
        sel_assign() != sel_punk_bought(),
        sel_assign() != sel_punk_no_longer_for_sale(),
        sel_transfer() != sel_punk_transfer(),
        sel_transfer() != sel_punk_offered(),
        sel_transfer() != sel_punk_bid_entered(),
        sel_transfer() != sel_punk_bid_withdrawn(),
        sel_transfer() != sel_punk_bought(),
        sel_transfer() != sel_punk_no_longer_for_sale(),
        sel_punk_transfer() != sel_punk_offered(),
        sel_punk_transfer() != sel_punk_bid_entered(),
        sel_punk_transfer() != sel_punk_bid_withdrawn(),
        sel_punk_transfer() != sel_punk_bought(),
        sel_punk_transfer() != sel_punk_no_longer_for_sale(),
        sel_punk_offered() != sel_punk_bid_entered(),
        sel_punk_offered() != sel_punk_bid_withdrawn(),
        sel_punk_offered() != sel_punk_bought(),
        sel_punk_offered() != sel_punk_no_longer_for_sale(),
        sel_punk_bid_entered() != sel_punk_bid_withdrawn(),
        sel_punk_bid_entered() != sel_punk_bought(),
        sel_punk_bid_entered() != sel_punk_no_longer_for_sale(),
        sel_punk_bid_withdrawn() != sel_punk_bought(),
        sel_punk_bid_withdrawn() != sel_punk_no_longer_for_sale(),
        sel_punk_bought() != sel_punk_no_longer_for_sale(),
{
    assert forall|a3: u64, a2: u64, a1: u64, a0: u64, b3: u64, b2: u64, b1: u64, b0: u64|
        word_val(a3, a2, a1, a0) == word_val(b3, b2, b1, b0) implies (a3 == b3 && a2 == b2 && a1
        == b1 && a0 == b0) by {
        lemma_word_val_injective(a3, a2, a1, a0, b3, b2, b1, b0);
    }
}

} // verus!
