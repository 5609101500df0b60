//! Watcher library for a fixed marketplace contract's event stream.
//!
//! A raw log record (topics plus data bytes) is decoded into one of a
//! closed set of event shapes, rendered as a text message, and wrapped
//! into a JSON notification payload.  A small state machine decides,
//! per record, whether the watch loop keeps listening or stops.

use vstd::prelude::*;

pub mod decode;
pub mod encode;
pub mod events;
pub mod format;
pub mod payload;
pub mod render;
pub mod u256;
pub mod watch;

verus! {

/// The value of a byte sequence read as a big-endian unsigned integer.
pub open spec fn be_val(s: Seq<u8>) -> nat
    decreases s.len(),
{
    if s.len() == 0 {
        0
    } else {
        (be_val(s.drop_last()) * 256 + s.last()) as nat
    }
}

/// 256 to the power `n`: the number of byte strings of length `n`.
pub open spec fn pow256(n: nat) -> nat
    decreases n,
{
    if n == 0 {
        1
    } else {
        256 * pow256((n - 1) as nat)
    }
}

/// Reading a concatenation big-endian shifts the left part by the
/// length of the right part.
pub proof fn lemma_be_val_append(s: Seq<u8>, t: Seq<u8>)
    ensures
        be_val(s + t) == be_val(s) * pow256(t.len()) + be_val(t),
    decreases t.len(),
{
    if t.len() == 0 {
        assert(s + t =~= s);
        assert(pow256(t.len()) == 1);
        assert(be_val(t) == 0);
        assert(be_val(s) * pow256(t.len()) == be_val(s)) by (nonlinear_arith)
            requires
                pow256(t.len()) == 1,
        ;
    } else {
        lemma_be_val_append(s, t.drop_last());
        assert((s + t).drop_last() =~= s + t.drop_last());
        assert((s + t).last() == t.last());
        assert(be_val(s + t) == be_val(s + t.drop_last()) * 256 + t.last());
        assert(be_val(t) == be_val(t.drop_last()) * 256 + t.last());
        assert(t.drop_last().len() == (t.len() - 1) as nat);
        assert(pow256(t.len()) == 256 * pow256(t.drop_last().len()));
        assert(be_val(s + t) == be_val(s) * pow256(t.len()) + be_val(t)) by (nonlinear_arith)
            requires
                be_val(s + t) == be_val(s + t.drop_last()) * 256 + t.last(),
                be_val(s + t.drop_last()) == be_val(s) * pow256(t.drop_last().len()) + be_val(
                    t.drop_last(),
                ),
                be_val(t) == be_val(t.drop_last()) * 256 + t.last(),
                pow256(t.len()) == 256 * pow256(t.drop_last().len()),
        ;
    }
}

} // verus!
