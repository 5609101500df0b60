//! Deterministic text rendering: decimal for 256-bit values, lowercase
//! hex for byte strings.  Every renderer meets an exact sequence-level
//! specification, so two runs on the same input yield the same text.

use vstd::prelude::*;
use vstd::arithmetic::div_mod::lemma_fundamental_div_mod_converse;
use vstd::string::StringExecFns;
use crate::u256::U256;

verus! {

/// The lowercase character for one digit value below sixteen.
pub open spec fn digit_char(d: nat) -> char {
    if d == 0 {
        '0'
    } else if d == 1 {
        '1'
    } else if d == 2 {
        '2'
    } else if d == 3 {
        '3'
    } else if d == 4 {
        '4'
    } else if d == 5 {
        '5'
    } else if d == 6 {
        '6'
    } else if d == 7 {
        '7'
    } else if d == 8 {
        '8'
    } else if d == 9 {
        '9'
    } else if d == 10 {
        'a'
    } else if d == 11 {
        'b'
    } else if d == 12 {
        'c'
    } else if d == 13 {
        'd'
    } else if d == 14 {
        'e'
    } else {
        'f'
    }
}

/// The canonical decimal rendering of a natural number, no leading zeros
/// (a lone `0` for zero).
pub open spec fn dec_rep(n: nat) -> Seq<char>
    decreases n,
{
    if n < 10 {
        seq![digit_char(n)]
    } else {
        dec_rep(n / 10).push(digit_char(n % 10))
    }
}

/// The lowercase hex rendering of a byte string, two characters per byte.
pub open spec fn hex_rep(bytes: Seq<u8>) -> Seq<char>
    decreases bytes.len(),
{
    if bytes.len() == 0 {
        Seq::empty()
    } else {
        hex_rep(bytes.drop_last()).push(digit_char((bytes.last() / 16) as nat)).push(
            digit_char((bytes.last() % 16) as nat),
        )
    }
}

/// One digit value as a one-character string slice.
pub(crate) fn digit_str(d: u8) -> (s: &'static str)
    requires
        d < 16,
    ensures
        s@ == seq![digit_char(d as nat)],
{
    let s: &'static str = if d == 0 {
        "0"
    } else if d == 1 {
        "1"
    } else if d == 2 {
        "2"
    } else if d == 3 {
        "3"
    } else if d == 4 {
        "4"
    } else if d == 5 {
        "5"
    } else if d == 6 {
        "6"
    } else if d == 7 {
        "7"
    } else if d == 8 {
        "8"
    } else if d == 9 {
        "9"
    } else if d == 10 {
        "a"
    } else if d == 11 {
        "b"
    } else if d == 12 {
        "c"
    } else if d == 13 {
        "d"
    } else if d == 14 {
        "e"
    } else {
        "f"
    };
    proof {
        reveal_strlit("0");
        reveal_strlit("1");
        reveal_strlit("2");
        reveal_strlit("3");
        reveal_strlit("4");
        reveal_strlit("5");
        reveal_strlit("6");
        reveal_strlit("7");
        reveal_strlit("8");
        reveal_strlit("9");
        reveal_strlit("a");
        reveal_strlit("b");
        reveal_strlit("c");
        reveal_strlit("d");
        reveal_strlit("e");
        reveal_strlit("f");
        assert(s@ =~= seq![digit_char(d as nat)]);
    }
    s
}

/// The digit characters of `digits` read back to front.
pub open spec fn digits_reversed(digits: Seq<u8>) -> Seq<char> {
    digits.map_values(|d: u8| digit_char(d as nat)).reverse()
}

/// Appends the decimal rendering of `v` to `out`.
pub fn append_dec(out: &mut String, v: &U256)
    ensures
        final(out)@ == old(out)@ + dec_rep(v.value()),
{
    let ghost start: Seq<char> = out@;
    let ghost orig: nat = v.value();
    if v.is_zero() {
        out.append("0");
        proof {
            reveal_strlit("0");
            assert(out@ =~= start + dec_rep(orig));
        }
        return ;
    }
    let mut digits: Vec<u8> = Vec::new();
    let mut cur: U256 = *v;
    while !cur.is_zero()
        invariant
            cur.value() > 0 ==> dec_rep(orig) == dec_rep(cur.value()) + digits_reversed(
                digits@,
            ),
            cur.value() == 0 ==> digits@.len() > 0 && dec_rep(orig) == digits_reversed(digits@),
            orig > 0,
            forall|k: int| 0 <= k < digits@.len() ==> digits@[k] < 16,
        decreases cur.value(),
    {
        let ghost pre: nat = cur.value();
        let ghost pre_digits: Seq<u8> = digits@;
        let (q, r) = cur.div10();
        digits.push(r);
        proof {
            lemma_fundamental_div_mod_converse(pre as int, 10, q.value() as int, r as int);
            assert(q.value() == pre / 10 && r == pre % 10);
            lemma_digits_reversed_push(pre_digits, r);
            if pre >= 10 {
                assert(dec_rep(pre) == dec_rep(pre / 10).push(digit_char((pre % 10) as nat)));
                assert(dec_rep(pre) + digits_reversed(pre_digits) =~= dec_rep(q.value())
                    + digits_reversed(digits@));
            } else {
                assert(dec_rep(pre) =~= seq![digit_char(pre)]);
                assert(q.value() == 0);
                assert(dec_rep(pre) + digits_reversed(pre_digits) =~= digits_reversed(digits@));
            }
            assert(q.value() < pre);
        }
        cur = q;
    }
    let n: usize = digits.len();
    let mut i: usize = 0;
    while i < n
        invariant
            n == digits@.len(),
            i <= n,
            forall|k: int| 0 <= k < n ==> digits@[k] < 16,
            out@ == start + digits_reversed(digits@).take(i as int),
            dec_rep(orig) == digits_reversed(digits@),
        decreases n - i,
    {
        let d: u8 = digits[n - 1 - i];
        out.append(digit_str(d));
        proof {
            assert(digits_reversed(digits@)[i as int] == digit_char(d as nat));
            assert(out@ =~= start + digits_reversed(digits@).take(i as int + 1));
        }
        i = i + 1;
    }
    proof {
        assert(digits_reversed(digits@).take(n as int) =~= digits_reversed(digits@));
    }
}

/// Reversing after a push puts the new character in front.
proof fn lemma_digits_reversed_push(digits: Seq<u8>, d: u8)
    ensures
        digits_reversed(digits.push(d)) =~= seq![digit_char(d as nat)] + digits_reversed(
            digits,
        ),
{
    let f = |x: u8| digit_char(x as nat);
    assert(digits.push(d).map_values(f) =~= digits.map_values(f).push(digit_char(d as nat)));
}

/// Appends the lowercase hex rendering of `bytes` to `out`.
pub fn append_hex(out: &mut String, bytes: &Vec<u8>)
    ensures
        final(out)@ == old(out)@ + hex_rep(bytes@),
{
    let ghost start: Seq<char> = out@;
    let n: usize = bytes.len();
    let mut i: usize = 0;
    while i < n
        invariant
            n == bytes@.len(),
            i <= n,
            out@ == start + hex_rep(bytes@.take(i as int)),
        decreases n - i,
    {
        let b: u8 = bytes[i];
        out.append(digit_str(b / 16));
        out.append(digit_str(b % 16));
        proof {
            assert(bytes@.take(i as int + 1).drop_last() =~= bytes@.take(i as int));
            assert(bytes@.take(i as int + 1).last() == b);
            assert(out@ =~= start + hex_rep(bytes@.take(i as int + 1)));
        }
        i = i + 1;
    }
    proof {
        assert(bytes@.take(n as int) =~= bytes@);
    }
}

/// The decimal rendering of `v` on its own.
pub fn dec_string(v: &U256) -> (s: String)
    ensures
        s@ == dec_rep(v.value()),
{
    let mut s = String::new();
    proof {
        assert(s@ =~= Seq::<char>::empty());
    }
    append_dec(&mut s, v);
    proof {
        assert(s@ =~= dec_rep(v.value()));
    }
    s
}

} // verus!
