//! Verified text encoding: decimal rendering of the counter and the JSON
//! framing of the messages that carry it.

use vstd::prelude::*;
use vstd::string::StrSliceExecFns;
use vstd::string::StringExecFns;
use vstd::string::StringSliceAdditionalSpecFns;

verus! {

/// Character for one decimal digit.
pub open spec fn dec_char(d: int) -> char
    recommends
        0 <= d < 10,
{
    if d == 0 {
        '0'
    } else if d == 1 {
        '1'
    } else if d == 2 {
        '2'
    } else if d == 3 {
        '3'
    } else if d == 4 {
        '4'
    } else if d == 5 {
        '5'
    } else if d == 6 {
        '6'
    } else if d == 7 {
        '7'
    } else if d == 8 {
        '8'
    } else {
        '9'
    }
}

/// Decimal digits of a non-negative integer, most significant first, with
/// no leading zero except for zero itself.
pub open spec fn dec_chars_nat(n: nat) -> Seq<char>
    decreases n,
{
    if n < 10 {
        seq![dec_char(n as int)]
    } else {
        dec_chars_nat(n / 10).push(dec_char((n % 10) as int))
    }
}

/// Decimal rendering of an integer: a minus sign before the digits of its
/// magnitude when it is negative.
pub open spec fn dec_chars(n: int) -> Seq<char> {
    if n < 0 {
        seq!['-'] + dec_chars_nat((-n) as nat)
    } else {
        dec_chars_nat(n as nat)
    }
}

/// ASCII bytes of a character sequence, one byte per character.
pub open spec fn ascii_of(s: Seq<char>) -> Seq<u8> {
    Seq::new(s.len(), |i: int| s[i] as u8)
}

/// Text of the JSON message `{"count":<n>}`.
pub open spec fn json_count_text(n: int) -> Seq<char> {
    "{\"count\":"@ + dec_chars(n) + "}"@
}

/// Bytes of the JSON message `{"count":<n>}`.
pub open spec fn json_count_bytes(n: int) -> Seq<u8> {
    ascii_of(json_count_text(n))
}

/// Characters of a digit sequence read back to front.
spec fn digits_chars_rev(ds: Seq<u8>) -> Seq<char>
    decreases ds.len(),
{
    if ds.len() == 0 {
        Seq::<char>::empty()
    } else {
        seq![dec_char(ds.last() as int)] + digits_chars_rev(ds.drop_last())
    }
}

proof fn lemma_digits_chars_rev_cons(x: u8, t: Seq<u8>)
    ensures
        digits_chars_rev(seq![x] + t) == digits_chars_rev(t) + seq![dec_char(x as int)],
    decreases t.len(),
{
    if t.len() == 0 {
        assert(seq![x] + t =~= seq![x]);
        assert(seq![x].last() == x);
        assert(seq![x].drop_last() =~= Seq::<u8>::empty());
        assert(digits_chars_rev(Seq::<u8>::empty()) =~= Seq::<char>::empty());
        assert(digits_chars_rev(seq![x]) =~= seq![dec_char(x as int)] + digits_chars_rev(
            Seq::<u8>::empty(),
        ));
        assert(digits_chars_rev(seq![x]) =~= digits_chars_rev(t) + seq![dec_char(x as int)]);
    } else {
        let c = seq![x] + t;
        assert(c.last() == t.last());
        assert(c.drop_last() =~= seq![x] + t.drop_last());
        lemma_digits_chars_rev_cons(x, t.drop_last());
        assert(digits_chars_rev(c) =~= digits_chars_rev(t) + seq![dec_char(x as int)]);
    }
}

proof fn lemma_dec_chars_nat_ascii(n: nat)
    ensures
        vstd::utf8::is_ascii_chars(dec_chars_nat(n)),
    decreases n,
{
    if n < 10 {
        assert('\0' <= dec_char(n as int) <= '\u{7f}');
    } else {
        lemma_dec_chars_nat_ascii(n / 10);
        assert('\0' <= dec_char((n % 10) as int) <= '\u{7f}');
    }
}

proof fn lemma_dec_chars_ascii(n: int)
    ensures
        vstd::utf8::is_ascii_chars(dec_chars(n)),
{
    if n < 0 {
        lemma_dec_chars_nat_ascii((-n) as nat);
        assert('\0' <= '-' <= '\u{7f}');
    } else {
        lemma_dec_chars_nat_ascii(n as nat);
    }
}

/// Bytes of a string of ASCII characters, one byte per character.
fn ascii_bytes(s: &String) -> (r: Vec<u8>)
    requires
        vstd::utf8::is_ascii_chars(s@),
    ensures
        r@ == ascii_of(s@),
{
    broadcast use vstd::string::is_ascii_spec_bytes;

    let st = s.as_str();
    let r = st.as_bytes_vec();
    proof {
        assert(vstd::string::is_ascii(st));
        assert(st.spec_bytes() =~= Seq::new(st@.len(), |i: int| st@.index(i) as u8));
        assert(r@ =~= ascii_of(s@));
    }
    r
}

/// Decimal rendering of an integer, as [`dec_chars`] gives it.
pub fn i32_to_string(n: i32) -> (s: String)
    ensures
        s@ == dec_chars(n as int),
{
    let neg = n < 0;
    let mut m: u64 = if n < 0 {
        (-(n as i64)) as u64
    } else {
        n as u64
    };
    let ghost mag: nat = m as nat;
    let mut digits: Vec<u8> = Vec::new();
    proof {
        assert(digits_chars_rev(digits@) =~= Seq::<char>::empty());
        assert(dec_chars_nat(mag) =~= dec_chars_nat(m as nat) + digits_chars_rev(digits@));
    }
    while m >= 10
        invariant
            dec_chars_nat(mag) == dec_chars_nat(m as nat) + digits_chars_rev(digits@),
            forall|j: int| 0 <= j < digits@.len() ==> #[trigger] digits@[j] < 10,
        decreases m,
    {
        let d: u8 = (m % 10) as u8;
        let ghost old_digits = digits@;
        let ghost old_m = m as nat;
        digits.push(d);
        m = m / 10;
        proof {
            assert(dec_chars_nat(old_m) == dec_chars_nat(old_m / 10).push(
                dec_char((old_m % 10) as int),
            ));
            assert(digits@ =~= old_digits.push(d));
            assert(digits@.last() == d);
            assert(digits@.drop_last() =~= old_digits);
            assert(digits_chars_rev(digits@) =~= seq![dec_char(d as int)] + digits_chars_rev(
                old_digits,
            ));
            assert(dec_chars_nat(mag) =~= dec_chars_nat(m as nat) + digits_chars_rev(digits@));
        }
    }
    let ghost base: Seq<char> = if neg {
        seq!['-'] + seq![dec_char(m as int)]
    } else {
        seq![dec_char(m as int)]
    };
    let mut s = String::new();
    if neg {
        s.append("-");
        proof {
            reveal_strlit("-");
            assert(s@ =~= seq!['-']);
        }
    }
    s.append(digit_str(m as u8));
    proof {
        assert(s@ =~= base);
        assert(digits@.skip(digits@.len() as int) =~= Seq::<u8>::empty());
        assert(digits_chars_rev(digits@.skip(digits@.len() as int)) =~= Seq::<char>::empty());
        assert(s@ =~= base + digits_chars_rev(digits@.skip(digits@.len() as int)));
    }
    let mut i: usize = digits.len();
    while i > 0
        invariant
            i <= digits@.len(),
            forall|j: int| 0 <= j < digits@.len() ==> #[trigger] digits@[j] < 10,
            s@ == base + digits_chars_rev(digits@.skip(i as int)),
        decreases i,
    {
        i = i - 1;
        let ghost before = digits@.skip(i as int + 1);
        s.append(digit_str(digits[i]));
        proof {
            assert(digits@.skip(i as int) =~= seq![digits@[i as int]] + before);
            lemma_digits_chars_rev_cons(digits@[i as int], before);
            assert(s@ =~= base + digits_chars_rev(digits@.skip(i as int)));
        }
    }
    proof {
        assert(digits@.skip(0) =~= digits@);
        assert(dec_chars_nat(m as nat) =~= seq![dec_char(m as int)]);
        if neg {
            assert(mag == -(n as int));
            assert(s@ =~= seq!['-'] + (seq![dec_char(m as int)] + digits_chars_rev(digits@)));
            assert(seq![dec_char(m as int)] + digits_chars_rev(digits@) =~= dec_chars_nat(mag));
            assert(s@ =~= dec_chars(n as int));
        } else {
            assert(mag == n as int);
            assert(s@ =~= seq![dec_char(m as int)] + digits_chars_rev(digits@));
            assert(s@ =~= dec_chars_nat(mag));
        }
    }
    s
}

/// One-character string of a digit value.
fn digit_str(d: u8) -> (s: &'static str)
    requires
        d < 10,
    ensures
        s@ == seq![dec_char(d as int)],
{
    let r: &'static str = match d {
        0 => "0",
        1 => "1",
        2 => "2",
        3 => "3",
        4 => "4",
        5 => "5",
        6 => "6",
        7 => "7",
        8 => "8",
        _ => "9",
    };
    proof {
        reveal_strlit("0");
        reveal_strlit("1");
        reveal_strlit("2");
        reveal_strlit("3");
        reveal_strlit("4");
        reveal_strlit("5");
        reveal_strlit("6");
        reveal_strlit("7");
        reveal_strlit("8");
        reveal_strlit("9");
        assert(r@ =~= seq![dec_char(d as int)]);
    }
    r
}

/// Bytes of the JSON message `{"count":<n>}`, framed and rendered by the
/// verified encoder.
pub fn json_count(n: i32) -> (r: Vec<u8>)
    ensures
        r@ == json_count_bytes(n as int),
{
    let mut s = String::from_str("{\"count\":");
    let digits = i32_to_string(n);
    s.append(digits.as_str());
    s.append("}");
    proof {
        reveal_strlit("{\"count\":");
        reveal_strlit("}");
        assert(s@ =~= json_count_text(n as int));
        lemma_dec_chars_ascii(n as int);
        assert(vstd::utf8::is_ascii_chars(s@)) by {
            assert(forall|j: int|
                0 <= j < s@.len() ==> '\0' <= #[trigger] s@[j] <= '\u{7f}');
        }
    }
    ascii_bytes(&s)
}

} // verus!
