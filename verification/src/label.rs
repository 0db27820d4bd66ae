//! The stable identifier generator.
//!
//! An identifier is the letter `e`, followed by the MurmurHash2 of the UTF-8
//! bytes of `package_name + fragment` written in decimal, followed by the
//! per-file sequence number written in decimal.  Every character of the
//! result is legal in a CSS class name or a JavaScript identifier because
//! only `e` and decimal digits appear.

use vstd::prelude::*;
use vstd::string::StrSliceExecFns;
use vstd::string::StringExecFns;
use vstd::utf8::encode_utf8;

use crate::hash::spec_murmur2;

verus! {

/// The decimal digit character for `d`, defined for `d < 10`.
pub open spec fn digit_char(d: nat) -> char {
    if d == 0 {
        '0'
    } else if d == 1 {
        '1'
    } else if d == 2 {
        '2'
    } else if d == 3 {
        '3'
    } else if d == 4 {
        '4'
    } else if d == 5 {
        '5'
    } else if d == 6 {
        '6'
    } else if d == 7 {
        '7'
    } else if d == 8 {
        '8'
    } else {
        '9'
    }
}

/// The decimal numeral of `n`, most significant digit first, no sign and no
/// leading zeros (`0` itself is written `"0"`).
pub open spec fn dec_digits(n: nat) -> Seq<char>
    decreases n,
{
    if n < 10 {
        seq![digit_char(n)]
    } else {
        dec_digits(n / 10) + seq![digit_char(n % 10)]
    }
}

/// The stable identifier for a package name, a relative-path fragment and a
/// per-file sequence number.
pub open spec fn spec_label(package_name: Seq<char>, fragment: Seq<char>, sequence: nat) -> Seq<
    char,
> {
    seq!['e'] + dec_digits(spec_murmur2(encode_utf8(package_name + fragment)) as nat) + dec_digits(
        sequence,
    )
}

fn push_digit(s: &mut String, d: u64)
    requires
        d < 10,
    ensures
        final (s)@ == old(s)@ + seq![digit_char(d as nat)],
{
    if d == 0 {
        proof {
            reveal_strlit("0");
            assert(("0")@ =~= seq![digit_char(0)]);
        }
        s.append("0");
    } else if d == 1 {
        proof {
            reveal_strlit("1");
            assert(("1")@ =~= seq![digit_char(1)]);
        }
        s.append("1");
    } else if d == 2 {
        proof {
            reveal_strlit("2");
            assert(("2")@ =~= seq![digit_char(2)]);
        }
        s.append("2");
    } else if d == 3 {
        proof {
            reveal_strlit("3");
            assert(("3")@ =~= seq![digit_char(3)]);
        }
        s.append("3");
    } else if d == 4 {
        proof {
            reveal_strlit("4");
            assert(("4")@ =~= seq![digit_char(4)]);
        }
        s.append("4");
    } else if d == 5 {
        proof {
            reveal_strlit("5");
            assert(("5")@ =~= seq![digit_char(5)]);
        }
        s.append("5");
    } else if d == 6 {
        proof {
            reveal_strlit("6");
            assert(("6")@ =~= seq![digit_char(6)]);
        }
        s.append("6");
    } else if d == 7 {
        proof {
            reveal_strlit("7");
            assert(("7")@ =~= seq![digit_char(7)]);
        }
        s.append("7");
    } else if d == 8 {
        proof {
            reveal_strlit("8");
            assert(("8")@ =~= seq![digit_char(8)]);
        }
        s.append("8");
    } else {
        proof {
            reveal_strlit("9");
            assert(("9")@ =~= seq![digit_char(9)]);
        }
        s.append("9");
    }
}

/// Appends the decimal numeral of `n` to `s`.
pub fn append_decimal(s: &mut String, n: u64)
    ensures
        final (s)@ == old(s)@ + dec_digits(n as nat),
    decreases n,
{
    if n < 10 {
        push_digit(s, n);
    } else {
        append_decimal(s, n / 10);
        push_digit(s, n % 10);
        proof {
            assert(old(s)@ + dec_digits(n as nat) =~= (old(s)@ + dec_digits((n / 10) as nat))
                + seq![digit_char((n % 10) as nat)]);
        }
    }
}

/// Computes the stable identifier for a call site: deterministic in the
/// package name, the fragment and the sequence number, and exactly as
/// `spec_label` states.
pub fn generate_stable_identifier(package_name: &String, fragment: &String, sequence: usize) -> (r:
    String)
    ensures
        r@ == spec_label(package_name@, fragment@, sequence as nat),
{
    let mut label = String::from_str("e");
    proof {
        reveal_strlit("e");
        assert(label@ =~= seq!['e']);
    }
    let combined: String = package_name.clone().concat(fragment.as_str());
    let bytes: Vec<u8> = combined.as_str().as_bytes_vec();
    let h: u32 = crate::hash::murmurhash2(&bytes);
    append_decimal(&mut label, h as u64);
    append_decimal(&mut label, sequence as u64);
    proof {
        assert(label@ =~= spec_label(package_name@, fragment@, sequence as nat));
    }
    label
}

/// A character that may appear in a generated identifier: the leading `e` or
/// a decimal digit.
pub open spec fn is_label_char(c: char) -> bool {
    c == 'e' || (48 <= c as u32 && c as u32 <= 57)
}

proof fn lemma_dec_digits_are_digits(n: nat)
    ensures
        forall|i: int|
            0 <= i < dec_digits(n).len() ==> 48 <= (#[trigger] dec_digits(n)[i]) as u32
                && dec_digits(n)[i] as u32 <= 57,
    decreases n,
{
    if n < 10 {
        assert(dec_digits(n) == seq![digit_char(n)]);
        assert(48 <= digit_char(n) as u32 && digit_char(n) as u32 <= 57);
    } else {
        lemma_dec_digits_are_digits(n / 10);
        assert(48 <= digit_char((n % 10) as nat) as u32 && digit_char((n % 10) as nat) as u32
            <= 57);
        assert forall|i: int| 0 <= i < dec_digits(n).len() implies 48 <= (
        #[trigger] dec_digits(n)[i]) as u32 && dec_digits(n)[i] as u32 <= 57 by {
            if i < dec_digits(n / 10).len() {
                assert(dec_digits(n)[i] == dec_digits(n / 10)[i]);
            } else {
                assert(dec_digits(n)[i] == digit_char((n % 10) as nat));
            }
        }
    }
}

/// Every character of a generated identifier is the letter `e` or a decimal
/// digit, so the result is legal in a JavaScript identifier and a CSS class
/// name.
pub proof fn lemma_label_chars_identifier_legal(p: Seq<char>, f: Seq<char>, s: nat)
    ensures
        forall|i: int|
            0 <= i < spec_label(p, f, s).len() ==> is_label_char(#[trigger] spec_label(p, f, s)[i]),
{
    let h = dec_digits(spec_murmur2(encode_utf8(p + f)) as nat);
    let t = dec_digits(s);
    lemma_dec_digits_are_digits(spec_murmur2(encode_utf8(p + f)) as nat);
    lemma_dec_digits_are_digits(s);
    assert forall|i: int| 0 <= i < spec_label(p, f, s).len() implies is_label_char(
        #[trigger] spec_label(p, f, s)[i],
    ) by {
        if i == 0 {
            assert(spec_label(p, f, s)[0] == 'e');
        } else if i < 1 + h.len() {
            assert(spec_label(p, f, s)[i] == h[i - 1]);
        } else {
            assert(spec_label(p, f, s)[i] == t[i - 1 - h.len()]);
        }
    }
}

/// Generation is pure: identical inputs give the identical identifier.
pub proof fn lemma_generate_pure(
    p1: Seq<char>,
    f1: Seq<char>,
    s1: nat,
    p2: Seq<char>,
    f2: Seq<char>,
    s2: nat,
)
    requires
        p1 == p2,
        f1 == f2,
        s1 == s2,
    ensures
        spec_label(p1, f1, s1) == spec_label(p2, f2, s2),
{
}

proof fn lemma_dec_digits_len(n: nat)
    ensures
        dec_digits(n).len() >= 1,
    decreases n,
{
    if n >= 10 {
        lemma_dec_digits_len(n / 10);
    }
}

proof fn lemma_dec_digits_injective(a: nat, b: nat)
    requires
        dec_digits(a) == dec_digits(b),
    ensures
        a == b,
    decreases a,
{
    if a < 10 && b < 10 {
        assert(dec_digits(a) == seq![digit_char(a)]);
        assert(dec_digits(b) == seq![digit_char(b)]);
        assert(seq![digit_char(a)][0] == digit_char(a));
        assert(seq![digit_char(b)][0] == digit_char(b));
        assert(digit_char(a) == digit_char(b));
        assert(a == b);
    } else if a < 10 {
        lemma_dec_digits_len(b / 10);
        assert(dec_digits(b).len() >= 2);
    } else if b < 10 {
        lemma_dec_digits_len(a / 10);
        assert(dec_digits(a).len() >= 2);
    } else {
        lemma_dec_digits_len(a / 10);
        lemma_dec_digits_len(b / 10);
        assert(dec_digits(a).last() == digit_char((a % 10) as nat));
        assert(dec_digits(b).last() == digit_char((b % 10) as nat));
        assert(a % 10 == b % 10);
        assert(dec_digits(a / 10) =~= dec_digits(b / 10)) by {
            assert(dec_digits(a / 10).len() == dec_digits(b / 10).len());
            assert forall|i: int| 0 <= i < dec_digits(a / 10).len() implies #[trigger] dec_digits(
                a / 10,
            )[i] == dec_digits(b / 10)[i] by {
                assert(dec_digits(a)[i] == dec_digits(a / 10)[i]);
                assert(dec_digits(b)[i] == dec_digits(b / 10)[i]);
            }
        }
        lemma_dec_digits_injective(a / 10, b / 10);
        vstd::arithmetic::div_mod::lemma_fundamental_div_mod(a as int, 10);
        vstd::arithmetic::div_mod::lemma_fundamental_div_mod(b as int, 10);
        assert(a == b);
    }
}

/// Within one file, identifiers are never reused: two identifiers generated
/// for the same package name and fragment with distinct sequence numbers are
/// distinct strings.
pub proof fn lemma_labels_distinct(p: Seq<char>, f: Seq<char>, s1: nat, s2: nat)
    requires
        s1 != s2,
    ensures
        spec_label(p, f, s1) != spec_label(p, f, s2),
{
    if spec_label(p, f, s1) == spec_label(p, f, s2) {
        let pre = seq!['e'] + dec_digits(spec_murmur2(encode_utf8(p + f)) as nat);
        assert(spec_label(p, f, s1).len() == pre.len() + dec_digits(s1).len());
        assert(spec_label(p, f, s2).len() == pre.len() + dec_digits(s2).len());
        assert(dec_digits(s1) =~= dec_digits(s2)) by {
            assert(dec_digits(s1).len() == dec_digits(s2).len());
            assert forall|i: int| 0 <= i < dec_digits(s1).len() implies dec_digits(s1)[i]
                == dec_digits(s2)[i] by {
                assert(spec_label(p, f, s1)[pre.len() + i] == dec_digits(s1)[i]);
                assert(spec_label(p, f, s2)[pre.len() + i] == dec_digits(s2)[i]);
            }
        }
        lemma_dec_digits_injective(s1, s2);
    }
}

} // verus!
