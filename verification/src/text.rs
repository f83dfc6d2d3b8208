//! Character-level utilities shared by the wire codecs: string equality over
//! character sequences, decimal digit rendering, and separator-joined
//! concatenation. Everything here is verified; no outside crate is involved.

use vstd::prelude::*;
use vstd::string::StrSliceExecFns;
use vstd::string::StringExecFns;

verus! {

/// Compares two string slices by their character sequences.
pub fn str_eq(a: &str, b: &str) -> (r: bool)
    ensures
        r == (a@ == b@),
{
    let alen = a.unicode_len();
    let blen = b.unicode_len();
    if alen != blen {
        return false;
    }
    let mut i: usize = 0;
    while i < alen
        invariant
            0 <= i <= alen,
            alen == a@.len(),
            blen == b@.len(),
            alen == blen,
            forall|j: int| 0 <= j < i ==> a@[j] == b@[j],
        decreases alen - i,
    {
        let ca = a.get_char(i);
        let cb = b.get_char(i);
        if ca != cb {
            return false;
        }
        i += 1;
    }
    proof {
        assert(a@ =~= b@);
    }
    true
}

/// The character for a single decimal digit.
pub open spec fn digit_char(d: nat) -> char {
    if d == 0 {
        '0'
    } else if d == 1 {
        '1'
    } else if d == 2 {
        '2'
    } else if d == 3 {
        '3'
    } else if d == 4 {
        '4'
    } else if d == 5 {
        '5'
    } else if d == 6 {
        '6'
    } else if d == 7 {
        '7'
    } else if d == 8 {
        '8'
    } else {
        '9'
    }
}

/// The ordinary base-10 rendering of `n`, without sign or padding.
pub open spec fn dec_digits(n: nat) -> Seq<char>
    decreases n,
{
    if n < 10 {
        seq![digit_char(n)]
    } else {
        dec_digits(n / 10).push(digit_char(n % 10))
    }
}

/// The last `w` base-10 digits of `n`, zero-padded on the left to exactly
/// `w` characters.
pub open spec fn dec_digits_padded(n: nat, w: nat) -> Seq<char>
    decreases w,
{
    if w == 0 {
        Seq::empty()
    } else {
        dec_digits_padded(n / 10, (w - 1) as nat).push(digit_char(n % 10))
    }
}

/// 10 to the power `e`.
pub open spec fn pow10_spec(e: nat) -> nat
    decreases e,
{
    if e == 0 {
        1
    } else {
        10 * pow10_spec((e - 1) as nat)
    }
}

pub proof fn lemma_pow10_pos(e: nat)
    ensures
        pow10_spec(e) >= 1,
    decreases e,
{
    if e > 0 {
        lemma_pow10_pos((e - 1) as nat);
    }
}

pub proof fn lemma_pow10_mono(a: nat, b: nat)
    requires
        a <= b,
    ensures
        pow10_spec(a) <= pow10_spec(b),
    decreases b,
{
    if a < b {
        lemma_pow10_mono(a, (b - 1) as nat);
        lemma_pow10_pos((b - 1) as nat);
    }
}

pub proof fn lemma_pow10_28_value()
    ensures
        pow10_spec(28) == 10_000_000_000_000_000_000_000_000_000,
{
    reveal_with_fuel(pow10_spec, 29);
}

/// 10 to the power `e`, as a machine integer.
pub fn pow10(e: u32) -> (r: u128)
    requires
        e <= 28,
    ensures
        r == pow10_spec(e as nat),
{
    proof {
        lemma_pow10_28_value();
    }
    let mut r: u128 = 1;
    let mut i: u32 = 0;
    while i < e
        invariant
            i <= e <= 28,
            r == pow10_spec(i as nat),
        decreases e - i,
    {
        proof {
            lemma_pow10_mono((i + 1) as nat, 28);
            lemma_pow10_28_value();
        }
        r = r * 10;
        i = i + 1;
    }
    r
}

fn digit_str(d: u128) -> (r: &'static str)
    requires
        d < 10,
    ensures
        r@ == seq![digit_char(d as nat)],
{
    proof {
        reveal_strlit("0");
        reveal_strlit("1");
        reveal_strlit("2");
        reveal_strlit("3");
        reveal_strlit("4");
        reveal_strlit("5");
        reveal_strlit("6");
        reveal_strlit("7");
        reveal_strlit("8");
        reveal_strlit("9");
    }
    let r: &'static str = if d == 0 {
        "0"
    } else if d == 1 {
        "1"
    } else if d == 2 {
        "2"
    } else if d == 3 {
        "3"
    } else if d == 4 {
        "4"
    } else if d == 5 {
        "5"
    } else if d == 6 {
        "6"
    } else if d == 7 {
        "7"
    } else if d == 8 {
        "8"
    } else {
        "9"
    };
    proof {
        assert(r@ =~= seq![digit_char(d as nat)]);
    }
    r
}

/// Appends the base-10 rendering of `n` to `out`.
pub fn push_digits(n: u128, out: &mut String)
    ensures
        final(out)@ == old(out)@ + dec_digits(n as nat),
    decreases n,
{
    if n >= 10 {
        push_digits(n / 10, out);
        out.append(digit_str(n % 10));
        proof {
            assert(final(out)@ =~= old(out)@ + dec_digits(n as nat));
        }
    } else {
        out.append(digit_str(n));
        proof {
            assert(final(out)@ =~= old(out)@ + dec_digits(n as nat));
        }
    }
}

/// Appends the last `w` digits of `n` to `out`, zero-padded to width `w`.
pub fn push_digits_padded(n: u128, w: u32, out: &mut String)
    ensures
        final(out)@ == old(out)@ + dec_digits_padded(n as nat, w as nat),
    decreases w,
{
    if w > 0 {
        push_digits_padded(n / 10, w - 1, out);
        out.append(digit_str(n % 10));
        proof {
            assert(final(out)@ =~= old(out)@ + dec_digits_padded(n as nat, w as nat));
        }
    } else {
        proof {
            assert(final(out)@ =~= old(out)@ + dec_digits_padded(n as nat, w as nat));
        }
    }
}

/// The parts joined with `sep` between consecutive parts: the wire form of
/// every multi-valued request parameter.
pub open spec fn join_sep(parts: Seq<Seq<char>>, sep: Seq<char>) -> Seq<char>
    decreases parts.len(),
{
    if parts.len() == 0 {
        Seq::empty()
    } else if parts.len() == 1 {
        parts[0]
    } else {
        parts[0] + sep + join_sep(parts.drop_first(), sep)
    }
}

/// Appending one more part extends the join by a separator and that part
/// (or is just that part when the join was empty).
pub proof fn lemma_join_push(parts: Seq<Seq<char>>, sep: Seq<char>, x: Seq<char>)
    ensures
        join_sep(parts.push(x), sep) == if parts.len() == 0 {
            x
        } else {
            join_sep(parts, sep) + sep + x
        },
    decreases parts.len(),
{
    if parts.len() == 0 {
        assert(parts.push(x).len() == 1);
        assert(join_sep(parts.push(x), sep) == parts.push(x)[0]);
        assert(parts.push(x)[0] == x);
    } else {
        assert(parts.push(x).drop_first() =~= parts.drop_first().push(x));
        lemma_join_push(parts.drop_first(), sep, x);
        if parts.len() == 1 {
            assert(join_sep(parts.push(x), sep) == parts[0] + sep + x);
            assert(join_sep(parts, sep) == parts[0]);
        } else {
            assert(join_sep(parts.push(x), sep) == parts[0] + sep + (join_sep(
                parts.drop_first(),
                sep,
            ) + sep + x));
            assert(parts[0] + sep + (join_sep(parts.drop_first(), sep) + sep + x) =~= (parts[0]
                + sep + join_sep(parts.drop_first(), sep)) + sep + x);
        }
    }
}

} // verus!
