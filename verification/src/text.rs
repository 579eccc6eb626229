//! Building text as vectors of characters.
//!
//! Rendered IR, error messages and diagnostic reports are assembled as
//! `Vec<char>` buffers whose contents are pinned, character by character, to
//! `Seq<char>` specifications; `chars_to_string` turns a finished buffer
//! into a `String` at the very end.

use vstd::prelude::*;

verus! {

/// The decimal digit character for `d` (meaningful for `d < 10`).
pub open spec fn digit_char(d: nat) -> char {
    (((48 + d) % 256) as u8) as char
}

/// The decimal rendering of a natural number, most significant digit first,
/// with no sign and no leading zeros (`0` renders as `"0"`).
pub open spec fn dec_digits(n: nat) -> Seq<char>
    decreases n,
{
    if n < 10 {
        seq![digit_char(n)]
    } else {
        dec_digits(n / 10).push(digit_char(n % 10))
    }
}

/// The decimal rendering of an integer: a `-` sign for negative values,
/// then the digits of the magnitude.
pub open spec fn int_text(v: int) -> Seq<char> {
    if v < 0 {
        seq!['-'] + dec_digits((-v) as nat)
    } else {
        dec_digits(v as nat)
    }
}

/// Appends the decimal digits of `v` to `out`.
pub fn push_u64_text(out: &mut Vec<char>, v: u64)
    ensures
        final(out)@ == old(out)@ + dec_digits(v as nat),
    decreases v,
{
    if v >= 10 {
        push_u64_text(out, v / 10);
    }
    let d: u8 = 48 + (v % 10) as u8;
    out.push(d as char);
    proof {
        if v >= 10 {
            assert(final(out)@ =~= old(out)@ + dec_digits(v as nat));
        } else {
            assert(final(out)@ =~= old(out)@ + dec_digits(v as nat));
        }
    }
}

/// Appends the decimal digits of `v` to `out`.
pub fn push_usize_text(out: &mut Vec<char>, v: usize)
    ensures
        final(out)@ == old(out)@ + dec_digits(v as nat),
{
    push_u64_text(out, v as u64);
}

/// Appends the decimal rendering of `v`, sign included, to `out`.
pub fn push_i64_text(out: &mut Vec<char>, v: i64)
    ensures
        final(out)@ == old(out)@ + int_text(v as int),
{
    if v < 0 {
        out.push('-');
        let m: u64 = (-(v as i128)) as u64;
        push_u64_text(out, m);
        proof {
            assert(final(out)@ =~= old(out)@ + int_text(v as int));
        }
    } else {
        push_u64_text(out, v as u64);
    }
}

/// Appends every character of `s` to `out`.
pub fn push_str_chars(out: &mut Vec<char>, s: &str)
    ensures
        final(out)@ == old(out)@ + s@,
{
    let n: usize = s.unicode_len();
    let mut i: usize = 0;
    while i < n
        invariant
            n == s@.len(),
            i <= n,
            out@ == old(out)@ + s@.subrange(0, i as int),
        decreases n - i,
    {
        out.push(s.get_char(i));
        i = i + 1;
        proof {
            assert(out@ =~= old(out)@ + s@.subrange(0, i as int));
        }
    }
    proof {
        assert(s@.subrange(0, n as int) =~= s@);
    }
}

/// Appends every character of `s` to `out`.
pub fn push_chars(out: &mut Vec<char>, s: &Vec<char>)
    ensures
        final(out)@ == old(out)@ + s@,
{
    let n: usize = s.len();
    let mut i: usize = 0;
    while i < n
        invariant
            n == s@.len(),
            i <= n,
            out@ == old(out)@ + s@.subrange(0, i as int),
        decreases n - i,
    {
        out.push(s[i]);
        i = i + 1;
        proof {
            assert(out@ =~= old(out)@ + s@.subrange(0, i as int));
        }
    }
    proof {
        assert(s@.subrange(0, n as int) =~= s@);
    }
}

/// Relies on `Iterator::collect` for `String`: the collected string holds
/// exactly the characters of the buffer, in order.
#[verifier::external_body]
pub fn chars_to_string(v: &Vec<char>) -> (r: String)
    ensures
        r@ == v@,
{
    v.iter().collect()
}

} // verus!
