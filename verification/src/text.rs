//! Verified character-level string operations: equality, substring
//! search, decimal formatting and parsing, and literal placeholder
//! substitution.  All contracts are stated over `Seq<char>` views.

use vstd::prelude::*;
use vstd::string::StrSliceExecFns;
use vstd::string::StringExecFns;

verus! {

/// Relies on std's `String::push`: appends exactly one character.
#[verifier::external_body]
pub fn push_char(s: &mut String, c: char)
    ensures
        final(s)@ == old(s)@.push(c),
{
    s.push(c);
}

/// Character-for-character string equality.
pub fn str_eq(a: &str, b: &str) -> (r: bool)
    ensures
        r == (a@ == b@),
{
    let alen = a.unicode_len();
    let blen = b.unicode_len();
    if alen != blen {
        return false;
    }
    let mut i: usize = 0;
    while i < alen
        invariant
            alen == a@.len(),
            alen == b@.len(),
            i <= alen,
            forall|j: int| 0 <= j < i ==> a@[j] == b@[j],
        decreases alen - i,
    {
        if a.get_char(i) != b.get_char(i) {
            return false;
        }
        i += 1;
    }
    proof {
        assert(a@ =~= b@);
    }
    true
}

/// Does `pat` occur in `s` starting at position `i`?
pub fn has_prefix_at(s: &str, i: usize, pat: &str) -> (r: bool)
    requires
        i <= s@.len(),
    ensures
        r == (i + pat@.len() <= s@.len() && s@.subrange(i as int, i + pat@.len()) == pat@),
{
    let n = s.unicode_len();
    let p = pat.unicode_len();
    if p > n - i {
        return false;
    }
    let mut j: usize = 0;
    while j < p
        invariant
            n == s@.len(),
            p == pat@.len(),
            i + p <= n,
            j <= p,
            forall|k: int| 0 <= k < j ==> s@[i + k] == pat@[k],
        decreases p - j,
    {
        if s.get_char(i + j) != pat.get_char(j) {
            return false;
        }
        j += 1;
    }
    proof {
        assert(s@.subrange(i as int, i + pat@.len()) =~= pat@);
    }
    true
}

/// Index of the first occurrence of `c` in `s` at or after `i`, or
/// `s.len()` if there is none.
pub open spec fn find_from(s: Seq<char>, c: char, i: int) -> int
    decreases s.len() - i
        when 0 <= i <= s.len()
{
    if i >= s.len() {
        s.len() as int
    } else if s[i] == c {
        i
    } else {
        find_from(s, c, i + 1)
    }
}

pub fn find_char_from(s: &str, c: char, from: usize) -> (r: usize)
    requires
        from <= s@.len(),
    ensures
        r == find_from(s@, c, from as int),
        from <= r <= s@.len(),
        r < s@.len() ==> s@[r as int] == c,
{
    let n = s.unicode_len();
    let mut i: usize = from;
    while i < n
        invariant
            n == s@.len(),
            from <= i <= n,
            find_from(s@, c, from as int) == find_from(s@, c, i as int),
        decreases n - i,
    {
        if s.get_char(i) == c {
            return i;
        }
        i += 1;
    }
    n
}

/// The digit character for a value below ten.
pub open spec fn digit_char(d: nat) -> char {
    if d == 0 {
        '0'
    } else if d == 1 {
        '1'
    } else if d == 2 {
        '2'
    } else if d == 3 {
        '3'
    } else if d == 4 {
        '4'
    } else if d == 5 {
        '5'
    } else if d == 6 {
        '6'
    } else if d == 7 {
        '7'
    } else if d == 8 {
        '8'
    } else {
        '9'
    }
}

/// The value of a digit character, or `None` for any other character.
pub open spec fn digit_value(c: char) -> Option<nat> {
    if c == '0' {
        Some(0nat)
    } else if c == '1' {
        Some(1nat)
    } else if c == '2' {
        Some(2nat)
    } else if c == '3' {
        Some(3nat)
    } else if c == '4' {
        Some(4nat)
    } else if c == '5' {
        Some(5nat)
    } else if c == '6' {
        Some(6nat)
    } else if c == '7' {
        Some(7nat)
    } else if c == '8' {
        Some(8nat)
    } else if c == '9' {
        Some(9nat)
    } else {
        None
    }
}

pub open spec fn is_digit(c: char) -> bool {
    digit_value(c) is Some
}

fn exec_digit_value(c: char) -> (r: Option<u32>)
    ensures
        match r {
            Some(d) => digit_value(c) == Some(d as nat),
            None => digit_value(c) is None,
        },
{
    match c {
        '0' => Some(0),
        '1' => Some(1),
        '2' => Some(2),
        '3' => Some(3),
        '4' => Some(4),
        '5' => Some(5),
        '6' => Some(6),
        '7' => Some(7),
        '8' => Some(8),
        '9' => Some(9),
        _ => None,
    }
}

fn digit_to_char(d: u32) -> (c: char)
    requires
        d < 10,
    ensures
        c == digit_char(d as nat),
{
    match d {
        0 => '0',
        1 => '1',
        2 => '2',
        3 => '3',
        4 => '4',
        5 => '5',
        6 => '6',
        7 => '7',
        8 => '8',
        _ => '9',
    }
}

/// The usual decimal rendering of a number, without leading zeros.
pub open spec fn dec_rep(n: nat) -> Seq<char>
    decreases n,
{
    if n < 10 {
        seq![digit_char(n)]
    } else {
        dec_rep(n / 10).push(digit_char(n % 10))
    }
}

/// The numeric value of a sequence of digit characters.
pub open spec fn dec_val(s: Seq<char>) -> nat
    decreases s.len(),
{
    if s.len() == 0 {
        0
    } else {
        dec_val(s.drop_last()) * 10 + digit_value(s.last()).unwrap_or(0)
    }
}

pub open spec fn all_digits(s: Seq<char>) -> bool {
    forall|i: int| 0 <= i < s.len() ==> is_digit(s[i])
}

/// A sequence of characters that denotes a `u32`: nonempty, all
/// digits, value within range.
pub open spec fn is_u32_digits(s: Seq<char>) -> bool {
    s.len() > 0 && all_digits(s) && dec_val(s) <= u32::MAX
}

/// The value of a digit string never shrinks as digits are appended.
proof fn lemma_dec_val_prefix(t: Seq<char>, u: Seq<char>)
    requires
        t.len() <= u.len(),
        u.subrange(0, t.len() as int) == t,
    ensures
        dec_val(t) <= dec_val(u),
    decreases u.len() - t.len(),
{
    if t.len() < u.len() {
        let u1 = u.drop_last();
        assert(u1.subrange(0, t.len() as int) =~= t);
        lemma_dec_val_prefix(t, u1);
        assert(dec_val(u) == dec_val(u1) * 10 + digit_value(u.last()).unwrap_or(0));
        assert(dec_val(u1) * 10 >= dec_val(u1)) by (nonlinear_arith);
    } else {
        assert(u.subrange(0, t.len() as int) =~= u);
    }
}

/// Parses `s[lo..hi]` as a decimal `u32`; `None` exactly when that
/// range is not a nonempty in-range digit string.
pub fn parse_u32_range(s: &str, lo: usize, hi: usize) -> (r: Option<u32>)
    requires
        lo <= hi <= s@.len(),
    ensures
        match r {
            Some(v) => is_u32_digits(s@.subrange(lo as int, hi as int)) && v as nat == dec_val(
                s@.subrange(lo as int, hi as int),
            ),
            None => !is_u32_digits(s@.subrange(lo as int, hi as int)),
        },
{
    let ghost whole = s@.subrange(lo as int, hi as int);
    if lo == hi {
        return None;
    }
    let mut acc: u64 = 0;
    let mut i: usize = lo;
    while i < hi
        invariant
            lo <= i <= hi <= s@.len(),
            whole == s@.subrange(lo as int, hi as int),
            all_digits(s@.subrange(lo as int, i as int)),
            acc as nat == dec_val(s@.subrange(lo as int, i as int)),
            acc <= u32::MAX,
        decreases hi - i,
    {
        let c = s.get_char(i);
        let ghost pre = s@.subrange(lo as int, i as int);
        let ghost ext = s@.subrange(lo as int, i + 1);
        proof {
            assert(ext.drop_last() =~= pre);
            assert(ext.last() == s@[i as int]);
        }
        match exec_digit_value(c) {
            None => {
                proof {
                    assert(whole[i - lo] == s@[i as int]);
                }
                return None;
            },
            Some(d) => {
                let next: u64 = acc * 10 + d as u64;
                proof {
                    assert(next as nat == dec_val(ext));
                }
                if next > 0xffff_ffff {
                    proof {
                        assert(whole.subrange(0, ext.len() as int) =~= ext);
                        lemma_dec_val_prefix(ext, whole);
                    }
                    return None;
                }
                acc = next;
            },
        }
        i += 1;
    }
    proof {
        assert(whole =~= s@.subrange(lo as int, hi as int));
    }
    Some(acc as u32)
}

/// Appends the decimal rendering of `n` to `s`.
pub fn push_decimal(s: &mut String, n: u32)
    ensures
        final(s)@ == old(s)@ + dec_rep(n as nat),
    decreases n,
{
    if n < 10 {
        let c = digit_to_char(n);
        push_char(s, c);
        proof {
            assert(old(s)@.push(c) =~= old(s)@ + dec_rep(n as nat));
        }
    } else {
        proof {
            assert(n / 10 < n) by (nonlinear_arith)
                requires
                    n >= 10,
            ;
        }
        push_decimal(s, n / 10);
        let c = digit_to_char(n % 10);
        let ghost mid = s@;
        push_char(s, c);
        proof {
            assert(mid.push(c) =~= old(s)@ + dec_rep(n as nat));
        }
    }
}

/// The decimal rendering of `n` as a fresh string.
pub fn u32_to_string(n: u32) -> (r: String)
    ensures
        r@ == dec_rep(n as nat),
{
    let mut s = String::new();
    push_decimal(&mut s, n);
    proof {
        assert(Seq::<char>::empty() + dec_rep(n as nat) =~= dec_rep(n as nat));
    }
    s
}

/// `s` with every non-overlapping occurrence of `pat` (scanned left to
/// right) replaced by `to`; `s` itself when `pat` is empty.
pub open spec fn replaced(s: Seq<char>, pat: Seq<char>, to: Seq<char>) -> Seq<char>
    decreases s.len(),
{
    if pat.len() == 0 || s.len() < pat.len() {
        s
    } else if s.subrange(0, pat.len() as int) == pat {
        to + replaced(s.skip(pat.len() as int), pat, to)
    } else {
        seq![s[0]] + replaced(s.skip(1), pat, to)
    }
}

/// Literal textual substitution, as `str::replace` performs it.
pub fn replace_all(s: &str, pat: &str, to: &str) -> (r: String)
    ensures
        r@ == replaced(s@, pat@, to@),
{
    let n = s.unicode_len();
    let p = pat.unicode_len();
    let mut out = String::new();
    if p == 0 {
        out.append(s);
        proof {
            assert(Seq::<char>::empty() + s@ =~= s@);
        }
        return out;
    }
    let mut i: usize = 0;
    proof {
        assert(Seq::<char>::empty() + replaced(s@.skip(0), pat@, to@) =~= replaced(
            s@.skip(0),
            pat@,
            to@,
        ));
        assert(s@.skip(0) =~= s@);
    }
    while i < n
        invariant
            n == s@.len(),
            p == pat@.len(),
            p > 0,
            i <= n,
            out@ + replaced(s@.skip(i as int), pat@, to@) == replaced(s@, pat@, to@),
        decreases n - i,
    {
        let ghost tail = s@.skip(i as int);
        if has_prefix_at(s, i, pat) {
            let ghost pre_out = out@;
            out.append(to);
            proof {
                assert(tail.subrange(0, p as int) =~= s@.subrange(i as int, i + p));
                assert(tail.skip(p as int) =~= s@.skip(i + p));
                assert(replaced(tail, pat@, to@) == to@ + replaced(s@.skip(i + p), pat@, to@));
                assert((pre_out + to@) + replaced(s@.skip(i + p), pat@, to@) =~= pre_out + (to@
                    + replaced(s@.skip(i + p), pat@, to@)));
            }
            i += p;
        } else {
            let c = s.get_char(i);
            let ghost pre_out = out@;
            push_char(&mut out, c);
            proof {
                assert(tail[0] == s@[i as int]);
                assert(tail.skip(1) =~= s@.skip(i + 1));
                if i + p <= n {
                    assert(tail.subrange(0, p as int) =~= s@.subrange(i as int, i + p));
                    assert(replaced(tail, pat@, to@) == seq![s@[i as int]] + replaced(
                        s@.skip(i + 1),
                        pat@,
                        to@,
                    ));
                } else {
                    assert(tail.len() < p);
                    assert(replaced(tail, pat@, to@) == tail);
                    assert(s@.skip(i + 1).len() < p);
                    assert(replaced(s@.skip(i + 1), pat@, to@) == s@.skip(i + 1));
                    assert(tail =~= seq![s@[i as int]] + s@.skip(i + 1));
                }
                assert(pre_out.push(c) + replaced(s@.skip(i + 1), pat@, to@) =~= pre_out + (
                seq![s@[i as int]] + replaced(s@.skip(i + 1), pat@, to@)));
            }
            i += 1;
        }
    }
    proof {
        assert(s@.skip(n as int).len() == 0);
        assert(replaced(s@.skip(n as int), pat@, to@) == s@.skip(n as int));
        assert(out@ + s@.skip(n as int) =~= out@);
    }
    out
}

} // verus!
