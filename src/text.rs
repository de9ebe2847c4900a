//! Character-level helpers for names and paths.

use vstd::prelude::*;
use vstd::string::*;

verus! {

/// `needle` occurs in `hay` at position `i`.
pub open spec fn occurs_at(hay: Seq<char>, needle: Seq<char>, i: int) -> bool {
    0 <= i && i + needle.len() <= hay.len() && hay.subrange(i, i + needle.len()) == needle
}

/// `needle` occurs somewhere in `hay`.
pub open spec fn contains_text(hay: Seq<char>, needle: Seq<char>) -> bool {
    exists|i: int| occurs_at(hay, needle, i)
}

/// A path with one more component: a separator is put between the two
/// unless the base is empty or already ends with one.
pub open spec fn join_path(base: Seq<char>, name: Seq<char>) -> Seq<char> {
    if base.len() == 0 {
        name
    } else if base.last() == '/' {
        base + name
    } else {
        base + seq!['/'] + name
    }
}

/// The decimal digit of a value below ten.
pub open spec fn decimal_digit(d: int) -> char {
    seq!['0', '1', '2', '3', '4', '5', '6', '7', '8', '9'][d]
}

/// The decimal text of a natural number, without leading zeros.
pub open spec fn nat_decimal(n: nat) -> Seq<char>
    decreases n,
{
    if n < 10 {
        seq![decimal_digit(n as int)]
    } else {
        nat_decimal(n / 10) + seq![decimal_digit((n % 10) as int)]
    }
}

/// The decimal text of an integer, with a leading minus sign when negative.
pub open spec fn int_decimal(n: int) -> Seq<char> {
    if n < 0 {
        seq!['-'] + nat_decimal((-n) as nat)
    } else {
        nat_decimal(n as nat)
    }
}

/// Whether two strings hold the same characters.
pub fn same_text(a: &str, b: &str) -> (r: bool)
    ensures
        r == (a@ == b@),
{
    let n = a.unicode_len();
    if n != b.unicode_len() {
        return false;
    }
    let mut i: usize = 0;
    while i < n
        invariant
            n == a@.len(),
            n == b@.len(),
            i <= n,
            forall|j: int| 0 <= j < i ==> a@[j] == b@[j],
        decreases n - i,
    {
        if a.get_char(i) != b.get_char(i) {
            return false;
        }
        i = i + 1;
    }
    assert(a@ == b@);
    true
}

/// Whether `needle` occurs at position `at` of `hay`.
fn occurs_here(hay: &str, needle: &str, at: usize) -> (r: bool)
    requires
        at + needle@.len() <= hay@.len(),
    ensures
        r == occurs_at(hay@, needle@, at as int),
{
    let h = hay.unicode_len();
    let n = needle.unicode_len();
    let mut k: usize = 0;
    while k < n
        invariant
            n == needle@.len(),
            h == hay@.len(),
            at + n <= hay@.len(),
            k <= n,
            forall|j: int| 0 <= j < k ==> hay@[at + j] == needle@[j],
        decreases n - k,
    {
        if hay.get_char(at + k) != needle.get_char(k) {
            assert(hay@.subrange(at as int, at + n)[k as int] != needle@[k as int]);
            return false;
        }
        k = k + 1;
    }
    assert(hay@.subrange(at as int, at + n) == needle@);
    true
}

/// Whether `needle` occurs anywhere in `hay`.
pub fn contains_str(hay: &str, needle: &str) -> (r: bool)
    ensures
        r == contains_text(hay@, needle@),
{
    let h = hay.unicode_len();
    let n = needle.unicode_len();
    if n > h {
        assert forall|i: int| !occurs_at(hay@, needle@, i) by {}
        return false;
    }
    let last = h - n;
    let mut at: usize = 0;
    loop
        invariant
            h == hay@.len(),
            n == needle@.len(),
            last == h - n,
            at <= last,
            forall|i: int| 0 <= i < at ==> !occurs_at(hay@, needle@, i),
        ensures
            forall|i: int| 0 <= i <= last ==> !occurs_at(hay@, needle@, i),
        decreases last - at,
    {
        if occurs_here(hay, needle, at) {
            return true;
        }
        if at == last {
            break;
        }
        at = at + 1;
    }
    assert forall|i: int| !occurs_at(hay@, needle@, i) by {
        if 0 <= i <= last {
        }
    }
    false
}

/// Appends `name` to `base` as one more path component.
pub fn join(base: &str, name: &str) -> (r: String)
    ensures
        r@ == join_path(base@, name@),
{
    let n = base.unicode_len();
    let mut out = String::from_str(base);
    if n > 0 && base.get_char(n - 1) != '/' {
        proof {
            reveal_strlit("/");
        }
        out.append("/");
    }
    out.append(name);
    out
}

/// Appends the decimal text of `n` to `out`.
fn push_decimal(out: &mut String, n: u64)
    ensures
        final(out)@ == old(out)@ + nat_decimal(n as nat),
    decreases n,
{
    if n >= 10 {
        push_decimal(out, n / 10);
    }
    let d = (n % 10) as usize;
    proof {
        reveal_strlit("0123456789");
    }
    let digit = "0123456789".substring_char(d, d + 1);
    assert(digit@ == seq![decimal_digit(d as int)]);
    out.append(digit);
}

/// The decimal text of an unsigned integer.
pub fn decimal_u64(n: u64) -> (r: String)
    ensures
        r@ == nat_decimal(n as nat),
{
    let mut out = String::new();
    push_decimal(&mut out, n);
    out
}

/// The decimal text of a signed integer.
pub fn decimal_i64(n: i64) -> (r: String)
    ensures
        r@ == int_decimal(n as int),
{
    if n < 0 {
        let magnitude: u64 = if n == i64::MIN {
            9223372036854775808u64
        } else {
            (-n) as u64
        };
        proof {
            reveal_strlit("-");
        }
        let mut out = String::from_str("-");
        push_decimal(&mut out, magnitude);
        out
    } else {
        decimal_u64(n as u64)
    }
}

} // verus!
