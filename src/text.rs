//! Decimal rendering of integers, string comparison and path joining.
use vstd::prelude::*;

verus! {

/// The character of one decimal digit.
pub open spec fn digit_char(d: nat) -> char
    recommends
        d < 10,
{
    if d == 0 {
        '0'
    } else if d == 1 {
        '1'
    } else if d == 2 {
        '2'
    } else if d == 3 {
        '3'
    } else if d == 4 {
        '4'
    } else if d == 5 {
        '5'
    } else if d == 6 {
        '6'
    } else if d == 7 {
        '7'
    } else if d == 8 {
        '8'
    } else {
        '9'
    }
}

/// The decimal digits of a natural number, most significant first, without leading zeros.
pub open spec fn nat_digits(n: nat) -> Seq<char>
    decreases n,
{
    if n < 10 {
        seq![digit_char(n)]
    } else {
        nat_digits(n / 10).push(digit_char(n % 10))
    }
}

/// The decimal text of an integer: a minus sign for negative values, then its digits.
pub open spec fn int_text(n: int) -> Seq<char> {
    if n < 0 {
        seq!['-'] + nat_digits((-n) as nat)
    } else {
        nat_digits(n as nat)
    }
}

/// The text of one decimal digit.
fn digit_str(d: u8) -> (r: &'static str)
    requires
        d < 10,
    ensures
        r@ == seq![digit_char(d as nat)],
{
    if d == 0 {
        proof {
            reveal_strlit("0");
        }
        "0"
    } else if d == 1 {
        proof {
            reveal_strlit("1");
        }
        "1"
    } else if d == 2 {
        proof {
            reveal_strlit("2");
        }
        "2"
    } else if d == 3 {
        proof {
            reveal_strlit("3");
        }
        "3"
    } else if d == 4 {
        proof {
            reveal_strlit("4");
        }
        "4"
    } else if d == 5 {
        proof {
            reveal_strlit("5");
        }
        "5"
    } else if d == 6 {
        proof {
            reveal_strlit("6");
        }
        "6"
    } else if d == 7 {
        proof {
            reveal_strlit("7");
        }
        "7"
    } else if d == 8 {
        proof {
            reveal_strlit("8");
        }
        "8"
    } else if d == 9 {
        proof {
            reveal_strlit("9");
        }
        "9"
    } else {
        proof {
            reveal_strlit("9");
        }
        "9"
    }
}

/// Appends the decimal digits of `n`.
fn append_digits(s: &mut String, n: u128)
    ensures
        final(s)@ == old(s)@ + nat_digits(n as nat),
    decreases n,
{
    if n >= 10 {
        append_digits(s, n / 10);
    }
    s.append(digit_str((n % 10) as u8));
    proof {
        if n < 10 {
            assert(n % 10 == n);
        }
    }
    assert(final(s)@ =~= old(s)@ + nat_digits(n as nat));
}

/// The decimal text of a value `sign * magnitude`, with a minus sign when `negative`.
fn signed_text(negative: bool, magnitude: u128) -> (r: String)
    requires
        negative ==> magnitude > 0,
    ensures
        r@ == int_text(if negative { -(magnitude as int) } else { magnitude as int }),
{
    let mut s = String::new();
    if negative {
        s.append("-");
        proof {
            reveal_strlit("-");
        }
    }
    append_digits(&mut s, magnitude);
    assert(s@ =~= int_text(if negative { -(magnitude as int) } else { magnitude as int }));
    s
}

/// The decimal text of an `i64`: a minus sign for negative values, then its digits.
pub fn i64_text(n: i64) -> (r: String)
    ensures
        r@ == int_text(n as int),
{
    if n < 0 {
        signed_text(true, (-(n as i128)) as u128)
    } else {
        signed_text(false, n as u128)
    }
}

/// The decimal text of an `i128`: a minus sign for negative values, then its digits.
pub fn i128_text(n: i128) -> (r: String)
    ensures
        r@ == int_text(n as int),
{
    if n < 0 {
        signed_text(true, (-(n + 1)) as u128 + 1)
    } else {
        signed_text(false, n as u128)
    }
}

/// The decimal text of a `u64`.
pub fn u64_text(n: u64) -> (r: String)
    ensures
        r@ == int_text(n as int),
{
    signed_text(false, n as u128)
}

/// Character-wise equality of two strings.
pub fn str_eq(a: &str, b: &str) -> (r: bool)
    ensures
        r == (a@ == b@),
{
    let la = a.unicode_len();
    let lb = b.unicode_len();
    if la != lb {
        return false;
    }
    let mut i: usize = 0;
    while i < la
        invariant
            la == a@.len(),
            lb == b@.len(),
            la == lb,
            i <= la,
            a@.subrange(0, i as int) == b@.subrange(0, i as int),
        decreases la - i,
    {
        if a.get_char(i) != b.get_char(i) {
            assert(a@[i as int] != b@[i as int]);
            return false;
        }
        assert(a@.subrange(0, i + 1) == a@.subrange(0, i as int).push(a@[i as int]));
        assert(b@.subrange(0, i + 1) == b@.subrange(0, i as int).push(b@[i as int]));
        i = i + 1;
    }
    assert(a@ == a@.subrange(0, la as int));
    assert(b@ == b@.subrange(0, lb as int));
    true
}

/// Whether `needle` occurs in `hay` as a contiguous run of characters.
pub open spec fn contains_text(hay: Seq<char>, needle: Seq<char>) -> bool {
    exists|k: int| 0 <= k && k + needle.len() <= hay.len() && #[trigger] hay.subrange(k, k + needle.len()) == needle
}

/// Whether `needle` occurs in `hay`.
pub fn str_contains(hay: &str, needle: &str) -> (r: bool)
    ensures
        r == contains_text(hay@, needle@),
{
    let lh = hay.unicode_len();
    let ln = needle.unicode_len();
    if ln == 0 {
        assert(hay@.subrange(0, 0 + needle@.len() as int) =~= needle@);
        return true;
    }
    if ln > lh {
        return false;
    }
    let last = lh - ln;
    let mut k: usize = 0;
    while k < last + 1
        invariant
            lh == hay@.len(),
            ln == needle@.len(),
            0 < ln <= lh,
            last == lh - ln,
            k <= last + 1,
            forall|j: int| 0 <= j < k ==> #[trigger] hay@.subrange(j, j + ln) != needle@,
        decreases last + 1 - k,
    {
        let mut i: usize = 0;
        let mut same = true;
        assert(hay@.subrange(k as int, k as int) =~= needle@.subrange(0, 0));
        while i < ln
            invariant
                lh == hay@.len(),
                ln == needle@.len(),
                k + ln <= lh,
                i <= ln,
                same == (hay@.subrange(k as int, k + i) == needle@.subrange(0, i as int)),
            decreases ln - i,
        {
            if same && hay.get_char(k + i) != needle.get_char(i) {
                assert(hay@.subrange(k as int, k + i + 1)[i as int] != needle@.subrange(0, i + 1)[i as int]);
                same = false;
            } else if same {
                assert(hay@.subrange(k as int, k + i + 1) == hay@.subrange(k as int, k + i).push(hay@[k + i]));
                assert(needle@.subrange(0, i + 1) == needle@.subrange(0, i as int).push(needle@[i as int]));
            } else {
                assert(hay@.subrange(k as int, k + i) == hay@.subrange(k as int, k + i + 1).subrange(0, i as int));
                assert(needle@.subrange(0, i as int) == needle@.subrange(0, i + 1).subrange(0, i as int));
            }
            i = i + 1;
        }
        assert(needle@.subrange(0, ln as int) == needle@);
        if same {
            assert(hay@.subrange(k as int, k + needle@.len() as int) == needle@);
            return true;
        }
        k = k + 1;
    }
    assert forall|j: int| 0 <= j && j + needle@.len() <= hay@.len() implies #[trigger] hay@.subrange(j, j + needle@.len()) != needle@ by {
        assert(j < k);
    }
    false
}

/// Joins two path components with one `/`: an absolute `rel` replaces `base`, an empty `base`
/// gives `rel`, and a `base` that already ends in `/` gets no second one.
pub open spec fn join_path(base: Seq<char>, rel: Seq<char>) -> Seq<char> {
    if rel.len() > 0 && rel[0] == '/' {
        rel
    } else if base.len() == 0 {
        rel
    } else if base[base.len() - 1] == '/' {
        base + rel
    } else {
        base + seq!['/'] + rel
    }
}

/// Joins `rel` onto `base` as a file-system path.
pub fn join(base: &str, rel: &str) -> (r: String)
    ensures
        r@ == join_path(base@, rel@),
{
    let lb = base.unicode_len();
    let lr = rel.unicode_len();
    if lr > 0 && rel.get_char(0) == '/' {
        return String::from_str(rel);
    }
    if lb == 0 {
        return String::from_str(rel);
    }
    let mut out = String::from_str(base);
    if base.get_char(lb - 1) != '/' {
        out.append("/");
        proof {
            reveal_strlit("/");
        }
    }
    out.append(rel);
    out
}

} // verus!
