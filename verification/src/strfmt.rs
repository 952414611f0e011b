//! Verified construction of the short strings the relay surfaces: decimal
//! numbers, `host:port` addresses and human-readable durations.

use vstd::prelude::*;
use vstd::string::StrSliceExecFns;
use vstd::string::StringExecFns;

verus! {

/// The contents of each string in `rs`.
pub open spec fn str_views(rs: Seq<String>) -> Seq<Seq<char>> {
    rs.map_values(|s: String| s@)
}

/// The decimal digit character for `d`, meaningful for `d < 10`.
pub open spec fn spec_digit_char(d: nat) -> char {
    if d == 0 {
        '0'
    } else if d == 1 {
        '1'
    } else if d == 2 {
        '2'
    } else if d == 3 {
        '3'
    } else if d == 4 {
        '4'
    } else if d == 5 {
        '5'
    } else if d == 6 {
        '6'
    } else if d == 7 {
        '7'
    } else if d == 8 {
        '8'
    } else {
        '9'
    }
}

/// The decimal rendering of `n`, most significant digit first, no sign and
/// no leading zeros (except for `n == 0` itself).
pub open spec fn spec_dec(n: nat) -> Seq<char>
    decreases n,
{
    if n < 10 {
        seq![spec_digit_char(n)]
    } else {
        spec_dec(n / 10).push(spec_digit_char(n % 10))
    }
}

fn digit_str(d: u64) -> (r: &'static str)
    requires
        d < 10,
    ensures
        r@ == seq![spec_digit_char(d as nat)],
{
    proof {
        reveal_strlit("0");
        reveal_strlit("1");
        reveal_strlit("2");
        reveal_strlit("3");
        reveal_strlit("4");
        reveal_strlit("5");
        reveal_strlit("6");
        reveal_strlit("7");
        reveal_strlit("8");
        reveal_strlit("9");
    }
    let r: &'static str = match d {
        0 => "0",
        1 => "1",
        2 => "2",
        3 => "3",
        4 => "4",
        5 => "5",
        6 => "6",
        7 => "7",
        8 => "8",
        _ => "9",
    };
    proof {
        assert(r@ =~= seq![spec_digit_char(d as nat)]);
    }
    r
}

/// Renders `n` in decimal.
pub fn u64_to_string(n: u64) -> (r: String)
    ensures
        r@ == spec_dec(n as nat),
    decreases n,
{
    if n < 10 {
        let mut s = String::new();
        s.append(digit_str(n));
        proof {
            assert(s@ =~= spec_dec(n as nat));
        }
        s
    } else {
        let mut s = u64_to_string(n / 10);
        s.append(digit_str(n % 10));
        proof {
            assert(s@ =~= spec_dec(n as nat));
        }
        s
    }
}

/// String equality by contents.
pub fn str_eq(a: &str, b: &str) -> (r: bool)
    ensures
        r == (a@ == b@),
{
    let sa: String = a.to_owned();
    let sb: String = b.to_owned();
    sa == sb
}

/// A `host:port` address.
pub open spec fn spec_addr(host: Seq<char>, port: nat) -> Seq<char> {
    host + ":"@ + spec_dec(port)
}

/// Renders `host:port`.
pub fn format_addr(host: &str, port: u16) -> (r: String)
    ensures
        r@ == spec_addr(host@, port as nat),
{
    let mut s: String = host.to_owned();
    s.append(":");
    let p = u64_to_string(port as u64);
    s.append(p.as_str());
    proof {
        assert(s@ =~= spec_addr(host@, port as nat));
    }
    s
}

/// A duration of `total` seconds rendered as `XhYm`, `YmZs` or `Zs`,
/// depending on its largest non-zero unit.
pub open spec fn spec_duration(total: nat) -> Seq<char> {
    let hours = total / 3600;
    let minutes = (total % 3600) / 60;
    let seconds = total % 60;
    if hours > 0 {
        spec_dec(hours) + "h"@ + spec_dec(minutes) + "m"@
    } else if minutes > 0 {
        spec_dec(minutes) + "m"@ + spec_dec(seconds) + "s"@
    } else {
        spec_dec(seconds) + "s"@
    }
}

/// Renders a duration of `total_secs` seconds for display.
pub fn format_duration(total_secs: u64) -> (r: String)
    ensures
        r@ == spec_duration(total_secs as nat),
{
    let hours = total_secs / 3600;
    let minutes = (total_secs % 3600) / 60;
    let seconds = total_secs % 60;
    if hours > 0 {
        let mut s = u64_to_string(hours);
        s.append("h");
        let m = u64_to_string(minutes);
        s.append(m.as_str());
        s.append("m");
        proof {
            assert(s@ =~= spec_duration(total_secs as nat));
        }
        s
    } else if minutes > 0 {
        let mut s = u64_to_string(minutes);
        s.append("m");
        let sec = u64_to_string(seconds);
        s.append(sec.as_str());
        s.append("s");
        proof {
            assert(s@ =~= spec_duration(total_secs as nat));
        }
        s
    } else {
        let mut s = u64_to_string(seconds);
        s.append("s");
        proof {
            assert(s@ =~= spec_duration(total_secs as nat));
        }
        s
    }
}

/// The characters of `s`, as a vector.
pub fn chars_of(s: &str) -> (r: Vec<char>)
    ensures
        r@ == s@,
{
    let n = s.unicode_len();
    let mut r: Vec<char> = Vec::with_capacity(n);
    let mut i: usize = 0;
    while i < n
        invariant
            n == s@.len(),
            i <= n,
            r@ == s@.take(i as int),
        decreases n - i,
    {
        r.push(s.get_char(i));
        proof {
            assert(r@ =~= s@.take(i + 1));
        }
        i += 1;
    }
    proof {
        assert(s@.take(n as int) =~= s@);
    }
    r
}

/// `needle` occurs in `hay` starting at position `i`.
pub open spec fn seq_matches_at(hay: Seq<char>, needle: Seq<char>, i: int) -> bool {
    0 <= i && i + needle.len() <= hay.len() && hay.subrange(i, i + needle.len()) == needle
}

/// `needle` occurs somewhere in `hay`.
pub open spec fn spec_str_contains(hay: Seq<char>, needle: Seq<char>) -> bool {
    exists|i: int| seq_matches_at(hay, needle, i)
}

/// Substring search by characters.
pub fn str_contains(hay: &str, needle: &str) -> (r: bool)
    ensures
        r == spec_str_contains(hay@, needle@),
{
    let h = chars_of(hay);
    let n = chars_of(needle);
    let hn = h.len();
    let nn = n.len();
    if nn > hn {
        proof {
            assert(forall|i: int| !seq_matches_at(hay@, needle@, i));
        }
        return false;
    }
    if nn == 0 {
        proof {
            assert(hay@.subrange(0, 0) =~= needle@);
            assert(seq_matches_at(hay@, needle@, 0));
        }
        return true;
    }
    let mut i: usize = 0;
    while i <= hn - nn
        invariant
            h@ == hay@,
            n@ == needle@,
            hn == hay@.len(),
            nn == needle@.len(),
            1 <= nn <= hn,
            i <= hn - nn + 1,
            forall|k: int| 0 <= k < i ==> !seq_matches_at(hay@, needle@, k),
        decreases hn - nn - i + 1,
    {
        let mut j: usize = 0;
        let mut matched = true;
        proof {
            assert(hay@.subrange(i as int, i as int) =~= needle@.take(0));
        }
        while j < nn
            invariant
                h@ == hay@,
                n@ == needle@,
                hn == hay@.len(),
                nn == needle@.len(),
                i + nn <= hn,
                j <= nn,
                matched == (hay@.subrange(i as int, i + j) == needle@.take(j as int)),
            decreases nn - j,
        {
            let ghost pre = matched;
            if h[i + j] != n[j] {
                matched = false;
            }
            proof {
                if pre && hay@[i + j] == needle@[j as int] {
                    assert(hay@.subrange(i as int, i + j + 1) =~= hay@.subrange(i as int, i + j)
                        .push(hay@[i + j]));
                    assert(needle@.take(j + 1) =~= needle@.take(j as int).push(
                        needle@[j as int],
                    ));
                } else {
                    assert(hay@.subrange(i as int, i + j + 1)[j as int] == hay@[i + j]);
                    assert(needle@.take(j + 1)[j as int] == needle@[j as int]);
                    if pre {
                        assert(hay@.subrange(i as int, i + j + 1) != needle@.take(j + 1));
                    } else {
                        assert(hay@.subrange(i as int, i + j) != needle@.take(j as int));
                        assert(hay@.subrange(i as int, i + j + 1).take(j as int) =~= hay@
                            .subrange(i as int, i + j));
                        assert(needle@.take(j + 1).take(j as int) =~= needle@.take(j as int));
                        assert(hay@.subrange(i as int, i + j + 1) != needle@.take(j + 1));
                    }
                }
            }
            j += 1;
        }
        if matched {
            proof {
                assert(needle@.take(nn as int) =~= needle@);
                assert(seq_matches_at(hay@, needle@, i as int));
            }
            return true;
        }
        proof {
            assert(needle@.take(nn as int) =~= needle@);
            assert(!seq_matches_at(hay@, needle@, i as int));
        }
        i += 1;
    }
    proof {
        assert(forall|k: int| seq_matches_at(hay@, needle@, k) ==> 0 <= k <= hn - nn);
    }
    false
}

/// `c` is a decimal digit.
pub open spec fn is_digit(c: char) -> bool {
    48 <= c as u32 <= 57
}

/// The value of the digit `c`.
pub open spec fn spec_digit_val(c: char) -> nat {
    (c as u32 - 48) as nat
}

/// Every character of `s` is a decimal digit.
pub open spec fn spec_all_digits(s: Seq<char>) -> bool {
    forall|i: int| 0 <= i < s.len() ==> is_digit(#[trigger] s[i])
}

/// The number a digit string denotes, most significant digit first.
pub open spec fn spec_digits_val(s: Seq<char>) -> nat
    decreases s.len(),
{
    if s.len() == 0 {
        0
    } else {
        spec_digits_val(s.drop_last()) * 10 + spec_digit_val(s.last())
    }
}

/// A longer digit prefix never denotes a smaller number.
proof fn lemma_digits_val_take_monotone(s: Seq<char>, i: int)
    requires
        0 <= i <= s.len(),
    ensures
        spec_digits_val(s) >= spec_digits_val(s.take(i)),
    decreases s.len() - i,
{
    if i < s.len() {
        lemma_digits_val_take_monotone(s, i + 1);
        assert(s.take(i + 1).drop_last() =~= s.take(i));
        assert(spec_digits_val(s.take(i + 1)) == spec_digits_val(s.take(i)) * 10
            + spec_digit_val(s.take(i + 1).last()));
    } else {
        assert(s.take(i) =~= s);
    }
}

/// Reads `s` as a decimal number: `Some` exactly when `s` is non-empty,
/// all digits, and its value fits in a `u64`.
pub fn parse_u64(s: &str) -> (r: Option<u64>)
    ensures
        match r {
            Some(n) => s@.len() > 0 && spec_all_digits(s@) && n == spec_digits_val(s@),
            None => s@.len() == 0 || !spec_all_digits(s@) || spec_digits_val(s@) > u64::MAX,
        },
{
    let v = chars_of(s);
    let n = v.len();
    if n == 0 {
        return None;
    }
    let mut acc: u64 = 0;
    let mut i: usize = 0;
    while i < n
        invariant
            v@ == s@,
            n == s@.len(),
            i <= n,
            spec_all_digits(s@.take(i as int)),
            acc == spec_digits_val(s@.take(i as int)),
        decreases n - i,
    {
        let c = v[i];
        let cp = c as u32;
        if cp < 48 || cp > 57 {
            proof {
                assert(s@[i as int] == c);
                assert(!is_digit(s@[i as int]));
            }
            return None;
        }
        let d = (cp - 48) as u64;
        proof {
            assert(s@[i as int] == c);
            assert(is_digit(c));
            assert(d == spec_digit_val(c));
            assert(s@.take(i + 1).drop_last() =~= s@.take(i as int));
            assert(s@.take(i + 1).last() == s@[i as int]);
            assert(spec_digits_val(s@.take(i + 1)) == spec_digits_val(s@.take(i as int)) * 10
                + spec_digit_val(c));
            assert forall|j: int| 0 <= j < i + 1 implies is_digit(#[trigger] s@.take(i + 1)[j]) by {
                assert(s@.take(i + 1)[j] == s@[j]);
                if j < i {
                    assert(s@.take(i as int)[j] == s@[j]);
                    assert(is_digit(s@.take(i as int)[j]));
                }
            }
        }
        if acc > (u64::MAX - d) / 10 {
            proof {
                assert(acc * 10 + d > u64::MAX) by {
                    assert(acc >= (u64::MAX - d) / 10 + 1);
                    assert(((u64::MAX - d) / 10 + 1) * 10 > u64::MAX - d);
                }
                assert(spec_digits_val(s@.take(i + 1)) > u64::MAX);
                lemma_digits_val_take_monotone(s@, i + 1);
            }
            return None;
        }
        acc = acc * 10 + d;
        i += 1;
    }
    proof {
        assert(s@.take(n as int) =~= s@);
    }
    Some(acc)
}

} // verus!
