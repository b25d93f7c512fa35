//! Small verified helpers on strings: equality and bounded decimal
//! parsing, used by the detector, the configuration resolver and the
//! log-mode parser.

use vstd::prelude::*;

verus! {

/// Exact string comparison, specified over the character views.
pub fn str_eq(a: &str, b: &str) -> (r: bool)
    ensures
        r == (a@ == b@),
{
    let sa: String = a.to_owned();
    let sb: String = b.to_owned();
    sa == sb
}

/// View of an optional string as an optional character sequence.
pub open spec fn opt_view(o: Option<String>) -> Option<Seq<char>> {
    match o {
        Some(s) => Some(s@),
        None => None,
    }
}

/// View of a list of string pairs as a list of character-sequence pairs.
pub open spec fn pairs_view(s: Seq<(String, String)>) -> Seq<(Seq<char>, Seq<char>)> {
    s.map_values(|p: (String, String)| (p.0@, p.1@))
}

/// First-match association lookup over a list of key/value pairs.
pub open spec fn assoc(s: Seq<(Seq<char>, Seq<char>)>, k: Seq<char>) -> Option<Seq<char>>
    decreases s.len(),
{
    if s.len() == 0 {
        None
    } else if s[0].0 == k {
        Some(s[0].1)
    } else {
        assoc(s.skip(1), k)
    }
}

/// Looks `key` up in `pairs`, first match wins.
pub fn lookup(pairs: &Vec<(String, String)>, key: &str) -> (r: Option<String>)
    ensures
        opt_view(r) == assoc(pairs_view(pairs@), key@),
{
    let n = pairs.len();
    let mut i: usize = 0;
    proof {
        assert(pairs_view(pairs@).skip(0) =~= pairs_view(pairs@));
    }
    while i < n
        invariant
            0 <= i <= n,
            n == pairs@.len(),
            assoc(pairs_view(pairs@), key@) == assoc(pairs_view(pairs@).skip(i as int), key@),
        decreases n - i,
    {
        if str_eq(pairs[i].0.as_str(), key) {
            proof {
                let p0 = pairs@[i as int];
                assert(pairs_view(pairs@).skip(i as int)[0] == (p0.0@, p0.1@));
            }
            return Some(pairs[i].1.clone());
        }
        proof {
            let rest = pairs_view(pairs@).skip(i as int);
            assert(rest[0] == (pairs@[i as int].0@, pairs@[i as int].1@));
            assert(rest.skip(1) =~= pairs_view(pairs@).skip(i as int + 1));
        }
        i = i + 1;
    }
    proof {
        assert(pairs_view(pairs@).skip(n as int) =~= Seq::<(Seq<char>, Seq<char>)>::empty());
    }
    None
}

/// Whether every character of `s` is an ASCII decimal digit.
pub open spec fn all_digits(s: Seq<char>) -> bool {
    forall|i: int| 0 <= i < s.len() ==> '0' <= #[trigger] s[i] <= '9'
}

/// Numeric value of one decimal digit character.
pub open spec fn digit_value(c: char) -> nat {
    (c as nat - '0' as nat) as nat
}

/// Value of a sequence of decimal digit characters, most significant first.
pub open spec fn dec_value(s: Seq<char>) -> nat
    decreases s.len(),
{
    if s.len() == 0 {
        0
    } else {
        dec_value(s.drop_last()) * 10 + digit_value(s.last())
    }
}

proof fn lemma_dec_value_monotone(s: Seq<char>)
    requires
        s.len() > 0,
    ensures
        dec_value(s) >= dec_value(s.drop_last()),
{
}

/// Parses a decimal numeral of value at most `u16::MAX`.
///
/// Returns `Some` exactly on non-empty all-digit strings whose value
/// fits, and then returns that value.
pub fn parse_bounded_decimal(s: &str) -> (r: Option<u16>)
    ensures
        match r {
            Some(v) => s@.len() > 0 && all_digits(s@) && dec_value(s@) == v,
            None => !(s@.len() > 0 && all_digits(s@) && dec_value(s@) <= u16::MAX),
        },
{
    let n: usize = s.unicode_len();
    if n == 0 {
        return None;
    }
    let mut acc: u32 = 0;
    let mut i: usize = 0;
    while i < n
        invariant
            0 <= i <= n,
            n == s@.len(),
            all_digits(s@.subrange(0, i as int)),
            acc == dec_value(s@.subrange(0, i as int)),
            acc <= u16::MAX,
        decreases n - i,
    {
        let c = s.get_char(i);
        if c < '0' || c > '9' {
            proof {
                assert(s@.subrange(0, i as int + 1)[i as int] == c);
                assert(!all_digits(s@));
            }
            return None;
        }
        let d: u32 = (c as u32) - ('0' as u32);
        let next: u32 = acc * 10 + d;
        proof {
            let pre = s@.subrange(0, i as int + 1);
            assert(pre.drop_last() =~= s@.subrange(0, i as int));
            assert(pre.last() == s@[i as int]);
            assert(dec_value(pre) == acc * 10 + d);
        }
        if next > u16::MAX as u32 {
            proof {
                let pre = s@.subrange(0, i as int + 1);
                assert(dec_value(pre) > u16::MAX);
                lemma_dec_value_suffix_monotone(s@, i as int + 1);
            }
            return None;
        }
        acc = next;
        i = i + 1;
        proof {
            assert(forall|j: int|
                0 <= j < i ==> '0' <= #[trigger] s@.subrange(0, i as int)[j] <= '9');
        }
    }
    proof {
        assert(s@.subrange(0, n as int) =~= s@);
    }
    Some(acc as u16)
}

/// If a prefix of `s` already has a value above `u16::MAX`, so does `s`.
proof fn lemma_dec_value_suffix_monotone(s: Seq<char>, k: int)
    requires
        0 <= k <= s.len(),
        dec_value(s.subrange(0, k)) > u16::MAX,
    ensures
        dec_value(s) > u16::MAX,
    decreases s.len() - k,
{
    if k < s.len() {
        let t = s.subrange(0, k + 1);
        assert(t.drop_last() =~= s.subrange(0, k));
        assert(dec_value(t) >= dec_value(s.subrange(0, k))) by {
            lemma_dec_value_monotone(t);
        }
        lemma_dec_value_suffix_monotone(s, k + 1);
    } else {
        assert(s.subrange(0, k) =~= s);
    }
}

} // verus!
