//! Bounded log aggregation: the last lines of each service's persisted
//! log, interleaved in arrival order and tagged with their source.
//!
//! Reading the log files — and the unbounded follow mode, which blocks
//! on live reads — is the binary's work; the library is the pure,
//! restartable part: the same inputs always aggregate to the same
//! lines.

use vstd::prelude::*;
use crate::errors::KintError;
use crate::registry::ServiceId;
use crate::text::{all_digits, dec_value, parse_bounded_decimal, str_eq};

verus! {

/// One log line, tagged with the service it came from and its arrival
/// stamp.
#[derive(Debug, PartialEq, Eq)]
pub struct LogLine {
    pub service: ServiceId,
    /// Monotone arrival stamp within and across sources.
    pub arrival: u64,
    pub text: String,
}

/// How logs are delivered.
#[derive(Debug, Clone, Copy, PartialEq, Eq, Structural)]
pub enum LogMode {
    /// At most the last `n` lines per service, then the sequence ends.
    Bounded(u16),
    /// Unbounded live follow until cancelled.
    Follow,
}

/// Whether a line sequence is ordered by arrival.
pub open spec fn sorted_by_arrival(s: Seq<LogLine>) -> bool {
    forall|i: int, j: int| 0 <= i < j < s.len() ==> s[i].arrival <= s[j].arrival
}

/// The last `n` lines of a log, all of them when it is shorter.
pub open spec fn spec_tail(s: Seq<LogLine>, n: int) -> Seq<LogLine> {
    if s.len() <= n {
        s
    } else {
        s.skip(s.len() - n)
    }
}

/// Two arrival-ordered logs merged into one, earliest arrival first;
/// on equal stamps the first log's line goes first.
pub open spec fn spec_merge(a: Seq<LogLine>, b: Seq<LogLine>) -> Seq<LogLine>
    decreases a.len() + b.len(),
{
    if a.len() == 0 {
        b
    } else if b.len() == 0 {
        a
    } else if a[0].arrival <= b[0].arrival {
        seq![a[0]] + spec_merge(a.skip(1), b)
    } else {
        seq![b[0]] + spec_merge(a, b.skip(1))
    }
}

/// A copy of one line.
fn clone_line(l: &LogLine) -> (r: LogLine)
    ensures
        r == *l,
{
    LogLine { service: l.service, arrival: l.arrival, text: l.text.clone() }
}

/// The last `n` lines of one log.
pub fn tail(lines: &Vec<LogLine>, n: usize) -> (r: Vec<LogLine>)
    ensures
        r@ == spec_tail(lines@, n as int),
{
    let len = lines.len();
    let start: usize = if len <= n {
        0
    } else {
        len - n
    };
    let mut r: Vec<LogLine> = Vec::new();
    let mut i: usize = start;
    while i < len
        invariant
            start <= i <= len,
            len == lines@.len(),
            r@ == lines@.subrange(start as int, i as int),
        decreases len - i,
    {
        r.push(clone_line(&lines[i]));
        proof {
            assert(r@ =~= lines@.subrange(start as int, i as int + 1));
        }
        i = i + 1;
    }
    proof {
        assert(lines@.subrange(start as int, len as int) =~= spec_tail(lines@, n as int));
    }
    r
}

/// Merges two arrival-ordered logs into one.
pub fn merge(a: &Vec<LogLine>, b: &Vec<LogLine>) -> (r: Vec<LogLine>)
    ensures
        r@ == spec_merge(a@, b@),
{
    let la = a.len();
    let lb = b.len();
    let mut r: Vec<LogLine> = Vec::new();
    let mut i: usize = 0;
    let mut j: usize = 0;
    proof {
        assert(a@.skip(0) =~= a@);
        assert(b@.skip(0) =~= b@);
    }
    while i < la || j < lb
        invariant
            0 <= i <= la,
            0 <= j <= lb,
            la == a@.len(),
            lb == b@.len(),
            spec_merge(a@, b@) == r@ + spec_merge(a@.skip(i as int), b@.skip(j as int)),
        decreases la - i + lb - j,
    {
        let take_a: bool = if j >= lb {
            true
        } else if i >= la {
            false
        } else {
            a[i].arrival <= b[j].arrival
        };
        if take_a {
            proof {
                let ra = a@.skip(i as int);
                let rb = b@.skip(j as int);
                assert(ra[0] == a@[i as int]);
                assert(ra.skip(1) =~= a@.skip(i as int + 1));
                if rb.len() == 0 {
                    assert(spec_merge(ra, rb) =~= seq![ra[0]] + spec_merge(ra.skip(1), rb));
                }
                assert(spec_merge(ra, rb) == seq![a@[i as int]] + spec_merge(
                    a@.skip(i as int + 1),
                    rb,
                ));
                assert((r@ + spec_merge(ra, rb)) =~= (r@.push(a@[i as int]) + spec_merge(
                    a@.skip(i as int + 1),
                    rb,
                )));
            }
            r.push(clone_line(&a[i]));
            i = i + 1;
        } else {
            proof {
                let ra = a@.skip(i as int);
                let rb = b@.skip(j as int);
                assert(rb[0] == b@[j as int]);
                assert(rb.skip(1) =~= b@.skip(j as int + 1));
                if ra.len() == 0 {
                    assert(spec_merge(ra, rb) =~= seq![rb[0]] + spec_merge(ra, rb.skip(1)));
                }
                assert(spec_merge(ra, rb) == seq![b@[j as int]] + spec_merge(
                    ra,
                    b@.skip(j as int + 1),
                ));
                assert((r@ + spec_merge(ra, rb)) =~= (r@.push(b@[j as int]) + spec_merge(
                    ra,
                    b@.skip(j as int + 1),
                )));
            }
            r.push(clone_line(&b[j]));
            j = j + 1;
        }
    }
    proof {
        assert(a@.skip(la as int) =~= Seq::<LogLine>::empty());
        assert(b@.skip(lb as int) =~= Seq::<LogLine>::empty());
        assert(spec_merge(a@.skip(la as int), b@.skip(lb as int)) =~= Seq::<LogLine>::empty());
        assert(spec_merge(a@, b@) =~= r@);
    }
    r
}

/// Everything in `s` arrives no earlier than `x`: so does everything
/// in a merge of two such logs.
proof fn lemma_merge_lower_bound(a: Seq<LogLine>, b: Seq<LogLine>, x: u64)
    requires
        forall|i: int| 0 <= i < a.len() ==> x <= #[trigger] a[i].arrival,
        forall|i: int| 0 <= i < b.len() ==> x <= #[trigger] b[i].arrival,
    ensures
        forall|i: int|
            0 <= i < spec_merge(a, b).len() ==> x <= #[trigger] spec_merge(a, b)[i].arrival,
    decreases a.len() + b.len(),
{
    if a.len() > 0 && b.len() > 0 {
        if a[0].arrival <= b[0].arrival {
            lemma_merge_lower_bound(a.skip(1), b, x);
        } else {
            lemma_merge_lower_bound(a, b.skip(1), x);
        }
    }
}

/// Merging keeps arrival order: the merge of two arrival-ordered logs
/// is arrival-ordered, and exactly as long as the two together.
pub proof fn lemma_merge_sorted(a: Seq<LogLine>, b: Seq<LogLine>)
    requires
        sorted_by_arrival(a),
        sorted_by_arrival(b),
    ensures
        sorted_by_arrival(spec_merge(a, b)),
        spec_merge(a, b).len() == a.len() + b.len(),
    decreases a.len() + b.len(),
{
    if a.len() > 0 && b.len() > 0 {
        if a[0].arrival <= b[0].arrival {
            let h = a[0];
            assert(sorted_by_arrival(a.skip(1)));
            lemma_merge_sorted(a.skip(1), b);
            lemma_merge_lower_bound(a.skip(1), b, h.arrival);
            assert(forall|i: int|
                0 <= i < spec_merge(a.skip(1), b).len() ==> h.arrival <= #[trigger] spec_merge(
                    a.skip(1),
                    b,
                )[i].arrival);
        } else {
            let h = b[0];
            assert(sorted_by_arrival(b.skip(1)));
            lemma_merge_sorted(a, b.skip(1));
            lemma_merge_lower_bound(a, b.skip(1), h.arrival);
        }
    }
}

/// Merging loses nothing and invents nothing: the merge of two logs
/// holds exactly the lines of both, only reordered.
pub proof fn lemma_merge_content(a: Seq<LogLine>, b: Seq<LogLine>)
    ensures
        spec_merge(a, b).to_multiset() == (a + b).to_multiset(),
    decreases a.len() + b.len(),
{
    broadcast use vstd::multiset::group_multiset_axioms;

    if a.len() == 0 {
        assert(a + b =~= b);
    } else if b.len() == 0 {
        assert(a + b =~= a);
    } else if a[0].arrival <= b[0].arrival {
        let h = seq![a[0]];
        let m = spec_merge(a.skip(1), b);
        lemma_merge_content(a.skip(1), b);
        vstd::seq_lib::lemma_multiset_commutative(h, m);
        vstd::seq_lib::lemma_multiset_commutative(h, a.skip(1) + b);
        assert(h + (a.skip(1) + b) =~= a + b);
    } else {
        let h = seq![b[0]];
        let bs = b.skip(1);
        let m = spec_merge(a, bs);
        lemma_merge_content(a, bs);
        vstd::seq_lib::lemma_multiset_commutative(h, m);
        vstd::seq_lib::lemma_multiset_commutative(a, b);
        vstd::seq_lib::lemma_multiset_commutative(a, bs);
        vstd::seq_lib::lemma_multiset_commutative(h, bs);
        assert(h + bs =~= b);
        assert(h.to_multiset().add(a.to_multiset().add(bs.to_multiset()))
            =~= a.to_multiset().add(h.to_multiset().add(bs.to_multiset())));
    }
}

/// The bounded log aggregate: the last `n` lines of each service's
/// log, interleaved in arrival order. A pure function of its inputs:
/// re-invoking it re-reads nothing and yields the same lines.
pub fn aggregate_bounded(bitcoin: &Vec<LogLine>, vault: &Vec<LogLine>, n: usize) -> (r: Vec<
    LogLine,
>)
    ensures
        r@ == spec_merge(spec_tail(bitcoin@, n as int), spec_tail(vault@, n as int)),
{
    let tb = tail(bitcoin, n);
    let tv = tail(vault, n);
    merge(&tb, &tv)
}

/// The delivery mode a `logs` argument asks for: no argument means the
/// last 1000 lines; `now` means live follow; a numeral means that many
/// last lines.
pub open spec fn spec_logs_mode(arg: Option<Seq<char>>) -> Option<LogMode> {
    match arg {
        None => Some(LogMode::Bounded(1000)),
        Some(s) => if s == "now"@ {
            Some(LogMode::Follow)
        } else if s.len() > 0 && all_digits(s) && dec_value(s) <= u16::MAX {
            Some(LogMode::Bounded(dec_value(s) as u16))
        } else {
            None
        },
    }
}

/// Parses the `logs` argument into a delivery mode; an argument that is
/// neither `now` nor a line count is rejected.
pub fn logs_mode(arg: Option<&str>) -> (r: Result<LogMode, KintError>)
    ensures
        match spec_logs_mode(
            match arg {
                Some(s) => Some(s@),
                None => None,
            },
        ) {
            Some(m) => r matches Ok(got) && got == m,
            None => r matches Err(e) && (e matches KintError::InvalidOptionValue { option, reason }
                && option@ == "logs"@ && reason@ == "expected now or a line count"@),
        },
{
    match arg {
        None => Ok(LogMode::Bounded(1000)),
        Some(s) => {
            if str_eq(s, "now") {
                Ok(LogMode::Follow)
            } else {
                match parse_bounded_decimal(s) {
                    Some(v) => Ok(LogMode::Bounded(v)),
                    None => Err(
                        KintError::InvalidOptionValue {
                            option: "logs".to_owned(),
                            reason: "expected now or a line count".to_owned(),
                        },
                    ),
                }
            }
        },
    }
}

} // verus!
