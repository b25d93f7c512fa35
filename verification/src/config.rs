//! Configuration resolution: merges command-line flags, prior persisted
//! configuration and interactive answers into a complete, validated
//! configuration record, with the precedence flags > prior config >
//! interactive answer > schema default.
//!
//! Prompting itself is terminal work and stays in the binary; the
//! resolver receives the collected answers (or `None` when the run is
//! non-interactive) and decides everything else.

use vstd::prelude::*;
use crate::errors::KintError;
use crate::registry::{OptionKind, OptionSpec, OptionView, ServiceDescriptor, ServiceId};
use crate::text::{all_digits, assoc, dec_value, lookup, parse_bounded_decimal, pairs_view};

verus! {

/// A resolved configuration record: one value per schema option, in
/// schema order.
#[derive(Debug)]
pub struct ServiceConfig {
    pub service: ServiceId,
    pub values: Vec<(String, String)>,
}

/// Whether `m` sets `k` to a non-empty value; empty entries count as
/// unset.
pub open spec fn spec_set(m: Seq<(Seq<char>, Seq<char>)>, k: Seq<char>) -> bool {
    match assoc(m, k) {
        Some(v) => v.len() > 0,
        None => false,
    }
}

/// The value `m` sets `k` to, or empty.
pub open spec fn spec_get(m: Seq<(Seq<char>, Seq<char>)>, k: Seq<char>) -> Seq<char> {
    match assoc(m, k) {
        Some(v) => v,
        None => Seq::empty(),
    }
}

/// View of the optional interactive answers.
pub open spec fn spec_answers(a: Option<&Vec<(String, String)>>) -> Option<
    Seq<(Seq<char>, Seq<char>)>,
> {
    match a {
        Some(v) => Some(pairs_view(v@)),
        None => None,
    }
}

/// The value an option resolves to: the first non-empty among the flag
/// value, the prior value and the interactive answer, else the schema
/// default.
pub open spec fn spec_effective(
    o: OptionView,
    flags: Seq<(Seq<char>, Seq<char>)>,
    prior: Seq<(Seq<char>, Seq<char>)>,
    answers: Option<Seq<(Seq<char>, Seq<char>)>>,
) -> Seq<char> {
    if spec_set(flags, o.name) {
        spec_get(flags, o.name)
    } else if spec_set(prior, o.name) {
        spec_get(prior, o.name)
    } else {
        match answers {
            Some(a) => if spec_set(a, o.name) {
                spec_get(a, o.name)
            } else {
                o.fallback
            },
            None => o.fallback,
        }
    }
}

/// Whether a value fits an option kind.
pub open spec fn spec_value_ok(kind: OptionKind, v: Seq<char>) -> bool {
    match kind {
        OptionKind::Text => true,
        OptionKind::Port => v.len() > 0 && all_digits(v) && dec_value(v) <= u16::MAX,
    }
}

/// Whether an option resolves without a problem: required options end
/// up non-empty, and a non-empty value fits the option's kind.
pub open spec fn spec_option_ok(
    o: OptionView,
    flags: Seq<(Seq<char>, Seq<char>)>,
    prior: Seq<(Seq<char>, Seq<char>)>,
    answers: Option<Seq<(Seq<char>, Seq<char>)>>,
) -> bool {
    let v = spec_effective(o, flags, prior, answers);
    (o.required ==> v.len() > 0) && (v.len() > 0 ==> spec_value_ok(o.kind, v))
}

/// The first schema option that does not resolve, if any; resolution
/// reports the first problem it meets.
pub open spec fn spec_first_bad(
    schema: Seq<OptionView>,
    flags: Seq<(Seq<char>, Seq<char>)>,
    prior: Seq<(Seq<char>, Seq<char>)>,
    answers: Option<Seq<(Seq<char>, Seq<char>)>>,
) -> Option<OptionView>
    decreases schema.len(),
{
    if schema.len() == 0 {
        None
    } else if !spec_option_ok(schema[0], flags, prior, answers) {
        Some(schema[0])
    } else {
        spec_first_bad(schema.skip(1), flags, prior, answers)
    }
}

/// What resolution returns: a full record in schema order when every
/// option resolves, else the error matching the first problem.
pub open spec fn spec_resolver_post(
    r: &Result<ServiceConfig, KintError>,
    id: ServiceId,
    schema: Seq<OptionView>,
    flags: Seq<(Seq<char>, Seq<char>)>,
    prior: Seq<(Seq<char>, Seq<char>)>,
    answers: Option<Seq<(Seq<char>, Seq<char>)>>,
) -> bool {
    match spec_first_bad(schema, flags, prior, answers) {
        None => r matches Ok(c) && c.service == id && c.values@.len() == schema.len() && (forall|
            j: int,
        |
            0 <= j < schema.len() ==> {
                let entry = #[trigger] c.values@[j];
                entry.0@ == schema[j].name && entry.1@ == spec_effective(
                    schema[j],
                    flags,
                    prior,
                    answers,
                )
            }),
        Some(o) => if o.required && spec_effective(o, flags, prior, answers).len() == 0 {
            r matches Err(e) && e matches KintError::IncompleteConfiguration { option } && option@
                == o.name
        } else {
            r matches Err(e) && e matches KintError::InvalidOptionValue { option, reason }
                && option@ == o.name && reason@ == "not a valid port number"@
        },
    }
}

/// First bad option found at index `i` with a clean prefix: it is the
/// first bad option of the whole schema.
proof fn lemma_first_bad_here(
    schema: Seq<OptionView>,
    flags: Seq<(Seq<char>, Seq<char>)>,
    prior: Seq<(Seq<char>, Seq<char>)>,
    answers: Option<Seq<(Seq<char>, Seq<char>)>>,
    i: int,
)
    requires
        0 <= i < schema.len(),
        forall|j: int| 0 <= j < i ==> spec_option_ok(#[trigger] schema[j], flags, prior, answers),
        !spec_option_ok(schema[i], flags, prior, answers),
    ensures
        spec_first_bad(schema, flags, prior, answers) == Some(schema[i]),
    decreases i,
{
    if i > 0 {
        lemma_first_bad_here(schema.skip(1), flags, prior, answers, i - 1);
    }
}

/// A schema with no bad option has no first bad option.
proof fn lemma_first_bad_none(
    schema: Seq<OptionView>,
    flags: Seq<(Seq<char>, Seq<char>)>,
    prior: Seq<(Seq<char>, Seq<char>)>,
    answers: Option<Seq<(Seq<char>, Seq<char>)>>,
)
    requires
        forall|j: int|
            0 <= j < schema.len() ==> spec_option_ok(#[trigger] schema[j], flags, prior, answers),
    ensures
        spec_first_bad(schema, flags, prior, answers) is None,
    decreases schema.len(),
{
    if schema.len() > 0 {
        lemma_first_bad_none(schema.skip(1), flags, prior, answers);
    }
}

/// The value one option resolves to, by the precedence chain.
fn effective_value(
    o: &OptionSpec,
    flags: &Vec<(String, String)>,
    prior: &Vec<(String, String)>,
    answers: Option<&Vec<(String, String)>>,
) -> (v: String)
    ensures
        v@ == spec_effective(o@, pairs_view(flags@), pairs_view(prior@), spec_answers(answers)),
{
    if let Some(s) = lookup(flags, o.name.as_str()) {
        if !s.as_str().is_empty() {
            return s;
        }
    }
    if let Some(s) = lookup(prior, o.name.as_str()) {
        if !s.as_str().is_empty() {
            return s;
        }
    }
    if let Some(a) = answers {
        if let Some(s) = lookup(a, o.name.as_str()) {
            if !s.as_str().is_empty() {
                return s;
            }
        }
    }
    o.fallback.clone()
}

/// Resolves the full configuration of a service against its schema.
///
/// Precedence per option: flag, then prior config, then interactive
/// answer, then schema default; empty values never count as set. The
/// result carries one value per schema option, in schema order. The
/// first required option left empty yields `IncompleteConfiguration`;
/// the first non-empty value that does not fit its option's kind yields
/// `InvalidOptionValue`.
pub fn resolve_config(
    desc: &ServiceDescriptor,
    flags: &Vec<(String, String)>,
    prior: &Vec<(String, String)>,
    answers: Option<&Vec<(String, String)>>,
) -> (r: Result<ServiceConfig, KintError>)
    ensures
        spec_resolver_post(
            &r,
            desc.service,
            desc@.schema,
            pairs_view(flags@),
            pairs_view(prior@),
            spec_answers(answers),
        ),
{
    let ghost fv = pairs_view(flags@);
    let ghost pv = pairs_view(prior@);
    let ghost av = spec_answers(answers);
    let n = desc.schema.len();
    let mut values: Vec<(String, String)> = Vec::new();
    let mut i: usize = 0;
    while i < n
        invariant
            0 <= i <= n,
            n == desc.schema@.len(),
            desc@.schema.len() == n,
            fv == pairs_view(flags@),
            pv == pairs_view(prior@),
            av == spec_answers(answers),
            forall|j: int| 0 <= j < i ==> spec_option_ok(#[trigger] desc@.schema[j], fv, pv, av),
            values@.len() == i,
            forall|j: int|
                0 <= j < i ==> (#[trigger] values@[j]).0@ == desc@.schema[j].name && values@[j].1@
                    == spec_effective(desc@.schema[j], fv, pv, av),
        decreases n - i,
    {
        let o = &desc.schema[i];
        proof {
            assert(o@ == desc@.schema[i as int]);
        }
        let v = effective_value(o, flags, prior, answers);
        let is_empty = v.as_str().is_empty();
        if o.required && is_empty {
            proof {
                lemma_first_bad_here(desc@.schema, fv, pv, av, i as int);
            }
            return Err(KintError::IncompleteConfiguration { option: o.name.clone() });
        }
        if !is_empty && matches!(o.kind, OptionKind::Port) {
            if parse_bounded_decimal(v.as_str()).is_none() {
                proof {
                    lemma_first_bad_here(desc@.schema, fv, pv, av, i as int);
                }
                return Err(
                    KintError::InvalidOptionValue {
                        option: o.name.clone(),
                        reason: "not a valid port number".to_owned(),
                    },
                );
            }
        }
        values.push((o.name.clone(), v));
        i = i + 1;
    }
    proof {
        lemma_first_bad_none(desc@.schema, fv, pv, av);
    }
    Ok(ServiceConfig { service: desc.service, values })
}

} // verus!
