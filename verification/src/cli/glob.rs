//! Expansion of command-line inputs: glob patterns, literal paths and `-`.
use vstd::prelude::*;
use crate::text::{contains_char, owned, texts};

verus! {

/// Whether the `glob` crate accepts `pattern` as a pattern (`glob::glob`
/// returns `Ok`). This depends on the pattern's text alone; which paths then
/// match depends on the file system.
pub uninterp spec fn glob_pattern_accepted(pattern: Seq<char>) -> bool;

/// Runs `glob::glob` on the pattern: `None` when the crate rejects it, else
/// one entry per path that the iteration yields, in its order, `Some` with
/// the path's text or `None` where reading a directory failed. Trusted: the
/// contract claims only that rejection is decided by the pattern, as
/// `glob::glob_with` checks the pattern before touching the disk; the entries
/// depend on what is on disk and nothing is stated of them.
#[verifier::external_body]
fn glob_entries(pattern: &str) -> (r: Option<Vec<Option<String>>>)
    ensures
        r is Some <==> glob_pattern_accepted(pattern@),
{
    match glob::glob(pattern) {
        Ok(paths) => Some(paths.map(|entry| entry.ok().map(|p| p.to_string_lossy().into_owned())).collect()),
        Err(_) => None,
    }
}

/// Why an input could not be expanded.
#[derive(Debug, Clone, PartialEq, Eq)]
pub enum ExpandError {
    /// The glob pattern (given) was rejected.
    InvalidPattern(String),
}

impl ExpandError {
    /// The error's message.
    pub fn message(&self) -> (r: String)
        ensures
            r@ == "Failed to read glob pattern"@,
    {
        owned("Failed to read glob pattern")
    }
}

/// The paths kept from a glob iteration: those read without error, in order.
pub open spec fn kept_paths(entries: Seq<Option<String>>) -> Seq<Seq<char>>
    decreases entries.len(),
{
    if entries.len() == 0 {
        Seq::empty()
    } else {
        let rest = kept_paths(entries.drop_last());
        match entries.last() {
            Some(p) => rest.push(p@),
            None => rest,
        }
    }
}

/// Turns the answer of a glob call into the matched paths: an error when the
/// pattern was rejected, else the paths read without error, in order.
pub fn collect_glob_matches(pattern: &str, answer: Option<Vec<Option<String>>>) -> (r: Result<Vec<String>, ExpandError>)
    ensures
        match answer {
            None => r matches Err(ExpandError::InvalidPattern(p)) && p@ == pattern@,
            Some(entries) => r matches Ok(v) && texts(v@) == kept_paths(entries@),
        },
{
    match answer {
        None => Err(ExpandError::InvalidPattern(owned(pattern))),
        Some(entries) => {
            let mut paths: Vec<String> = Vec::new();
            let mut i: usize = 0;
            while i < entries.len()
                invariant
                    i <= entries@.len(),
                    texts(paths@) == kept_paths(entries@.take(i as int)),
                decreases entries@.len() - i,
            {
                proof {
                    assert(entries@.take(i + 1).drop_last() =~= entries@.take(i as int));
                }
                match &entries[i] {
                    Some(p) => {
                        paths.push(p.clone());
                        assert(texts(paths@) =~= kept_paths(entries@.take(i + 1)));
                    },
                    None => {},
                }
                i = i + 1;
            }
            assert(entries@.take(entries@.len() as int) =~= entries@);
            Ok(paths)
        },
    }
}

/// Expand a glob pattern to the paths it matches; an error when the pattern
/// is not a valid glob pattern.
pub fn expand_glob(pattern: &str) -> (r: Result<Vec<String>, ExpandError>)
    ensures
        r is Ok <==> glob_pattern_accepted(pattern@),
        r matches Err(ExpandError::InvalidPattern(p)) ==> p@ == pattern@,
{
    collect_glob_matches(pattern, glob_entries(pattern))
}

/// Whether a pattern holds a glob wildcard (`*` or `?`).
pub open spec fn is_glob(pattern: Seq<char>) -> bool {
    pattern.contains('*') || pattern.contains('?')
}

/// Check if a pattern is a glob pattern (contains * or ?)
pub fn is_glob_pattern(pattern: &str) -> (r: bool)
    ensures
        r == is_glob(pattern@),
{
    contains_char(pattern, '*') || contains_char(pattern, '?')
}

/// What the first `n` inputs expand to, given the answers of the glob calls
/// (one per input; the answer of an input without wildcards is not used): an
/// input without wildcards (`-` among them) stands for itself, a glob pattern
/// for the paths its call kept, in order; the first glob input whose pattern
/// was rejected makes the expansion fail with that pattern.
pub open spec fn expansion_upto(
    inputs: Seq<String>,
    answers: Seq<Option<Vec<Option<String>>>>,
    n: int,
) -> Result<Seq<Seq<char>>, Seq<char>>
    decreases n,
{
    if n <= 0 {
        Ok(Seq::empty())
    } else {
        match expansion_upto(inputs, answers, n - 1) {
            Err(p) => Err(p),
            Ok(prev) => if is_glob(inputs[n - 1]@) {
                match answers[n - 1] {
                    None => Err(inputs[n - 1]@),
                    Some(entries) => Ok(prev + kept_paths(entries@)),
                }
            } else {
                Ok(prev.push(inputs[n - 1]@))
            },
        }
    }
}

/// What all the inputs expand to, given the answers of the glob calls.
pub open spec fn expansion(inputs: Seq<String>, answers: Seq<Option<Vec<Option<String>>>>) -> Result<
    Seq<Seq<char>>,
    Seq<char>,
> {
    expansion_upto(inputs, answers, inputs.len() as int)
}

/// Whether a result is the expansion `x`: the paths in order, or the error
/// naming the rejected pattern.
pub open spec fn is_expansion(r: Result<Vec<String>, ExpandError>, x: Result<Seq<Seq<char>>, Seq<char>>) -> bool {
    match x {
        Ok(ps) => r matches Ok(v) && texts(v@) == ps,
        Err(p) => r matches Err(ExpandError::InvalidPattern(q)) && q@ == p,
    }
}

/// Expands the inputs given the answers of the glob calls, one per input
/// (what `glob::glob` returned for each glob input; for the other inputs the
/// answer is not read).
pub fn expand_with_answers(inputs: &[String], answers: Vec<Option<Vec<Option<String>>>>) -> (r: Result<Vec<String>, ExpandError>)
    requires
        answers@.len() == inputs@.len(),
    ensures
        is_expansion(r, expansion(inputs@, answers@)),
{
    let mut out: Vec<String> = Vec::new();
    let ghost all = answers@;
    let mut rest = answers;
    let mut i: usize = 0;
    assert(texts(out@) =~= Seq::<Seq<char>>::empty());
    assert(all.skip(0) =~= all);
    while i < inputs.len()
        invariant
            i <= inputs@.len(),
            all.len() == inputs@.len(),
            rest@ == all.skip(i as int),
            all == answers@,
            expansion_upto(inputs@, all, i as int) == Ok::<Seq<Seq<char>>, Seq<char>>(texts(out@)),
        decreases inputs@.len() - i,
    {
        let input: &String = &inputs[i];
        let answer = rest.remove(0);
        assert(answer == all[i as int]);
        assert(rest@ =~= all.skip(i + 1));
        if is_glob_pattern(input.as_str()) {
            match collect_glob_matches(input.as_str(), answer) {
                Ok(matched) => {
                    let ghost before = out@;
                    let mut k: usize = 0;
                    while k < matched.len()
                        invariant
                            k <= matched@.len(),
                            texts(out@) == texts(before) + texts(matched@).take(k as int),
                        decreases matched@.len() - k,
                    {
                        let ghost prev = out@;
                        out.push(matched[k].clone());
                        assert(texts(out@) =~= texts(prev).push(matched@[k as int]@));
                        assert(texts(matched@).take(k + 1) =~= texts(matched@).take(k as int).push(matched@[k as int]@));
                        assert(texts(out@) =~= texts(before) + texts(matched@).take(k + 1));
                        k = k + 1;
                    }
                    assert(texts(matched@).take(matched@.len() as int) =~= texts(matched@));
                },
                Err(e) => {
                    proof {
                        assert(all[i as int] is None);
                        assert(expansion_upto(inputs@, all, i as int + 1) == Err::<Seq<Seq<char>>, Seq<char>>(
                            inputs@[i as int]@,
                        ));
                        lemma_expansion_error_stays(inputs@, all, i as int + 1, inputs@.len() as int);
                    }
                    assert(is_expansion(Err(e), expansion(inputs@, all)));
                    return Err(e);
                },
            }
        } else {
            let ghost prev = out@;
            out.push(input.clone());
            assert(texts(out@) =~= texts(prev).push(input@));
        }
        i = i + 1;
    }
    Ok(out)
}

/// Once the expansion failed, expanding more inputs keeps the failure.
proof fn lemma_expansion_error_stays(
    inputs: Seq<String>,
    answers: Seq<Option<Vec<Option<String>>>>,
    n: int,
    m: int,
)
    requires
        1 <= n <= m,
        expansion_upto(inputs, answers, n) is Err,
    ensures
        expansion_upto(inputs, answers, m) == expansion_upto(inputs, answers, n),
    decreases m - n,
{
    if n < m {
        lemma_expansion_error_stays(inputs, answers, n, m - 1);
    }
}

/// Whether the answers are ones `glob::glob` can give for the inputs: up to
/// the first rejected pattern, each glob input's answer is present exactly
/// when the pattern is accepted.
pub open spec fn answers_fit(inputs: Seq<String>, answers: Seq<Option<Vec<Option<String>>>>) -> bool {
    &&& answers.len() == inputs.len()
    &&& forall|i: int|
        0 <= i < inputs.len() && is_glob(inputs[i]@) && (forall|j: int|
            0 <= j < i && is_glob(#[trigger] inputs[j]@) ==> answers[j] is Some) ==> (#[trigger] answers[i] is Some
            <==> glob_pattern_accepted(inputs[i]@))
}

/// Expand input arguments, handling both glob patterns and literal paths;
/// `-` (standard input) is kept as it is. Each glob pattern is looked up on
/// disk in turn, up to the first one that is rejected, which makes the whole
/// expansion fail; the result is `expand_with_answers` of what the lookups
/// returned.
pub fn expand_inputs(inputs: &[String]) -> (r: Result<Vec<String>, ExpandError>)
    ensures
        exists|answers: Seq<Option<Vec<Option<String>>>>|
            answers_fit(inputs@, answers) && #[trigger] is_expansion(r, expansion(inputs@, answers)),
{
    let mut answers: Vec<Option<Vec<Option<String>>>> = Vec::new();
    let mut failed = false;
    let mut i: usize = 0;
    while i < inputs.len()
        invariant
            i <= inputs@.len(),
            answers@.len() == i,
            failed ==> exists|j: int| 0 <= j < i && is_glob(#[trigger] inputs@[j]@) && answers@[j] is None,
            forall|k: int|
                0 <= k < i && is_glob(inputs@[k]@) && (forall|j: int|
                    0 <= j < k && is_glob(#[trigger] inputs@[j]@) ==> answers@[j] is Some) ==> (
                #[trigger] answers@[k] is Some <==> glob_pattern_accepted(inputs@[k]@)),
            !failed ==> forall|j: int| 0 <= j < i && is_glob(#[trigger] inputs@[j]@) ==> answers@[j] is Some,
        decreases inputs@.len() - i,
    {
        let ghost before = answers@;
        if !failed && is_glob_pattern(inputs[i].as_str()) {
            let answer = glob_entries(inputs[i].as_str());
            if answer.is_none() {
                failed = true;
            }
            answers.push(answer);
        } else {
            answers.push(None);
        }
        proof {
            assert forall|j: int| 0 <= j < i implies answers@[j] == before[j] by {}
            if failed {
                let j = choose|j: int| 0 <= j < i + 1 && is_glob(#[trigger] inputs@[j]@) && answers@[j] is None;
                assert(exists|j: int| 0 <= j < i + 1 && is_glob(#[trigger] inputs@[j]@) && answers@[j] is None);
            }
        }
        i = i + 1;
    }
    let ghost fixed = answers@;
    let r = expand_with_answers(inputs, answers);
    assert(answers_fit(inputs@, fixed));
    r
}

/// Inputs without wildcards expand to themselves, in order (`-`, standard
/// input, among them), whatever the glob answers: only glob patterns are
/// looked up on disk.
pub proof fn law_literal_inputs_unchanged(inputs: Seq<String>, answers: Seq<Option<Vec<Option<String>>>>, n: int)
    requires
        0 <= n <= inputs.len(),
        forall|i: int| 0 <= i < inputs.len() ==> !is_glob(#[trigger] inputs[i]@),
    ensures
        expansion_upto(inputs, answers, n) == Ok::<Seq<Seq<char>>, Seq<char>>(texts(inputs.take(n))),
    decreases n,
{
    if n > 0 {
        law_literal_inputs_unchanged(inputs, answers, n - 1);
        assert(!is_glob(inputs[n - 1]@));
        assert(texts(inputs.take(n)) =~= texts(inputs.take(n - 1)).push(inputs[n - 1]@));
    } else {
        assert(texts(inputs.take(0)) =~= Seq::<Seq<char>>::empty());
    }
}

} // verus!
