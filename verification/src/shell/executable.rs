//! Choosing the real executable of a shell: which file names mark the
//! Windows Subsystem for Linux Bash, and the report when no configured
//! candidate can be used. Looking candidates up on disk is left to the
//! caller.
use crate::shell::shims::{eq_ignore_ascii_case, equal_ignoring_ascii_case};
use vstd::prelude::*;
use vstd::utf8::encode_utf8;

verus! {

/// Whether a path's file name, when it has one that is valid Unicode, is
/// `expected` up to ASCII case.
pub fn executable_name_equals(file_name: Option<&str>, expected: &str) -> (same: bool)
    ensures
        same == match file_name {
            Some(name) => equal_ignoring_ascii_case(encode_utf8(name@), encode_utf8(expected@)),
            None => false,
        },
{
    match file_name {
        Some(name) => eq_ignore_ascii_case(name.as_bytes(), expected.as_bytes()),
        None => false,
    }
}

/// The texts joined, with `separator` between each two.
pub open spec fn joined(texts: Seq<Seq<char>>, separator: Seq<char>) -> Seq<char>
    decreases texts.len(),
{
    if texts.len() == 0 {
        seq![]
    } else if texts.len() == 1 {
        texts[0]
    } else {
        joined(texts.drop_last(), separator) + separator + texts.last()
    }
}

/// The texts of `texts`, with `separator` between each two.
pub fn join(texts: &Vec<String>, separator: &str) -> (text: String)
    ensures
        text@ == joined(texts@.map_values(|s: String| s@), separator@),
{
    let ghost views = texts@.map_values(|s: String| s@);
    let mut text = String::new();
    let mut i: usize = 0;
    assert(views.take(0) =~= seq![]);
    while i < texts.len()
        invariant
            i <= texts.len(),
            views == texts@.map_values(|s: String| s@),
            text@ == joined(views.take(i as int), separator@),
        decreases texts.len() - i,
    {
        if i > 0 {
            text.append(separator);
        }
        text.append(texts[i].as_str());
        i = i + 1;
        assert(views.take(i as int).drop_last() =~= views.take(i - 1));
        assert(views.take(i as int).last() == views[i - 1]);
        proof {
            if i == 1 {
                assert(text@ =~= views.take(1)[0]);
            }
        }
    }
    assert(views.take(texts.len() as int) =~= views);
    text
}

/// The report when none of the configured candidates can be used: the
/// candidates, then why each failed.
pub open spec fn unavailable_text(candidates: Seq<Seq<char>>, errors: Seq<Seq<char>>) -> Seq<char> {
    "none of the configured shell executables are available: "@ + joined(candidates, ", "@) + "; "@
        + joined(errors, "; "@)
}

/// The report when none of `candidates` can be used, with the reason of each
/// failure in `errors`.
pub fn unavailable_message(candidates: &Vec<String>, errors: &Vec<String>) -> (message: String)
    ensures
        message@ == unavailable_text(
            candidates@.map_values(|s: String| s@),
            errors@.map_values(|s: String| s@),
        ),
{
    let mut message = String::from_str("none of the configured shell executables are available: ");
    let names = join(candidates, ", ");
    message.append(names.as_str());
    message.append("; ");
    let reasons = join(errors, "; ");
    message.append(reasons.as_str());
    message
}

/// Why the candidate `candidate` could not be used: its name, then the
/// reason.
pub fn candidate_error(candidate: &str, reason: &str) -> (error: String)
    ensures
        error@ == candidate@ + ": "@ + reason@,
{
    let mut error = String::from_str(candidate);
    error.append(": ");
    error.append(reason);
    error
}

/// The texts of a list of strings.
pub open spec fn texts(v: Seq<String>) -> Seq<Seq<char>> {
    v.map_values(|s: String| s@)
}

/// The outcome of a lookup, as plain values: the path found, or why none
/// could be used.
pub open spec fn outcome_view(outcome: Result<Vec<u8>, String>) -> Result<Seq<u8>, Seq<char>> {
    match outcome {
        Ok(path) => Ok(path@),
        Err(reason) => Err(reason@),
    }
}

/// One step of choosing, over plain values: a found path ends the choice;
/// a failure adds the candidate and its reason to `errors`.
pub open spec fn step(errors: Seq<Seq<char>>, candidate: Seq<char>, outcome: Result<Seq<u8>, Seq<char>>) -> (
    Option<Seq<u8>>,
    Seq<Seq<char>>,
) {
    match outcome {
        Ok(path) => (Some(path), errors),
        Err(reason) => (None, errors.push(candidate + ": "@ + reason)),
    }
}

/// One step of choosing among the configured candidates: the lookup of
/// `candidate` either found a usable executable, which is the choice, or
/// failed, and its reason joins `errors`.
pub fn candidate_step(candidate: &str, outcome: Result<Vec<u8>, String>, errors: &mut Vec<String>) -> (found:
    Option<Vec<u8>>)
    ensures
        match outcome {
            Ok(path) => found == Some(path) && final(errors)@ == old(errors)@,
            Err(reason) => found is None && texts(final(errors)@) == texts(old(errors)@).push(
                candidate@ + ": "@ + reason@,
            ),
        },
        (match found {
            Some(path) => Some(path@),
            None => None,
        }) == step(texts(old(errors)@), candidate@, outcome_view(outcome)).0,
        texts(final(errors)@) == step(texts(old(errors)@), candidate@, outcome_view(outcome)).1,
{
    match outcome {
        Ok(path) => Some(path),
        Err(reason) => {
            let error = candidate_error(candidate, reason.as_str());
            let ghost before = texts(errors@);
            errors.push(error);
            assert(texts(errors@) =~= before.push(candidate@ + ": "@ + reason@));
            None
        },
    }
}

/// Taking `step` over the candidates in order, from the reasons `errors`,
/// until one is found: the path found, or every reason gathered.
pub open spec fn run_steps(
    errors: Seq<Seq<char>>,
    candidates: Seq<Seq<char>>,
    outcomes: Seq<Result<Seq<u8>, Seq<char>>>,
) -> Result<Seq<u8>, Seq<Seq<char>>>
    decreases candidates.len(),
{
    if candidates.len() == 0 || outcomes.len() == 0 {
        Err(errors)
    } else {
        match step(errors, candidates[0], outcomes[0]) {
            (Some(path), _) => Ok(path),
            (None, gathered) => run_steps(gathered, candidates.drop_first(), outcomes.drop_first()),
        }
    }
}

/// The choice among `candidates`, the lookup of each giving the outcome at
/// its position: the path that `candidate_step` stops at, or the report that
/// `unavailable_message` makes of the reasons gathered.
pub open spec fn selection(candidates: Seq<Seq<char>>, outcomes: Seq<Result<Seq<u8>, Seq<char>>>) -> Result<
    Seq<u8>,
    Seq<char>,
> {
    match run_steps(seq![], candidates, outcomes) {
        Ok(path) => Ok(path),
        Err(errors) => Err(unavailable_text(candidates, errors)),
    }
}

/// Whether the lookup at `j` is the first that found an executable.
pub open spec fn first_success_at(outcomes: Seq<Result<Seq<u8>, Seq<char>>>, j: int) -> bool {
    &&& 0 <= j < outcomes.len()
    &&& outcomes[j] is Ok
    &&& forall|i: int| 0 <= i < j ==> (#[trigger] outcomes[i]) is Err
}

/// Whether every lookup failed.
pub open spec fn all_failed(outcomes: Seq<Result<Seq<u8>, Seq<char>>>) -> bool {
    forall|i: int| 0 <= i < outcomes.len() ==> (#[trigger] outcomes[i]) is Err
}

/// Each candidate with the reason its lookup failed.
pub open spec fn reasons(candidates: Seq<Seq<char>>, outcomes: Seq<Result<Seq<u8>, Seq<char>>>) -> Seq<Seq<char>> {
    Seq::new(candidates.len(), |i: int| candidates[i] + ": "@ + outcomes[i]->Err_0)
}

proof fn lemma_run_steps(
    errors: Seq<Seq<char>>,
    candidates: Seq<Seq<char>>,
    outcomes: Seq<Result<Seq<u8>, Seq<char>>>,
)
    requires
        candidates.len() == outcomes.len(),
    ensures
        forall|j: int| #[trigger] first_success_at(outcomes, j) ==> run_steps(errors, candidates, outcomes) == Ok::<
            Seq<u8>,
            Seq<Seq<char>>,
        >(outcomes[j]->Ok_0),
        all_failed(outcomes) ==> run_steps(errors, candidates, outcomes) == Err::<Seq<u8>, Seq<Seq<char>>>(
            errors + reasons(candidates, outcomes),
        ),
    decreases candidates.len(),
{
    if candidates.len() == 0 {
        assert(errors + reasons(candidates, outcomes) =~= errors);
    } else {
        let tail_c = candidates.drop_first();
        let tail_o = outcomes.drop_first();
        match outcomes[0] {
            Ok(path) => {
                assert forall|j: int| #[trigger] first_success_at(outcomes, j) implies j == 0 by {
                    if j > 0 {
                        assert(outcomes[0] is Err);
                    }
                }
                assert(!all_failed(outcomes)) by {
                    assert(outcomes[0] is Ok);
                }
            },
            Err(reason) => {
                let gathered = errors.push(candidates[0] + ": "@ + reason);
                lemma_run_steps(gathered, tail_c, tail_o);
                assert forall|j: int| #[trigger] first_success_at(outcomes, j) implies run_steps(
                    errors,
                    candidates,
                    outcomes,
                ) == Ok::<Seq<u8>, Seq<Seq<char>>>(outcomes[j]->Ok_0) by {
                    assert(j > 0);
                    assert(tail_o[j - 1] == outcomes[j]);
                    assert forall|i: int| 0 <= i < j - 1 implies (#[trigger] tail_o[i]) is Err by {
                        assert(tail_o[i] == outcomes[i + 1]);
                    }
                    assert(first_success_at(tail_o, j - 1));
                }
                if all_failed(outcomes) {
                    assert forall|i: int| 0 <= i < tail_o.len() implies (#[trigger] tail_o[i]) is Err by {
                        assert(tail_o[i] == outcomes[i + 1]);
                    }
                    assert(gathered + reasons(tail_c, tail_o) =~= errors + reasons(candidates, outcomes));
                }
            },
        }
    }
}

/// Choosing among the configured candidates takes the first one whose lookup
/// found an executable, whatever the lookups after it would give; when every
/// lookup failed, the choice fails with the report naming all candidates and,
/// in order, why each failed (an empty list of candidates included).
pub proof fn lemma_first_success_wins(candidates: Seq<Seq<char>>, outcomes: Seq<Result<Seq<u8>, Seq<char>>>)
    requires
        candidates.len() == outcomes.len(),
    ensures
        forall|j: int| #[trigger] first_success_at(outcomes, j) ==> selection(candidates, outcomes) == Ok::<
            Seq<u8>,
            Seq<char>,
        >(outcomes[j]->Ok_0),
        all_failed(outcomes) ==> selection(candidates, outcomes) == Err::<Seq<u8>, Seq<char>>(
            unavailable_text(candidates, reasons(candidates, outcomes)),
        ),
        selection(candidates, outcomes) is Ok <==> !all_failed(outcomes),
{
    lemma_run_steps(seq![], candidates, outcomes);
    assert(Seq::<Seq<char>>::empty() + reasons(candidates, outcomes) =~= reasons(candidates, outcomes));
    if !all_failed(outcomes) {
        let k = choose|k: int| 0 <= k < outcomes.len() && (#[trigger] outcomes[k]) is Ok;
        lemma_first_success_exists(outcomes, k);
    }
}

/// Where some lookup found an executable, one of them is the first.
proof fn lemma_first_success_exists(outcomes: Seq<Result<Seq<u8>, Seq<char>>>, k: int)
    requires
        0 <= k < outcomes.len(),
        outcomes[k] is Ok,
    ensures
        exists|j: int| #[trigger] first_success_at(outcomes, j),
    decreases k,
{
    if forall|i: int| 0 <= i < k ==> (#[trigger] outcomes[i]) is Err {
        assert(first_success_at(outcomes, k));
    } else {
        let m = choose|m: int| 0 <= m < k && !((#[trigger] outcomes[m]) is Err);
        lemma_first_success_exists(outcomes, m);
    }
}

} // verus!
