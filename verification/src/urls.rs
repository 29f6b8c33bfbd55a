//! Candidate strings and the URLs that survive parsing.

use vstd::prelude::*;

verus! {

/// The serialization of the absolute URL that `url::Url::parse` reads from
/// `candidate`, or `None` where it reads none.
pub uninterp spec fn normalized_url(candidate: Seq<char>) -> Option<Seq<char>>;

/// The URLs that survive parsing, in the order of their candidates.
/// A candidate that does not parse contributes nothing.
pub open spec fn surviving(candidates: Seq<Seq<char>>) -> Seq<Seq<char>>
    decreases candidates.len(),
{
    if candidates.len() == 0 {
        Seq::empty()
    } else {
        let before = surviving(candidates.drop_last());
        match normalized_url(candidates.last()) {
            Some(u) => before.push(u),
            None => before,
        }
    }
}

/// Calls `url::Url::parse` and, on success, `Url::as_str`.
///
/// Trusted: the parser is a function of its input alone, so its answer is
/// given the name `normalized_url`; nothing is claimed about which strings
/// parse or what the serialization looks like.
#[verifier::external_body]
fn parse_candidate(candidate: &str) -> (r: Option<String>)
    ensures
        match r {
            Some(u) => normalized_url(candidate@) == Some(u@),
            None => normalized_url(candidate@) is None,
        },
{
    match url::Url::parse(candidate) {
        Ok(u) => Some(String::from(u.as_str())),
        Err(_) => None,
    }
}

/// Keeps or drops one candidate, given what the parser said of it.
pub fn keep_parsed(kept: &mut Vec<String>, parsed: Option<String>)
    ensures
        final(kept).deep_view() == match parsed {
            Some(u) => old(kept).deep_view().push(u@),
            None => old(kept).deep_view(),
        },
{
    let ghost before = kept.deep_view();
    match parsed {
        Some(u) => {
            let ghost text = u@;
            kept.push(u);
            assert(kept.deep_view() =~= before.push(text));
        },
        None => {},
    }
}

/// Parses every candidate and returns the serializations of those that are
/// URLs, in input order. Malformed candidates are dropped without a trace.
pub fn valid_urls(candidates: &Vec<String>) -> (kept: Vec<String>)
    ensures
        kept.deep_view() == surviving(candidates.deep_view()),
{
    let mut kept: Vec<String> = Vec::new();
    let ghost all = candidates.deep_view();
    let mut i: usize = 0;
    assert(kept.deep_view() =~= surviving(all.take(0)));
    while i < candidates.len()
        invariant
            i <= candidates.len(),
            all == candidates.deep_view(),
            kept.deep_view() == surviving(all.take(i as int)),
        decreases candidates.len() - i,
    {
        let parsed = parse_candidate(candidates[i].as_str());
        proof {
            let next = all.take(i + 1);
            assert(next.drop_last() =~= all.take(i as int));
            assert(next.last() == candidates[i as int]@);
        }
        keep_parsed(&mut kept, parsed);
        i += 1;
    }
    assert(all.take(i as int) =~= all);
    kept
}

/// Every survivor is the serialization of some candidate that parsed.
pub proof fn survivors_parsed(candidates: Seq<Seq<char>>, k: int)
    requires
        0 <= k < surviving(candidates).len(),
    ensures
        exists|j: int|
            0 <= j < candidates.len() && #[trigger] normalized_url(candidates[j]) == Some(
                surviving(candidates)[k],
            ),
    decreases candidates.len(),
{
    if candidates.len() > 0 {
        let before = surviving(candidates.drop_last());
        if k < before.len() {
            survivors_parsed(candidates.drop_last(), k);
            let j = choose|j: int|
                0 <= j < candidates.drop_last().len() && #[trigger] normalized_url(
                    candidates.drop_last()[j],
                ) == Some(before[k]);
            assert(candidates[j] == candidates.drop_last()[j]);
            assert(normalized_url(candidates[j]) == Some(surviving(candidates)[k]));
        } else {
            let j = candidates.len() - 1;
            assert(normalized_url(candidates[j]) == Some(surviving(candidates)[k]));
        }
    }
}

/// Where no candidate parses, nothing survives.
pub proof fn malformed_never_survive(candidates: Seq<Seq<char>>)
    requires
        forall|j: int| 0 <= j < candidates.len() ==> normalized_url(#[trigger] candidates[j]) is None,
    ensures
        surviving(candidates).len() == 0,
    decreases candidates.len(),
{
    if candidates.len() > 0 {
        assert forall|j: int| 0 <= j < candidates.drop_last().len() implies normalized_url(
            #[trigger] candidates.drop_last()[j],
        ) is None by {
            assert(candidates.drop_last()[j] == candidates[j]);
        }
        malformed_never_survive(candidates.drop_last());
        assert(candidates.last() == candidates[candidates.len() - 1]);
    }
}

} // verus!
