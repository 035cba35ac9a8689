//! Checks that every claim of a package query result is backed by a
//! citation with a source URL.

use vstd::prelude::*;
use vstd::string::*;

use crate::json::{elements_of, text_of, JsonValue};
use crate::text::same_text;

verus! {

/// The id a claim carries: its `claim_id` member, where that is a string.
pub open spec fn claim_id_of(claim: JsonValue) -> Option<Seq<char>> {
    text_of(claim.field("claim_id"@))
}

/// The claim a citation backs: its `claim_id`, where both that and its
/// `url` are non-empty strings.
pub open spec fn cited_id_of(citation: JsonValue) -> Option<Seq<char>> {
    match (text_of(citation.field("claim_id"@)), text_of(citation.field("url"@))) {
        (Some(id), Some(url)) => if id.len() > 0 && url.len() > 0 {
            Some(id)
        } else {
            None
        },
        _ => None,
    }
}

pub open spec fn is_cited(id: Seq<char>, citations: Seq<JsonValue>) -> bool {
    exists|k: int| 0 <= k < citations.len() && cited_id_of(citations[k]) == Some(id)
}

/// The claim at `i` carries an id that no citation backs.
pub open spec fn uncited_at(claims: Seq<JsonValue>, citations: Seq<JsonValue>, i: int) -> bool {
    match claim_id_of(claims[i]) {
        Some(id) => !is_cited(id, citations),
        None => false,
    }
}

pub open spec fn query_claims(result: JsonValue) -> Seq<JsonValue> {
    elements_of(result.field("claims"@))
}

pub open spec fn query_citations(result: JsonValue) -> Seq<JsonValue> {
    elements_of(result.field("citations"@))
}

/// Claims are present but no citations at all.
pub open spec fn citations_missing(result: JsonValue) -> bool {
    query_claims(result).len() > 0 && query_citations(result).len() == 0
}

/// A query result in which every claim id is backed by a citation.
pub open spec fn citations_complete(result: JsonValue) -> bool {
    &&& result is Object
    &&& !citations_missing(result)
    &&& forall|i: int|
        0 <= i < query_claims(result).len() ==> !uncited_at(
            query_claims(result),
            query_citations(result),
            i,
        )
}

pub open spec fn not_object_message() -> Seq<char> {
    "Package API query response must be a JSON object."@
}

pub open spec fn missing_citations_message() -> Seq<char> {
    "Package API query response missing citations while require_citations=true."@
}

pub open spec fn uncited_message(claim_id: Seq<char>) -> Seq<char> {
    "Package API query response has uncited claim '"@ + claim_id
        + "' while require_citations=true."@
}

/// The claim at `i` is the first, in order, whose id no citation backs.
pub open spec fn first_uncited(result: JsonValue, i: int) -> bool {
    &&& 0 <= i < query_claims(result).len()
    &&& uncited_at(query_claims(result), query_citations(result), i)
    &&& forall|j: int|
        0 <= j < i ==> !uncited_at(query_claims(result), query_citations(result), j)
}

/// Why a query result failed the citation check.
#[derive(Debug)]
pub enum CitationError {
    NotAnObject,
    MissingCitations,
    UncitedClaim { claim_id: String },
}

impl CitationError {
    pub open spec fn spec_message(&self) -> Seq<char> {
        match self {
            CitationError::NotAnObject => not_object_message(),
            CitationError::MissingCitations => missing_citations_message(),
            CitationError::UncitedClaim { claim_id } => uncited_message(claim_id@),
        }
    }

    /// The text reported for this failure.
    pub fn message(&self) -> (r: String)
        ensures
            r@ == self.spec_message(),
    {
        match self {
            CitationError::NotAnObject => String::from_str(
                "Package API query response must be a JSON object.",
            ),
            CitationError::MissingCitations => String::from_str(
                "Package API query response missing citations while require_citations=true.",
            ),
            CitationError::UncitedClaim { claim_id } => String::from_str(
                "Package API query response has uncited claim '",
            ).concat(claim_id.as_str()).concat("' while require_citations=true."),
        }
    }
}

fn array_or_empty<'a>(v: Option<&'a JsonValue>, empty: &'a Vec<JsonValue>) -> (r: &'a Vec<JsonValue>)
    requires
        empty@.len() == 0,
    ensures
        r@ == elements_of(
            match v {
                Some(x) => Some(*x),
                None => None,
            },
        ),
{
    match v {
        Some(x) => match x.as_array() {
            Some(items) => items,
            None => empty,
        },
        None => empty,
    }
}

/// The claim id of a claim, where it has one.
fn claim_id(claim: &JsonValue) -> (r: Option<&str>)
    ensures
        r is Some <==> claim_id_of(*claim) is Some,
        r matches Some(s) ==> claim_id_of(*claim) == Some(s@),
{
    match claim.get("claim_id") {
        Some(v) => v.as_str(),
        None => None,
    }
}

/// The claim id a citation backs, where it backs one.
fn cited_id(citation: &JsonValue) -> (r: Option<&str>)
    ensures
        r is Some <==> cited_id_of(*citation) is Some,
        r matches Some(s) ==> cited_id_of(*citation) == Some(s@),
{
    let id = match citation.get("claim_id") {
        Some(v) => v.as_str(),
        None => None,
    };
    let url = match citation.get("url") {
        Some(v) => v.as_str(),
        None => None,
    };
    match (id, url) {
        (Some(i), Some(u)) => if i.unicode_len() > 0 && u.unicode_len() > 0 {
            Some(i)
        } else {
            None
        },
        _ => None,
    }
}

pub open spec fn in_list(list: Seq<&str>, x: Seq<char>) -> bool {
    exists|j: int| 0 <= j < list.len() && list[j]@ == x
}

pub open spec fn cited_before(citations: Seq<JsonValue>, k: int, x: Seq<char>) -> bool {
    exists|q: int| 0 <= q < k && cited_id_of(citations[q]) == Some(x)
}

fn contains_text(list: &Vec<&str>, s: &str) -> (r: bool)
    ensures
        r == in_list(list@, s@),
{
    let mut j: usize = 0;
    while j < list.len()
        invariant
            j <= list@.len(),
            forall|q: int| 0 <= q < j ==> list@[q]@ != s@,
        decreases list@.len() - j,
    {
        if same_text(list[j], s) {
            return true;
        }
        j += 1;
    }
    false
}

/// Where citations are required, checks that the result is an object, that
/// claims do not come without citations, and that each claim id is backed by
/// a citation with a non-empty URL. The first uncited claim, in order, is
/// the one reported.
pub fn ensure_package_query_citations(result: &JsonValue, require_citations: bool) -> (r: Result<
    (),
    CitationError,
>)
    ensures
        r is Ok <==> (!require_citations || citations_complete(*result)),
        r matches Err(CitationError::NotAnObject) <==> (require_citations && !(*result is Object)),
        r matches Err(CitationError::MissingCitations) <==> (require_citations && *result is Object
            && citations_missing(*result)),
        r matches Err(CitationError::UncitedClaim { claim_id }) ==> exists|i: int|
            0 <= i < query_claims(*result).len() && claim_id_of(query_claims(*result)[i]) == Some(
                claim_id@,
            ) && !is_cited(claim_id@, query_citations(*result)) && forall|j: int|
                0 <= j < i ==> !uncited_at(query_claims(*result), query_citations(*result), j),
{
    if !require_citations {
        return Ok(());
    }
    match result {
        JsonValue::Object(_) => {},
        _ => return Err(CitationError::NotAnObject),
    }
    let empty_claims: Vec<JsonValue> = Vec::new();
    let empty_citations: Vec<JsonValue> = Vec::new();
    let claims = array_or_empty(result.get("claims"), &empty_claims);
    let citations = array_or_empty(result.get("citations"), &empty_citations);
    let ghost cl = query_claims(*result);
    let ghost ct = query_citations(*result);
    assert(claims@ == cl);
    assert(citations@ == ct);
    if claims.len() > 0 && citations.len() == 0 {
        return Err(CitationError::MissingCitations);
    }
    let mut cited: Vec<&str> = Vec::new();
    let mut k: usize = 0;
    while k < citations.len()
        invariant
            citations@ == ct,
            k <= ct.len(),
            forall|x: Seq<char>|
                #![trigger in_list(cited@, x)]
                #![trigger cited_before(ct, k as int, x)]
                in_list(cited@, x) <==> cited_before(ct, k as int, x),
        decreases ct.len() - k,
    {
        let ghost before = cited@;
        let found = cited_id(&citations[k]);
        match found {
            Some(id) => {
                cited.push(id);
            },
            None => {},
        }
        proof {
            assert forall|x: Seq<char>|
                #![trigger in_list(cited@, x)]
                #![trigger cited_before(ct, k + 1, x)]
                in_list(cited@, x) <==> cited_before(ct, k + 1, x) by {
                if in_list(cited@, x) {
                    let j = choose|j: int| 0 <= j < cited@.len() && cited@[j]@ == x;
                    if j < before.len() {
                        assert(in_list(before, x));
                        let q = choose|q: int| 0 <= q < k && cited_id_of(ct[q]) == Some(x);
                        assert(0 <= q < k + 1 && cited_id_of(ct[q]) == Some(x));
                    } else {
                        assert(cited_id_of(ct[k as int]) == Some(x));
                    }
                }
                if cited_before(ct, k + 1, x) {
                    let q = choose|q: int| 0 <= q < k + 1 && cited_id_of(ct[q]) == Some(x);
                    if q < k {
                        assert(cited_before(ct, k as int, x));
                        let j = choose|j: int| 0 <= j < before.len() && before[j]@ == x;
                        assert(cited@[j] == before[j]);
                    } else {
                        assert(cited@[before.len() as int]@ == x);
                    }
                }
            }
        }
        k += 1;
    }
    assert forall|x: Seq<char>| #[trigger] in_list(cited@, x) <==> is_cited(x, ct) by {
        assert(cited_before(ct, ct.len() as int, x) == is_cited(x, ct));
    }
    let mut i: usize = 0;
    while i < claims.len()
        invariant
            claims@ == cl,
            cl == query_claims(*result),
            ct == query_citations(*result),
            require_citations,
            *result is Object,
            !citations_missing(*result),
            i <= cl.len(),
            forall|x: Seq<char>| #[trigger] in_list(cited@, x) <==> is_cited(x, ct),
            forall|j: int| 0 <= j < i ==> !uncited_at(cl, ct, j),
        decreases cl.len() - i,
    {
        match claim_id(&claims[i]) {
            Some(id) => {
                if !contains_text(&cited, id) {
                    assert(uncited_at(cl, ct, i as int));
                    return Err(CitationError::UncitedClaim { claim_id: String::from_str(id) });
                }
            },
            None => {},
        }
        i += 1;
    }
    Ok(())
}

} // verus!
