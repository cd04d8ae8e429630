//! Market outcomes and their token ids, which the market-data service sends
//! as two JSON lists in text form.

use vstd::prelude::*;

verus! {

/// What `serde_json::from_str` reads from `s` as a list of strings, or
/// nothing where `s` is not such a list.
pub uninterp spec fn json_string_list(s: Seq<char>) -> Option<Seq<Seq<char>>>;

pub open spec fn texts(list: Seq<String>) -> Seq<Seq<char>> {
    Seq::new(list.len(), |i: int| list[i]@)
}

pub open spec fn list_texts(list: Option<Vec<String>>) -> Option<Seq<Seq<char>>> {
    match list {
        Some(v) => Some(texts(v@)),
        None => None,
    }
}

pub open spec fn pair_texts(pairs: Seq<(String, String)>) -> Seq<(Seq<char>, Seq<char>)> {
    Seq::new(pairs.len(), |i: int| (pairs[i].0@, pairs[i].1@))
}

pub open spec fn pairs_of(r: Option<Vec<(String, String)>>) -> Option<
    Seq<(Seq<char>, Seq<char>)>,
> {
    match r {
        Some(v) => Some(pair_texts(v@)),
        None => None,
    }
}

/// Each outcome with the token id at the same place, where there is at least
/// one outcome and as many token ids as outcomes.
pub open spec fn zipped(outcomes: Seq<Seq<char>>, token_ids: Seq<Seq<char>>) -> Option<
    Seq<(Seq<char>, Seq<char>)>,
> {
    if outcomes.len() == 0 || outcomes.len() != token_ids.len() {
        None
    } else {
        Some(Seq::new(outcomes.len(), |i: int| (outcomes[i], token_ids[i])))
    }
}

/// The pairs that two JSON texts give: none unless both are lists of
/// strings that pair up.
pub open spec fn parsed_outcomes(outcomes: Seq<char>, token_ids: Seq<char>) -> Option<
    Seq<(Seq<char>, Seq<char>)>,
> {
    match json_string_list(outcomes) {
        None => None,
        Some(names) => match json_string_list(token_ids) {
            None => None,
            Some(ids) => zipped(names, ids),
        },
    }
}

/// `serde_json::from_str::<Vec<String>>`: the list that the text holds,
/// named by [`json_string_list`].
#[verifier::external_body]
fn string_list_from_json(s: &str) -> (r: Option<Vec<String>>)
    ensures
        list_texts(r) == json_string_list(s@),
{
    serde_json::from_str::<Vec<String>>(s).ok()
}

/// Pairs each outcome with the token id at the same place.
pub fn pair_outcomes(outcomes: Vec<String>, token_ids: Vec<String>) -> (r: Option<
    Vec<(String, String)>,
>)
    ensures
        pairs_of(r) == zipped(texts(outcomes@), texts(token_ids@)),
        r matches Some(pairs) ==> pairs@.len() == outcomes@.len() && forall|i: int|
            0 <= i < pairs@.len() ==> #[trigger] pairs@[i] == (outcomes@[i], token_ids@[i]),
{
    if outcomes.len() == 0 || outcomes.len() != token_ids.len() {
        return None;
    }
    let mut pairs: Vec<(String, String)> = Vec::new();
    let mut i: usize = 0;
    while i < outcomes.len()
        invariant
            i <= outcomes.len(),
            outcomes.len() == token_ids.len(),
            pairs@.len() == i,
            forall|k: int| 0 <= k < i ==> #[trigger] pairs@[k] == (outcomes@[k], token_ids@[k]),
        decreases outcomes.len() - i,
    {
        pairs.push((outcomes[i].clone(), token_ids[i].clone()));
        i += 1;
    }
    assert(pair_texts(pairs@) =~= zipped(texts(outcomes@), texts(token_ids@)).unwrap());
    Some(pairs)
}

/// Reads the outcomes and token ids of a market from their JSON texts.
pub fn parse_outcomes(outcomes_str: &str, token_ids_str: &str) -> (r: Option<Vec<(String, String)>>)
    ensures
        pairs_of(r) == parsed_outcomes(outcomes_str@, token_ids_str@),
{
    let outcomes = match string_list_from_json(outcomes_str) {
        Some(v) => v,
        None => {
            return None;
        },
    };
    let token_ids = match string_list_from_json(token_ids_str) {
        Some(v) => v,
        None => {
            return None;
        },
    };
    pair_outcomes(outcomes, token_ids)
}

} // verus!
