//! Reading a model listing: the ids it names, each once, in dictionary order.

use crate::errors::{ProviderError, ShapeFault};
use crate::json::{get, json, json_seq, Json};
use crate::text::{ascending, compare, distinct, lemma_ascending_is_distinct,
    lemma_precedes_transitive, precedes, Standing};
use serde_json::Value;
use vstd::prelude::*;

verus! {

/// The texts of a sequence of strings.
pub open spec fn texts(names: Seq<String>) -> Seq<Seq<char>> {
    names.map_values(|s: String| s@)
}

/// The ids that the entries of a listing name, in the order of the entries.
/// An entry without a string `id` names none.
pub open spec fn listed_ids(entries: Seq<Json>) -> Seq<Seq<char>>
    decreases entries.len(),
{
    if entries.len() == 0 {
        Seq::empty()
    } else {
        let before = listed_ids(entries.drop_last());
        match entries.last().text_member("id"@) {
            Some(id) => before.push(id),
            None => before,
        }
    }
}

/// The ids of a listing response: those of the entries of its `data` array.
/// `None` where `data` is absent or not an array.
pub open spec fn listing(response: Json) -> Option<Seq<Seq<char>>> {
    match response.member("data"@) {
        Some(Json::Array(entries)) => Some(listed_ids(entries)),
        _ => None,
    }
}

/// Both sequences hold the same texts, however often and in whatever order.
pub open spec fn same_members(a: Seq<Seq<char>>, b: Seq<Seq<char>>) -> bool {
    forall|t: Seq<char>| a.contains(t) <==> b.contains(t)
}

/// Adds `id` to a list, unless it is there already, in front of the first
/// text that comes after it: an ascending list stays ascending.
pub fn insert_sorted(names: &mut Vec<String>, id: &str)
    ensures
        ascending(texts(old(names)@)) ==> ascending(texts(final(names)@)),
        forall|t: Seq<char>|
            texts(final(names)@).contains(t) <==> (texts(old(names)@).contains(t) || t == id@),
{
    let ghost before = texts(names@);
    let mut at: usize = 0;
    let mut searching = true;
    while searching && at < names.len()
        invariant
            names@ == old(names)@,
            before == texts(names@),
            at <= names.len(),
            forall|j: int| 0 <= j < at ==> precedes(#[trigger] before[j], id@),
            !searching ==> at < names.len() && precedes(id@, before[at as int]),
        decreases names.len() - at + if searching { 1nat } else { 0nat },
    {
        match compare(names[at].as_str(), id) {
            Standing::Before => {
                at = at + 1;
            },
            Standing::Same => {
                proof {
                    assert(before[at as int] == id@);
                    assert forall|t: Seq<char>| before.contains(t) || t == id@ implies before.contains(
                        t,
                    ) by {}
                }
                return ;
            },
            Standing::After => {
                searching = false;
            },
        }
    }
    names.insert(at, String::from_str(id));
    proof {
        let after = texts(names@);
        assert(after =~= before.insert(at as int, id@));
        if ascending(before) {
            assert forall|j: int| at <= j < before.len() implies precedes(
                id@,
                #[trigger] before[j],
            ) by {
                if j > at {
                    lemma_precedes_transitive(id@, before[at as int], before[j]);
                }
            }
            assert forall|i: int, j: int| 0 <= i < j < after.len() implies precedes(
                #[trigger] after[i],
                #[trigger] after[j],
            ) by {
                if i < at && j > at {
                    lemma_precedes_transitive(before[i], id@, before[j - 1]);
                }
            }
        }
        assert forall|t: Seq<char>| after.contains(t) <==> (before.contains(t) || t == id@) by {
            if after.contains(t) {
                let k = choose|k: int| 0 <= k < after.len() && after[k] == t;
                if k < at {
                    assert(before[k] == t);
                } else if k > at {
                    assert(before[k - 1] == t);
                }
            }
            if before.contains(t) {
                let k = choose|k: int| 0 <= k < before.len() && before[k] == t;
                if k < at {
                    assert(after[k] == t);
                } else {
                    assert(after[k + 1] == t);
                }
            }
            if t == id@ {
                assert(after[at as int] == t);
            }
        }
    }
}

/// The model ids of a listing response, each once, in dictionary order.
/// Fails where the response has no `data` array.
pub fn sorted_model_ids(response: &Value) -> (r: Result<Vec<String>, ProviderError>)
    ensures
        match listing(json(*response)) {
            Some(ids) => r matches Ok(names) && ascending(texts(names@)) && distinct(texts(names@))
                && same_members(texts(names@), ids),
            None => r matches Err(ProviderError::ResponseShape { defect: ShapeFault::MissingListing }),
        },
{
    let entries: &Vec<Value> = match get(response, "data") {
        Some(data) => match data.as_array() {
            Some(entries) => entries,
            None => {
                return Err(ProviderError::ResponseShape { defect: ShapeFault::MissingListing });
            },
        },
        None => {
            return Err(ProviderError::ResponseShape { defect: ShapeFault::MissingListing });
        },
    };
    let ghost documents = json_seq(entries@);
    let mut names: Vec<String> = Vec::new();
    let mut i: usize = 0;
    while i < entries.len()
        invariant
            i <= entries.len(),
            documents == json_seq(entries@),
            ascending(texts(names@)),
            same_members(texts(names@), listed_ids(documents.take(i as int))),
        decreases entries.len() - i,
    {
        let ghost seen = listed_ids(documents.take(i as int));
        proof {
            assert(documents.take(i + 1).drop_last() == documents.take(i as int));
            assert(documents.take(i + 1).last() == json(entries@[i as int]));
        }
        match get(&entries[i], "id") {
            Some(field) => match field.as_str() {
                Some(id) => {
                    insert_sorted(&mut names, id);
                    proof {
                        let now = seen.push(id@);
                        assert(listed_ids(documents.take(i + 1)) == now);
                        assert forall|t: Seq<char>| texts(names@).contains(t) <==> now.contains(
                            t,
                        ) by {
                            if now.contains(t) {
                                let k = choose|k: int| 0 <= k < now.len() && now[k] == t;
                                if k < seen.len() {
                                    assert(seen[k] == t);
                                }
                            }
                            if seen.contains(t) {
                                let k = choose|k: int| 0 <= k < seen.len() && seen[k] == t;
                                assert(now[k] == t);
                            }
                            assert(now[seen.len() as int] == id@);
                        }
                    }
                },
                None => {},
            },
            None => {},
        }
        i = i + 1;
    }
    proof {
        assert(documents.take(i as int) == documents);
        lemma_ascending_is_distinct(texts(names@));
    }
    Ok(names)
}

} // verus!
