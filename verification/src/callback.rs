//! The callback record: what one OAuth redirect carried.

use vstd::prelude::*;
use vstd::string::*;
use crate::json::{json_object_string, json_object_text};

verus! {

/// The data captured from a single redirect. It is built once, from the query
/// pairs of the redirect's URL, and handed to the consumer as it is.
#[derive(Debug)]
pub struct CallbackData {
    pub code: Option<String>,
    pub state: Option<String>,
    pub error: Option<String>,
}

/// The mathematical value of a [`CallbackData`].
pub struct CallbackRecord {
    pub code: Option<Seq<char>>,
    pub state: Option<Seq<char>>,
    pub error: Option<Seq<char>>,
}

impl View for CallbackData {
    type V = CallbackRecord;

    open spec fn view(&self) -> CallbackRecord {
        CallbackRecord {
            code: self.code.deep_view(),
            state: self.state.deep_view(),
            error: self.error.deep_view(),
        }
    }
}

/// The value of an optional record.
pub open spec fn record_view(data: Option<CallbackData>) -> Option<CallbackRecord> {
    match data {
        Some(d) => Some(d@),
        None => None,
    }
}

/// The value that the last pair named `key` carries, if any pair has that name.
pub open spec fn last_value(pairs: Seq<(Seq<char>, Seq<char>)>, key: Seq<char>) -> Option<
    Seq<char>,
>
    decreases pairs.len(),
{
    if pairs.len() == 0 {
        None
    } else if pairs.last().0 == key {
        Some(pairs.last().1)
    } else {
        last_value(pairs.drop_last(), key)
    }
}

/// The record that a query string's pairs stand for.
pub open spec fn record_of_pairs(pairs: Seq<(Seq<char>, Seq<char>)>) -> CallbackRecord {
    CallbackRecord {
        code: last_value(pairs, "code"@),
        state: last_value(pairs, "state"@),
        error: last_value(pairs, "error"@),
    }
}

/// The members of the JSON object that a record is handed over as.
pub open spec fn record_members(record: CallbackRecord) -> Seq<(Seq<char>, Option<Seq<char>>)> {
    seq![("code"@, record.code), ("state"@, record.state), ("error"@, record.error)]
}

/// `last_value` picks the pair at the greatest index that bears the name, and
/// finds nothing exactly when no pair bears it.
pub proof fn lemma_last_value(pairs: Seq<(Seq<char>, Seq<char>)>, key: Seq<char>)
    ensures
        last_value(pairs, key) is None <==> forall|i: int|
            0 <= i < pairs.len() ==> (#[trigger] pairs[i]).0 != key,
        last_value(pairs, key) is Some ==> exists|i: int|
            0 <= i < pairs.len() && (#[trigger] pairs[i]).0 == key && last_value(pairs, key)
                == Some(pairs[i].1) && forall|j: int|
                i < j < pairs.len() ==> (#[trigger] pairs[j]).0 != key,
    decreases pairs.len(),
{
    if pairs.len() == 0 {
    } else if pairs.last().0 == key {
        let i = pairs.len() - 1;
        assert(pairs[i].0 == key);
    } else {
        let rest = pairs.drop_last();
        lemma_last_value(rest, key);
        assert forall|i: int| 0 <= i < rest.len() implies rest[i] == pairs[i] by {}
        if last_value(rest, key) is Some {
            let i = choose|i: int|
                0 <= i < rest.len() && (#[trigger] rest[i]).0 == key && last_value(rest, key)
                    == Some(rest[i].1) && forall|j: int|
                    i < j < rest.len() ==> (#[trigger] rest[j]).0 != key;
            assert(pairs[i] == rest[i]);
            assert forall|j: int| i < j < pairs.len() implies (#[trigger] pairs[j]).0 != key by {
                if j < rest.len() {
                    assert(rest[j] == pairs[j]);
                }
            }
        } else {
            assert forall|i: int| 0 <= i < pairs.len() implies (#[trigger] pairs[i]).0 != key by {
                if i < rest.len() {
                    assert(rest[i] == pairs[i]);
                }
            }
        }
    }
}

/// A copy of an optional string.
pub fn clone_text(text: &Option<String>) -> (copy: Option<String>)
    ensures
        copy == *text,
{
    match text {
        Some(s) => Some(s.clone()),
        None => None,
    }
}

/// Looks a name up as a map built from the pairs in order would: a later pair
/// of the same name replaces an earlier one.
pub fn lookup(pairs: &Vec<(String, String)>, key: &str) -> (found: Option<String>)
    ensures
        found.deep_view() == last_value(pairs.deep_view(), key@),
{
    let wanted = String::from_str(key);
    let ghost all = pairs.deep_view();
    let mut i: usize = pairs.len();
    assert(all.take(i as int) =~= all);
    while i > 0
        invariant
            i <= pairs.len(),
            wanted@ == key@,
            all == pairs.deep_view(),
            last_value(all, key@) == last_value(all.take(i as int), key@),
        decreases i,
    {
        i = i - 1;
        let ghost prefix = all.take(i + 1);
        assert(prefix.last() == all[i as int]);
        assert(prefix.drop_last() =~= all.take(i as int));
        assert(all[i as int] == (pairs@[i as int].0@, pairs@[i as int].1@));
        if pairs[i].0 == wanted {
            return Some(pairs[i].1.clone());
        }
    }
    assert(all.take(0).len() == 0);
    None
}

impl Clone for CallbackData {
    fn clone(&self) -> (copy: CallbackData)
        ensures
            copy == *self,
    {
        CallbackData {
            code: clone_text(&self.code),
            state: clone_text(&self.state),
            error: clone_text(&self.error),
        }
    }
}

impl CallbackData {
    /// Builds the record of a redirect from the pairs of its query string.
    pub fn from_query_pairs(pairs: &Vec<(String, String)>) -> (data: CallbackData)
        ensures
            data@ == record_of_pairs(pairs.deep_view()),
    {
        CallbackData {
            code: lookup(pairs, "code"),
            state: lookup(pairs, "state"),
            error: lookup(pairs, "error"),
        }
    }

    /// Writes the record as a JSON object with the members `code`, `state`
    /// and `error`, each a string or `null`.
    pub fn to_json(&self) -> (text: String)
        ensures
            text@ == json_object_text(record_members(self@)),
    {
        let mut members: Vec<(String, Option<String>)> = Vec::new();
        members.push((String::from_str("code"), clone_text(&self.code)));
        members.push((String::from_str("state"), clone_text(&self.state)));
        members.push((String::from_str("error"), clone_text(&self.error)));
        assert(members.deep_view() =~= record_members(self@));
        json_object_string(members)
    }
}

} // verus!
