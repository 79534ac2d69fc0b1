//! Strict reading of JSON objects: what the members of an object say about a
//! key, stated over the document's model, and the functions that compute it.

use crate::errors::{ShapeError, ShapeErrorView};
use crate::json::{items_view, lemma_array_view, members_view, Json, JsonView};
use vstd::prelude::*;
use vstd::string::StringExecFns;

verus! {

/// The members of an object: keys and values in the object's order.
pub type Members = Seq<(Seq<char>, JsonView)>;

/// Model of a list of keys.
pub open spec fn keys_view(keys: &Vec<String>) -> Seq<Seq<char>> {
    Seq::new(keys@.len(), |i: int| keys@[i]@)
}

/// Member `i` of `members` has the key `key`.
pub open spec fn has_key_at(members: Members, key: Seq<char>, i: int) -> bool {
    0 <= i < members.len() && members[i].0 == key
}

/// Some member has the key.
pub open spec fn present(members: Members, key: Seq<char>) -> bool {
    exists|i: int| has_key_at(members, key, i)
}

/// Two members or more have the key.
pub open spec fn repeated(members: Members, key: Seq<char>) -> bool {
    exists|i: int, j: int| i != j && has_key_at(members, key, i) && has_key_at(members, key, j)
}

/// What an object says about a key: an error where the key is repeated, else
/// the value of the one member that has it, else nothing.
pub open spec fn member(members: Members, key: Seq<char>) -> Result<
    Option<JsonView>,
    ShapeErrorView,
> {
    if repeated(members, key) {
        Err(ShapeErrorView::DuplicateField(key))
    } else if present(members, key) {
        Ok(Some(members[choose|i: int| has_key_at(members, key, i)].1))
    } else {
        Ok(None)
    }
}

/// Member `i` has a key that is not in `schema`.
pub open spec fn unknown_at(members: Members, schema: Seq<Seq<char>>, i: int) -> bool {
    0 <= i < members.len() && !schema.contains(members[i].0)
}

/// Member `i` is the first whose key is not in `schema`.
pub open spec fn first_unknown_at(members: Members, schema: Seq<Seq<char>>, i: int) -> bool {
    unknown_at(members, schema, i) && forall|j: int| 0 <= j < i ==> !unknown_at(members, schema, j)
}

/// The first key of the object that `schema` does not list, if there is one.
pub open spec fn first_unknown(members: Members, schema: Seq<Seq<char>>) -> Option<Seq<char>> {
    if exists|i: int| unknown_at(members, schema, i) {
        Some(members[choose|i: int| first_unknown_at(members, schema, i)].0)
    } else {
        None
    }
}

/// A member that must be there and hold a string.
pub open spec fn text_of(members: Members, key: Seq<char>) -> Result<Seq<char>, ShapeErrorView> {
    match member(members, key) {
        Err(error) => Err(error),
        Ok(None) => Err(ShapeErrorView::MissingField(key)),
        Ok(Some(JsonView::String(text))) => Ok(text),
        Ok(Some(_)) => Err(ShapeErrorView::WrongType(key)),
    }
}

/// A member that holds a string where it is there and not `null`.
pub open spec fn optional_text_of(members: Members, key: Seq<char>) -> Result<
    Option<Seq<char>>,
    ShapeErrorView,
> {
    match member(members, key) {
        Err(error) => Err(error),
        Ok(None) => Ok(None),
        Ok(Some(JsonView::Null)) => Ok(None),
        Ok(Some(JsonView::String(text))) => Ok(Some(text)),
        Ok(Some(_)) => Err(ShapeErrorView::WrongType(key)),
    }
}

/// A member that holds an integer from zero up where it is there and not
/// `null`.
pub open spec fn optional_count_of(members: Members, key: Seq<char>) -> Result<
    Option<u64>,
    ShapeErrorView,
> {
    match member(members, key) {
        Err(error) => Err(error),
        Ok(None) => Ok(None),
        Ok(Some(JsonView::Null)) => Ok(None),
        Ok(Some(JsonView::Number(number))) => match number.unsigned {
            Some(count) => Ok(Some(count)),
            None => Err(ShapeErrorView::WrongType(key)),
        },
        Ok(Some(_)) => Err(ShapeErrorView::WrongType(key)),
    }
}

/// A member that holds a document of any shape where it is there and not
/// `null`.
pub open spec fn optional_document_of(members: Members, key: Seq<char>) -> Result<
    Option<JsonView>,
    ShapeErrorView,
> {
    match member(members, key) {
        Err(error) => Err(error),
        Ok(None) => Ok(None),
        Ok(Some(JsonView::Null)) => Ok(None),
        Ok(Some(document)) => Ok(Some(document)),
    }
}

/// A member that must be there and hold an array: its items.
pub open spec fn items_of(members: Members, key: Seq<char>) -> Result<
    Seq<JsonView>,
    ShapeErrorView,
> {
    match member(members, key) {
        Err(error) => Err(error),
        Ok(None) => Err(ShapeErrorView::MissingField(key)),
        Ok(Some(JsonView::Array(items))) => Ok(items),
        Ok(Some(_)) => Err(ShapeErrorView::WrongType(key)),
    }
}

/// Looks a key up among the members of an object.
pub(crate) fn find<'a>(members: &'a Vec<(String, Json)>, key: &str) -> (result: Result<
    Option<&'a Json>,
    ShapeError,
>)
    ensures
        match result {
            Ok(Some(value)) => member(members_view(members), key@) == Ok::<
                Option<JsonView>,
                ShapeErrorView,
            >(Some(value@)),
            Ok(None) => member(members_view(members), key@) == Ok::<
                Option<JsonView>,
                ShapeErrorView,
            >(None),
            Err(error) => member(members_view(members), key@) == Err::<
                Option<JsonView>,
                ShapeErrorView,
            >(error@),
        },
{
    let wanted = String::from_str(key);
    let ghost model = members_view(members);
    let mut found: Option<usize> = None;
    let mut i: usize = 0;
    while i < members.len()
        invariant
            i <= members.len(),
            wanted@ == key@,
            model == members_view(members),
            match found {
                Some(at) => at < i && has_key_at(model, key@, at as int) && forall|k: int|
                    0 <= k < i && k != at ==> !has_key_at(model, key@, k),
                None => forall|k: int| 0 <= k < i ==> !has_key_at(model, key@, k),
            },
        decreases members.len() - i,
    {
        if members[i].0 == wanted {
            assert(has_key_at(model, key@, i as int));
            match found {
                Some(at) => {
                    assert(repeated(model, key@));
                    return Err(ShapeError::DuplicateField(wanted));
                },
                None => {
                    found = Some(i);
                },
            }
        }
        i += 1;
    }
    match found {
        Some(at) => {
            assert(present(model, key@));
            Ok(Some(&members[at].1))
        },
        None => Ok(None),
    }
}

/// Looks for the first key of an object that `schema` does not list.
pub(crate) fn unknown_key(members: &Vec<(String, Json)>, schema: &Vec<String>) -> (result: Option<
    String,
>)
    ensures
        match result {
            Some(key) => first_unknown(members_view(members), keys_view(schema)) == Some(key@),
            None => first_unknown(members_view(members), keys_view(schema)) is None,
        },
{
    let ghost model = members_view(members);
    let ghost known = keys_view(schema);
    let mut i: usize = 0;
    while i < members.len()
        invariant
            i <= members.len(),
            model == members_view(members),
            known == keys_view(schema),
            forall|k: int| 0 <= k < i ==> !unknown_at(model, known, k),
        decreases members.len() - i,
    {
        let mut listed = false;
        let mut j: usize = 0;
        while j < schema.len() && !listed
            invariant
                i < members.len(),
                j <= schema.len(),
                model == members_view(members),
                known == keys_view(schema),
                listed ==> known.contains(model[i as int].0),
                !listed ==> forall|k: int| 0 <= k < j ==> known[k] != model[i as int].0,
            decreases schema.len() - j + if listed { 0int } else { 1int },
        {
            if members[i].0 == schema[j] {
                assert(known[j as int] == model[i as int].0);
                listed = true;
            } else {
                j += 1;
            }
        }
        if !listed {
            assert(first_unknown_at(model, known, i as int));
            return Some(members[i].0.clone());
        }
        i += 1;
    }
    None
}

/// Reads a member that must be there and hold a string.
pub(crate) fn get_text(members: &Vec<(String, Json)>, key: &str) -> (result: Result<
    String,
    ShapeError,
>)
    ensures
        match result {
            Ok(text) => text_of(members_view(members), key@) == Ok::<Seq<char>, ShapeErrorView>(
                text@,
            ),
            Err(error) => text_of(members_view(members), key@) == Err::<Seq<char>, ShapeErrorView>(
                error@,
            ),
        },
{
    match find(members, key) {
        Err(error) => Err(error),
        Ok(None) => Err(ShapeError::MissingField(String::from_str(key))),
        Ok(Some(Json::String(text))) => Ok(text.clone()),
        Ok(Some(_)) => Err(ShapeError::WrongType(String::from_str(key))),
    }
}

/// Reads a member that holds a string where it is there and not `null`.
pub(crate) fn get_optional_text(members: &Vec<(String, Json)>, key: &str) -> (result: Result<
    Option<String>,
    ShapeError,
>)
    ensures
        match result {
            Ok(Some(text)) => optional_text_of(members_view(members), key@) == Ok::<
                Option<Seq<char>>,
                ShapeErrorView,
            >(Some(text@)),
            Ok(None) => optional_text_of(members_view(members), key@) == Ok::<
                Option<Seq<char>>,
                ShapeErrorView,
            >(None),
            Err(error) => optional_text_of(members_view(members), key@) == Err::<
                Option<Seq<char>>,
                ShapeErrorView,
            >(error@),
        },
{
    match find(members, key) {
        Err(error) => Err(error),
        Ok(None) => Ok(None),
        Ok(Some(Json::Null)) => Ok(None),
        Ok(Some(Json::String(text))) => Ok(Some(text.clone())),
        Ok(Some(_)) => Err(ShapeError::WrongType(String::from_str(key))),
    }
}

/// Reads a member that holds an integer from zero up where it is there and
/// not `null`.
pub(crate) fn get_optional_count(members: &Vec<(String, Json)>, key: &str) -> (result: Result<
    Option<u64>,
    ShapeError,
>)
    ensures
        match result {
            Ok(count) => optional_count_of(members_view(members), key@) == Ok::<
                Option<u64>,
                ShapeErrorView,
            >(count),
            Err(error) => optional_count_of(members_view(members), key@) == Err::<
                Option<u64>,
                ShapeErrorView,
            >(error@),
        },
{
    match find(members, key) {
        Err(error) => Err(error),
        Ok(None) => Ok(None),
        Ok(Some(Json::Null)) => Ok(None),
        Ok(Some(Json::Number(number))) => match number.unsigned {
            Some(count) => Ok(Some(count)),
            None => Err(ShapeError::WrongType(String::from_str(key))),
        },
        Ok(Some(_)) => Err(ShapeError::WrongType(String::from_str(key))),
    }
}

/// Reads a member that holds a document of any shape where it is there and
/// not `null`.
pub(crate) fn get_optional_document(members: &Vec<(String, Json)>, key: &str) -> (result: Result<
    Option<Json>,
    ShapeError,
>)
    ensures
        match result {
            Ok(Some(document)) => optional_document_of(members_view(members), key@) == Ok::<
                Option<JsonView>,
                ShapeErrorView,
            >(Some(document@)),
            Ok(None) => optional_document_of(members_view(members), key@) == Ok::<
                Option<JsonView>,
                ShapeErrorView,
            >(None),
            Err(error) => optional_document_of(members_view(members), key@) == Err::<
                Option<JsonView>,
                ShapeErrorView,
            >(error@),
        },
{
    match find(members, key) {
        Err(error) => Err(error),
        Ok(None) => Ok(None),
        Ok(Some(Json::Null)) => Ok(None),
        Ok(Some(document)) => Ok(Some(document.clone())),
    }
}

/// Reads a member that must be there and hold an array.
pub(crate) fn get_items<'a>(members: &'a Vec<(String, Json)>, key: &str) -> (result: Result<
    &'a Vec<Json>,
    ShapeError,
>)
    ensures
        match result {
            Ok(items) => items_of(members_view(members), key@) == Ok::<
                Seq<JsonView>,
                ShapeErrorView,
            >(items_view(items)),
            Err(error) => items_of(members_view(members), key@) == Err::<
                Seq<JsonView>,
                ShapeErrorView,
            >(error@),
        },
{
    match find(members, key) {
        Err(error) => Err(error),
        Ok(None) => Err(ShapeError::MissingField(String::from_str(key))),
        Ok(Some(Json::Array(items))) => {
            proof {
                lemma_array_view(Json::Array(*items));
            }
            Ok(items)
        },
        Ok(Some(_)) => Err(ShapeError::WrongType(String::from_str(key))),
    }
}

} // verus!
