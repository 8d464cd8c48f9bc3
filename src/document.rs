use vstd::prelude::*;

verus! {

/// A JSON value as `serde_json` holds it; the library carries it through
/// without looking inside.
#[verifier::external_type_specification]
#[verifier::external_body]
pub struct ExJsonValue(serde_json::Value);

/// One top-level member of a response object: its name, its value read as a
/// 64-bit integer where it is one, and the value itself.
#[derive(Debug)]
pub struct Member {
    pub key: String,
    pub integer: Option<i64>,
    pub value: serde_json::Value,
}

/// A decoded response, as the list of its top-level members in document
/// order. A response that is not an object has no members.
#[derive(Debug)]
pub struct Document {
    pub members: Vec<Member>,
}

/// Why a configured field could not be read from a response.
#[derive(Clone, Copy, Debug, PartialEq, Eq, Structural)]
pub enum ExtractError {
    /// The field is absent, or does not hold the expected kind of value.
    FieldNotFound,
}

/// The first member named `key`. Field names are flat: a name holding `/`
/// is looked up as it stands, never as a nested path.
pub open spec fn lookup(ms: Seq<Member>, key: Seq<char>) -> Option<Member>
    decreases ms.len(),
{
    if ms.len() == 0 {
        None
    } else if ms[0].key@ == key {
        Some(ms[0])
    } else {
        lookup(ms.drop_first(), key)
    }
}

/// The total count that a response states under `key`: the member's value
/// where it is a 64-bit integer.
pub open spec fn count_at(ms: Seq<Member>, key: Seq<char>) -> Option<i64> {
    match lookup(ms, key) {
        Some(m) => m.integer,
        None => None,
    }
}

/// Position of the first member named `key`, if any.
fn find_member(ms: &Vec<Member>, key: &String) -> (r: Option<usize>)
    ensures
        match r {
            Some(i) => i < ms@.len() && lookup(ms@, key@) == Some(ms@[i as int]),
            None => lookup(ms@, key@) is None,
        },
{
    let mut i: usize = 0;
    assert(ms@.subrange(0, ms@.len() as int) =~= ms@);
    while i < ms.len()
        invariant
            i <= ms@.len(),
            lookup(ms@, key@) == lookup(ms@.subrange(i as int, ms@.len() as int), key@),
        decreases ms@.len() - i,
    {
        let ghost rest = ms@.subrange(i as int, ms@.len() as int);
        assert(rest.drop_first() =~= ms@.subrange(i + 1, ms@.len() as int));
        if ms[i].key == *key {
            return Some(i);
        }
        i = i + 1;
    }
    assert(ms@.subrange(i as int, ms@.len() as int).len() == 0);
    None
}

/// Reads the total item count stored under `path`.
pub fn extract_total_count(doc: &Document, path: &String) -> (r: Result<i64, ExtractError>)
    ensures
        r == match count_at(doc.members@, path@) {
            Some(n) => Ok::<i64, ExtractError>(n),
            None => Err(ExtractError::FieldNotFound),
        },
{
    match find_member(&doc.members, path) {
        Some(i) => match doc.members[i].integer {
            Some(n) => Ok(n),
            None => Err(ExtractError::FieldNotFound),
        },
        None => Err(ExtractError::FieldNotFound),
    }
}

/// Takes out the value stored under `path`, verbatim, whatever its kind.
pub fn extract_data(doc: Document, path: &String) -> (r: Result<serde_json::Value, ExtractError>)
    ensures
        r == match lookup(doc.members@, path@) {
            Some(m) => Ok::<serde_json::Value, ExtractError>(m.value),
            None => Err(ExtractError::FieldNotFound),
        },
{
    let Document { members } = doc;
    let mut members = members;
    match find_member(&members, path) {
        Some(i) => {
            let m = members.remove(i);
            Ok(m.value)
        },
        None => Err(ExtractError::FieldNotFound),
    }
}

} // verus!
