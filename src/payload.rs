use vstd::prelude::*;

use crate::error::PumpError;

verus! {

#[verifier::external_type_specification]
#[verifier::external_body]
pub struct ExJsonValue(serde_json::Value);

#[verifier::external_type_specification]
#[verifier::external_body]
#[verifier::reject_recursive_types(K)]
#[verifier::reject_recursive_types(V)]
pub struct ExJsonMap<K, V>(serde_json::Map<K, V>);

#[verifier::external_type_specification]
#[verifier::external_body]
pub struct ExJsonError(serde_json::Error);

/// The keys of a JSON object.
pub uninterp spec fn object_keys(m: serde_json::Map<String, serde_json::Value>) -> Set<Seq<char>>;

/// The members of a JSON object whose value is a JSON string, with that string.
pub uninterp spec fn string_members(m: serde_json::Map<String, serde_json::Value>) -> Map<
    Seq<char>,
    Seq<char>,
>;

/// Each member of a JSON object, with its value written as compact JSON text.
pub uninterp spec fn member_texts(m: serde_json::Map<String, serde_json::Value>) -> Map<
    Seq<char>,
    Seq<char>,
>;

/// Whether a JSON object is nested shallowly enough for serde_json to read its
/// text back.
pub uninterp spec fn within_read_limit(m: serde_json::Map<String, serde_json::Value>) -> bool;

/// The keys of the object that serde_json reads from a text, or `None` where it
/// reads no object from it.
pub uninterp spec fn parsed_object_keys(s: Seq<char>) -> Option<Set<Seq<char>>>;

/// The string members of the object that serde_json reads from a text, or
/// `None` where it reads no object from it.
pub uninterp spec fn parsed_string_members(s: Seq<char>) -> Option<Map<Seq<char>, Seq<char>>>;

/// Whether serde_json reads the JSON `null` from a text.
pub uninterp spec fn parsed_null(s: Seq<char>) -> bool;

/// Relies on serde_json::from_str into a `Map`: it reads one JSON object and
/// fails on any other text, and on nesting deeper than it reads.
#[verifier::external_body]
fn parse_object(s: &str) -> (r: Result<serde_json::Map<String, serde_json::Value>, serde_json::Error>)
    ensures
        r is Ok <==> parsed_object_keys(s@) is Some,
        r is Ok <==> parsed_string_members(s@) is Some,
        r matches Ok(m) ==> object_keys(m) == parsed_object_keys(s@)->0,
        r matches Ok(m) ==> string_members(m) == parsed_string_members(s@)->0,
        r matches Ok(m) ==> within_read_limit(m),
{
    serde_json::from_str(s)
}

/// Relies on serde_json::from_str into `()`: it reads the JSON `null` and fails
/// on any other text.
#[verifier::external_body]
fn parse_null(s: &str) -> (r: Result<(), serde_json::Error>)
    ensures
        r is Ok <==> parsed_null(s@),
{
    serde_json::from_str(s)
}

/// Relies on serde_json::Map::new: an object without members.
#[verifier::external_body]
fn empty_object() -> (r: serde_json::Map<String, serde_json::Value>)
    ensures
        object_keys(r).is_empty(),
        string_members(r).is_empty(),
        member_texts(r).is_empty(),
        within_read_limit(r),
{
    serde_json::Map::new()
}

/// Relies on serde_json::Map::insert: the key is added, or its value replaced
/// by the JSON string, and the other members stay.
#[verifier::external_body]
fn insert_string(m: &mut serde_json::Map<String, serde_json::Value>, k: String, v: String)
    ensures
        object_keys(*final(m)) == object_keys(*old(m)).insert(k@),
        string_members(*final(m)) == string_members(*old(m)).insert(k@, v@),
        member_texts(*final(m)).dom() == member_texts(*old(m)).dom().insert(k@),
        member_texts(*final(m)).remove(k@) == member_texts(*old(m)).remove(k@),
        within_read_limit(*old(m)) ==> within_read_limit(*final(m)),
{
    m.insert(k, serde_json::Value::String(v));
}

/// Relies on serde_json::to_string: a map with string keys and JSON values is
/// always written, and serde_json reads the same keys and string members back
/// from the text where the nesting allows.
#[verifier::external_body]
fn render_object(m: &serde_json::Map<String, serde_json::Value>) -> (r: Result<String, serde_json::Error>)
    ensures
        r is Ok,
        within_read_limit(*m) ==> (r matches Ok(t) ==> parsed_object_keys(t@) == Some(
            object_keys(*m),
        )),
        within_read_limit(*m) ==> (r matches Ok(t) ==> parsed_string_members(t@) == Some(
            string_members(*m),
        )),
{
    serde_json::to_string(m)
}

/// The key under which the device identifier is injected.
pub open spec fn secret_key() -> Seq<char> {
    "secret"@
}

/// Adds the member `"secret": <secret>` to a JSON object; every other member
/// stays as it was.
pub fn tag_object(m: serde_json::Map<String, serde_json::Value>, secret: &str) -> (r:
    serde_json::Map<String, serde_json::Value>)
    ensures
        object_keys(r) == object_keys(m).insert(secret_key()),
        string_members(r) == string_members(m).insert(secret_key(), secret@),
        member_texts(r).dom() == member_texts(m).dom().insert(secret_key()),
        member_texts(r).remove(secret_key()) == member_texts(m).remove(secret_key()),
        within_read_limit(m) ==> within_read_limit(r),
{
    let mut m = m;
    insert_string(&mut m, String::from_str("secret"), secret.to_string());
    m
}

/// Writes a tagged object back as text, as the payload.
fn render_tagged(m: &serde_json::Map<String, serde_json::Value>) -> (r: Result<String, PumpError>)
    ensures
        r is Ok,
        within_read_limit(*m) ==> (r matches Ok(t) ==> parsed_object_keys(t@) == Some(
            object_keys(*m),
        )),
        within_read_limit(*m) ==> (r matches Ok(t) ==> parsed_string_members(t@) == Some(
            string_members(*m),
        )),
{
    match render_object(m) {
        Ok(text) => Ok(text),
        Err(_) => Err(PumpError::ParseFailure),
    }
}

/// The text `t` is an object with the given keys and string members, to which
/// `"secret": <secret>` was added.
pub open spec fn tagged_text(
    t: Seq<char>,
    keys: Set<Seq<char>>,
    strings: Map<Seq<char>, Seq<char>>,
    secret: Seq<char>,
) -> bool {
    &&& parsed_object_keys(t) == Some(keys.insert(secret_key()))
    &&& parsed_string_members(t) == Some(strings.insert(secret_key(), secret))
}

/// What tagged mode makes of the file's contents: an object gets the member
/// `"secret"`, `null` becomes the object holding that member alone, anything
/// else is a `ParseFailure`.
pub open spec fn tagged_result(
    contents: Seq<char>,
    secret: Seq<char>,
    r: Result<String, PumpError>,
) -> bool {
    match parsed_object_keys(contents) {
        Some(keys) => r matches Ok(t) && tagged_text(
            t@,
            keys,
            parsed_string_members(contents)->0,
            secret,
        ),
        None => if parsed_null(contents) {
            r matches Ok(t) && tagged_text(t@, Set::empty(), Map::empty(), secret)
        } else {
            r == Err::<String, PumpError>(PumpError::ParseFailure)
        },
    }
}

/// How the file's contents become a payload: forwarded as they are, or read as
/// a JSON object that gets the device identifier injected.
#[derive(Debug, PartialEq, Eq)]
pub enum PayloadMode {
    Raw,
    Tagged { secret: String },
}

impl PayloadMode {
    /// Turns the contents of the watched file into the payload to send.
    ///
    /// An empty or half-written file is handled like any other: forwarded as it
    /// is, or refused as not being a JSON object.
    pub fn prepare(&self, contents: String) -> (r: Result<String, PumpError>)
        ensures
            *self is Raw ==> r == Ok::<String, PumpError>(contents),
            *self matches PayloadMode::Tagged { secret } ==> tagged_result(contents@, secret@, r),
    {
        match self {
            PayloadMode::Raw => Ok(contents),
            PayloadMode::Tagged { secret } => match parse_object(contents.as_str()) {
                Ok(m) => render_tagged(&tag_object(m, secret.as_str())),
                Err(_) => match parse_null(contents.as_str()) {
                    Ok(()) => {
                        let empty = empty_object();
                        proof {
                            assert(object_keys(empty) =~= Set::empty());
                            assert(string_members(empty) =~= Map::empty());
                        }
                        render_tagged(&tag_object(empty, secret.as_str()))
                    },
                    Err(_) => Err(PumpError::ParseFailure),
                },
            },
        }
    }
}

} // verus!
