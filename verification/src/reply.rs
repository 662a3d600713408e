//! Reading what the service answers.
//!
//! A reply is a JSON object. Its `error` member, where it is a string, is
//! the service's refusal; its `result` member carries the answer. Each kind
//! of lookup has a function that reads the parsed reply, and one that takes
//! the outcome of the round trip as the transport reports it.

use crate::error::{Error, Failure};
use crate::json::{json_of, json_parse, jsons_of, member, parse, Json};
use crate::record::{record_of, Postcode, PostcodeView};
use serde_json::Value;
use vstd::prelude::*;

verus! {

/// The message that every failure to find the expected shape carries.
pub open spec fn no_message() -> Seq<char> {
    Seq::empty()
}

/// The message of a validation whose `result` is no boolean.
pub open spec fn not_a_bool() -> Seq<char> {
    "result wasn't a bool"@
}

/// What a lookup gave, with the record by its view.
pub open spec fn answer_view(r: Result<Postcode, Error>) -> Result<PostcodeView, Failure> {
    match r {
        Ok(p) => Ok(p@),
        Err(e) => Err(e@),
    }
}

/// What a bulk lookup gave, with each record by its view.
pub open spec fn answers_view(r: Result<Vec<Postcode>, Error>) -> Result<
    Seq<PostcodeView>,
    Failure,
> {
    match r {
        Ok(all) => Ok(all@.map_values(|p: Postcode| p@)),
        Err(e) => Err(e@),
    }
}

/// What a validation gave.
pub open spec fn verdict_view(r: Result<bool, Error>) -> Result<bool, Failure> {
    match r {
        Ok(b) => Ok(b),
        Err(e) => Err(e@),
    }
}

/// The outcome of a round trip, as texts: the body that came back, or the
/// transport's message.
pub open spec fn outcome_view(outcome: Result<String, String>) -> Result<Seq<char>, Seq<char>> {
    match outcome {
        Ok(body) => Ok(body@),
        Err(message) => Err(message@),
    }
}

/// The reply that a round trip brought: a failed round trip is a transport
/// error with the transport's message, and a body that is no JSON a parse
/// error with the parser's message.
pub open spec fn reply_of(outcome: Result<Seq<char>, Seq<char>>) -> Result<Json, Failure> {
    match outcome {
        Err(message) => Err(Failure::Http(message)),
        Ok(body) => match json_parse(body) {
            Ok(reply) => Ok(reply),
            Err(message) => Err(Failure::Json(message)),
        },
    }
}

/// The service's refusal: the `error` member of the reply, where it is a
/// string.
pub open spec fn refusal(reply: Json) -> Option<Seq<char>> {
    match reply.member("error"@) {
        Some(Json::Text(message)) => Some(message),
        _ => None,
    }
}

/// The answer to a lookup of one postcode: the service's refusal if there
/// is one, and else the record read from `result`.
pub open spec fn single_answer(reply: Json) -> Result<PostcodeView, Failure> {
    match refusal(reply) {
        Some(message) => Err(Failure::Other(message)),
        None => Ok(record_of(reply.part("result"@))),
    }
}

/// The answer to a lookup by coordinates: the service's refusal if there is
/// one, and else the record read from the first element of `result`. A
/// `result` without a first element is a parse error.
pub open spec fn nearest_answer(reply: Json) -> Result<PostcodeView, Failure> {
    match refusal(reply) {
        Some(message) => Err(Failure::Other(message)),
        None => match reply.part("result"@) {
            Json::Array(found) => if found.len() > 0 {
                Ok(record_of(found[0]))
            } else {
                Err(Failure::Json(no_message()))
            },
            _ => Err(Failure::Json(no_message())),
        },
    }
}

/// The record that one entry of a bulk reply carries in its own `result`,
/// unless that is missing or null.
pub open spec fn entry_record(entry: Json) -> Option<PostcodeView> {
    match entry.member("result"@) {
        None => None,
        Some(Json::Null) => None,
        Some(found) => Some(record_of(found)),
    }
}

/// The answer to a bulk lookup: the service's refusal if there is one, and
/// else the records of the entries of `result`, one for each entry and in
/// their order. A `result` that is no array, or an entry without a record,
/// is a parse error for the whole lookup.
pub open spec fn bulk_answer(reply: Json) -> Result<Seq<PostcodeView>, Failure> {
    match refusal(reply) {
        Some(message) => Err(Failure::Other(message)),
        None => match reply.part("result"@) {
            Json::Array(entries) => if forall|i: int|
                0 <= i < entries.len() ==> (#[trigger] entry_record(entries[i])) is Some {
                Ok(Seq::new(entries.len(), |i: int| entry_record(entries[i])->0))
            } else {
                Err(Failure::Json(no_message()))
            },
            _ => Err(Failure::Json(no_message())),
        },
    }
}

/// The answer to a validation: the boolean under `result`, and a parse
/// error where there is none.
pub open spec fn verdict(reply: Json) -> Result<bool, Failure> {
    match reply.part("result"@) {
        Json::Bool(valid) => Ok(valid),
        _ => Err(Failure::Json(not_a_bool())),
    }
}

/// What a round trip for one postcode, or for a random one, comes to.
pub open spec fn lookup_answer(outcome: Result<Seq<char>, Seq<char>>) -> Result<
    PostcodeView,
    Failure,
> {
    match reply_of(outcome) {
        Ok(reply) => single_answer(reply),
        Err(failure) => Err(failure),
    }
}

/// What a round trip for a lookup by coordinates comes to.
pub open spec fn coordinates_answer(outcome: Result<Seq<char>, Seq<char>>) -> Result<
    PostcodeView,
    Failure,
> {
    match reply_of(outcome) {
        Ok(reply) => nearest_answer(reply),
        Err(failure) => Err(failure),
    }
}

/// What a round trip for a bulk lookup comes to.
pub open spec fn multi_lookup_answer(outcome: Result<Seq<char>, Seq<char>>) -> Result<
    Seq<PostcodeView>,
    Failure,
> {
    match reply_of(outcome) {
        Ok(reply) => bulk_answer(reply),
        Err(failure) => Err(failure),
    }
}

/// What a round trip for a validation comes to.
pub open spec fn validation_answer(outcome: Result<Seq<char>, Seq<char>>) -> Result<bool, Failure> {
    match reply_of(outcome) {
        Ok(reply) => verdict(reply),
        Err(failure) => Err(failure),
    }
}

/// Parses what a round trip brought.
pub fn receive(outcome: Result<String, String>) -> (r: Result<Value, Error>)
    ensures
        match r {
            Ok(reply) => reply_of(outcome_view(outcome)) == Ok::<Json, Failure>(json_of(reply)),
            Err(e) => reply_of(outcome_view(outcome)) == Err::<Json, Failure>(e@),
        },
{
    match outcome {
        Err(message) => Err(Error::Http(message)),
        Ok(body) => match parse(body.as_str()) {
            Ok(reply) => Ok(reply),
            Err(message) => Err(Error::Json(message)),
        },
    }
}

/// Finds the service's refusal in a reply.
pub fn find_refusal(reply: &Value) -> (r: Option<String>)
    ensures
        match r {
            Some(message) => refusal(json_of(*reply)) == Some(message@),
            None => refusal(json_of(*reply)) is None,
        },
{
    match member(reply, "error") {
        Some(e) => match e.as_str() {
            Some(message) => Some(message.to_owned()),
            None => None,
        },
        None => None,
    }
}

impl Postcode {
    /// Reads the reply to a lookup of one postcode.
    pub fn from_reply(reply: &Value) -> (r: Result<Postcode, Error>)
        ensures
            answer_view(r) == single_answer(json_of(*reply)),
    {
        match find_refusal(reply) {
            Some(message) => Err(Error::Other(message)),
            None => match member(reply, "result") {
                Some(found) => Postcode::json(found),
                None => {
                    proof {
                        crate::record::lemma_nothing_in_null();
                    }
                    Ok(Postcode::blank())
                },
            },
        }
    }

    /// Reads the reply to a lookup by coordinates.
    pub fn first_from_reply(reply: &Value) -> (r: Result<Postcode, Error>)
        ensures
            answer_view(r) == nearest_answer(json_of(*reply)),
    {
        match find_refusal(reply) {
            Some(message) => Err(Error::Other(message)),
            None => match member(reply, "result") {
                Some(result) => match result.as_array() {
                    Some(found) => if found.len() > 0 {
                        Postcode::json(&found[0])
                    } else {
                        Err(Error::Json(String::new()))
                    },
                    None => Err(Error::Json(String::new())),
                },
                None => Err(Error::Json(String::new())),
            },
        }
    }

    /// Reads the reply to a bulk lookup.
    pub fn each_from_reply(reply: &Value) -> (r: Result<Vec<Postcode>, Error>)
        ensures
            answers_view(r) == bulk_answer(json_of(*reply)),
    {
        match find_refusal(reply) {
            Some(message) => Err(Error::Other(message)),
            None => match member(reply, "result") {
                Some(result) => match result.as_array() {
                    Some(entries) => {
                        let r = Postcode::each_of(entries);
                        proof {
                            lemma_entries_settle_answer(json_of(*reply), entries@, r);
                        }
                        r
                    },
                    None => Err(Error::Json(String::new())),
                },
                None => Err(Error::Json(String::new())),
            },
        }
    }

    /// Reads the record of every entry of a bulk reply, and fails at the
    /// first entry that has none.
    fn each_of(entries: &Vec<Value>) -> (r: Result<Vec<Postcode>, Error>)
        ensures
            match r {
                Ok(all) => {
                    &&& all.len() == entries.len()
                    &&& forall|i: int|
                        0 <= i < entries.len() ==> entry_record(json_of(#[trigger] entries@[i]))
                            == Some(all@[i]@)
                },
                Err(e) => {
                    &&& e@ == Failure::Json(no_message())
                    &&& exists|i: int|
                        0 <= i < entries.len() && entry_record(json_of(#[trigger] entries@[i]))
                            is None
                },
            },
    {
        let mut all: Vec<Postcode> = Vec::new();
        let mut at: usize = 0;
        while at < entries.len()
            invariant
                at <= entries.len(),
                all.len() == at,
                forall|i: int|
                    0 <= i < at ==> entry_record(json_of(#[trigger] entries@[i])) == Some(
                        all@[i]@,
                    ),
            decreases entries.len() - at,
        {
            let record = match member(&entries[at], "result") {
                Some(found) => if found.is_null() {
                    None
                } else {
                    match Postcode::json(found) {
                        Ok(p) => Some(p),
                        Err(_) => None,
                    }
                },
                None => None,
            };
            match record {
                Some(p) => {
                    all.push(p);
                },
                None => {
                    return Err(Error::Json(String::new()));
                },
            }
            at += 1;
        }
        Ok(all)
    }

    /// Takes the outcome of the round trip for a lookup of one postcode.
    pub fn from_code(outcome: Result<String, String>) -> (r: Result<Postcode, Error>)
        ensures
            answer_view(r) == lookup_answer(outcome_view(outcome)),
    {
        match receive(outcome) {
            Ok(reply) => Postcode::from_reply(&reply),
            Err(e) => Err(e),
        }
    }

    /// Takes the outcome of the round trip for a random postcode.
    pub fn random(outcome: Result<String, String>) -> (r: Result<Postcode, Error>)
        ensures
            answer_view(r) == lookup_answer(outcome_view(outcome)),
    {
        match receive(outcome) {
            Ok(reply) => Postcode::from_reply(&reply),
            Err(e) => Err(e),
        }
    }

    /// Takes the outcome of the round trip for a lookup by coordinates.
    pub fn from_coordinates(outcome: Result<String, String>) -> (r: Result<Postcode, Error>)
        ensures
            answer_view(r) == coordinates_answer(outcome_view(outcome)),
    {
        match receive(outcome) {
            Ok(reply) => Postcode::first_from_reply(&reply),
            Err(e) => Err(e),
        }
    }

    /// Takes the outcome of the round trip for a bulk lookup.
    pub fn from_multi_lookup(outcome: Result<String, String>) -> (r: Result<Vec<Postcode>, Error>)
        ensures
            answers_view(r) == multi_lookup_answer(outcome_view(outcome)),
    {
        match receive(outcome) {
            Ok(reply) => Postcode::each_from_reply(&reply),
            Err(e) => Err(e),
        }
    }
}

/// What was read entry by entry is the answer to the bulk lookup.
proof fn lemma_entries_settle_answer(
    reply: Json,
    entries: Seq<Value>,
    r: Result<Vec<Postcode>, Error>,
)
    requires
        refusal(reply) is None,
        reply.part("result"@) == Json::Array(jsons_of(entries)),
        match r {
            Ok(all) => {
                &&& all.len() == entries.len()
                &&& forall|i: int|
                    0 <= i < entries.len() ==> entry_record(json_of(#[trigger] entries[i])) == Some(
                        all@[i]@,
                    )
            },
            Err(e) => {
                &&& e@ == Failure::Json(no_message())
                &&& exists|i: int|
                    0 <= i < entries.len() && entry_record(json_of(#[trigger] entries[i])) is None
            },
        },
    ensures
        answers_view(r) == bulk_answer(reply),
{
    let found = jsons_of(entries);
    assert forall|i: int| 0 <= i < found.len() implies found[i] == json_of(entries[i]) by {}
    match r {
        Ok(all) => {
            assert forall|i: int| 0 <= i < found.len() implies (#[trigger] entry_record(
                found[i],
            )) is Some by {
                assert(entry_record(json_of(entries[i])) == Some(all@[i]@));
            }
            let read = all@.map_values(|p: Postcode| p@);
            let owed = Seq::new(found.len(), |i: int| entry_record(found[i])->0);
            assert forall|i: int| 0 <= i < read.len() implies read[i] == owed[i] by {
                assert(entry_record(json_of(entries[i])) == Some(all@[i]@));
            }
            assert(read =~= owed);
        },
        Err(e) => {
            let i = choose|i: int|
                0 <= i < entries.len() && entry_record(json_of(#[trigger] entries[i])) is None;
            assert(entry_record(found[i]) is None);
        },
    }
}

/// Reads the reply to a validation.
pub fn verdict_from_reply(reply: &Value) -> (r: Result<bool, Error>)
    ensures
        verdict_view(r) == verdict(json_of(*reply)),
{
    match member(reply, "result") {
        Some(result) => match result.as_bool() {
            Some(valid) => Ok(valid),
            None => Err(Error::Json("result wasn't a bool".to_owned())),
        },
        None => Err(Error::Json("result wasn't a bool".to_owned())),
    }
}

/// Takes the outcome of the round trip for a validation.
pub fn validate(outcome: Result<String, String>) -> (r: Result<bool, Error>)
    ensures
        verdict_view(r) == validation_answer(outcome_view(outcome)),
{
    match receive(outcome) {
        Ok(reply) => verdict_from_reply(&reply),
        Err(e) => Err(e),
    }
}

} // verus!
