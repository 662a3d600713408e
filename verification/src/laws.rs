//! What holds of every reply and every record, proved from the definitions
//! that the contracts of this crate are stated with.

use crate::error::{Error, Failure};
use crate::json::{json_parse, Json};
use crate::record::{record_of, Postcode, PostcodeView};
use crate::reply::{
    answer_view, bulk_answer, coordinates_answer, entry_record, lookup_answer,
    multi_lookup_answer, nearest_answer, no_message, refusal, single_answer,
};
use vstd::prelude::*;

verus! {

/// A reply whose `error` member is a string answers every lookup with the
/// service's refusal, which carries that string unchanged, whatever its
/// `result` holds.
pub proof fn refusal_overrides_result(reply: Json, message: Seq<char>)
    requires
        reply.member("error"@) == Some(Json::Text(message)),
    ensures
        single_answer(reply) == Err::<PostcodeView, Failure>(Failure::Other(message)),
        nearest_answer(reply) == Err::<PostcodeView, Failure>(Failure::Other(message)),
        bulk_answer(reply) == Err::<Seq<PostcodeView>, Failure>(Failure::Other(message)),
{
}

/// The text with nothing in it.
pub open spec fn no_text() -> Seq<char> {
    Seq::empty()
}

/// A text of the record whose member is missing is empty. The `nuts` text
/// is read from the `codes` member.
pub proof fn missing_text_is_empty(record: Json)
    ensures
        ({
            let r = record_of(record);
            &&& record.lacks("postcode"@) ==> r.postcode == no_text()
            &&& record.lacks("country"@) ==> r.country == no_text()
            &&& record.lacks("nhs_ha"@) ==> r.nhs_ha == no_text()
            &&& record.lacks("european_electoral_region"@)
                ==> r.european_electoral_region == no_text()
            &&& record.lacks("primary_care_trust"@) ==> r.primary_care_trust == no_text()
            &&& record.lacks("region"@) ==> r.region == no_text()
            &&& record.lacks("lsoa"@) ==> r.lsoa == no_text()
            &&& record.lacks("msoa"@) ==> r.msoa == no_text()
            &&& record.lacks("incode"@) ==> r.incode == no_text()
            &&& record.lacks("outcode"@) ==> r.outcode == no_text()
            &&& record.lacks("parliamentary_constituency"@)
                ==> r.parliamentary_constituency == no_text()
            &&& record.lacks("admin_district"@) ==> r.admin_district == no_text()
            &&& record.lacks("parish"@) ==> r.parish == no_text()
            &&& record.lacks("admin_county"@) ==> r.admin_county == no_text()
            &&& record.lacks("admin_ward"@) ==> r.admin_ward == no_text()
            &&& record.lacks("ced"@) ==> r.ced == no_text()
            &&& record.lacks("ccg"@) ==> r.ccg == no_text()
            &&& record.lacks("codes"@) ==> r.nuts == no_text()
        }),
{
}

/// A code whose member is missing from the `codes` member of the record,
/// or whose record has no `codes` member at all, is empty.
pub proof fn missing_code_is_empty(record: Json)
    ensures
        ({
            let group = record.part("codes"@);
            let codes = record_of(record).codes;
            &&& group.lacks("admin_district"@) ==> codes.admin_district == no_text()
            &&& group.lacks("admin_county"@) ==> codes.admin_county == no_text()
            &&& group.lacks("admin_ward"@) ==> codes.admin_ward == no_text()
            &&& group.lacks("parish"@) ==> codes.parish == no_text()
            &&& group.lacks("parliamentary_constituency"@)
                ==> codes.parliamentary_constituency == no_text()
            &&& group.lacks("ccg"@) ==> codes.ccg == no_text()
            &&& group.lacks("ccg_id"@) ==> codes.ccg_id == no_text()
            &&& group.lacks("ced"@) ==> codes.ced == no_text()
            &&& group.lacks("nuts"@) ==> codes.nuts == no_text()
            &&& group.lacks("lsoa"@) ==> codes.lsoa == no_text()
            &&& group.lacks("msoa"@) ==> codes.msoa == no_text()
            &&& group.lacks("lau2"@) ==> codes.lau2 == no_text()
        }),
{
}

/// A number of the record whose member is missing, or is no JSON number, is
/// zero: the bit pattern of the double `0.0`.
pub proof fn missing_number_is_zero(record: Json)
    ensures
        ({
            let r = record_of(record);
            &&& !(record.member("quality"@) matches Some(Json::Number(_))) ==> r.quality == 0
            &&& !(record.member("eastings"@) matches Some(Json::Number(_))) ==> r.eastings == 0
            &&& !(record.member("northings"@) matches Some(Json::Number(_))) ==> r.northings == 0
            &&& !(record.member("longitude"@) matches Some(Json::Number(_))) ==> r.longitude == 0
            &&& !(record.member("latitude"@) matches Some(Json::Number(_))) ==> r.latitude == 0
        }),
{
}

/// Two readings of the same JSON value are equal records.
pub proof fn same_value_same_record(value: Json, first: Postcode, second: Postcode)
    requires
        first@ == record_of(value),
        second@ == record_of(value),
    ensures
        first@ == second@,
{
}

/// Two readings of the same body are the same answer, record for record
/// and error for error.
pub proof fn same_body_same_answer(
    body: Seq<char>,
    first: Result<Postcode, Error>,
    second: Result<Postcode, Error>,
)
    requires
        answer_view(first) == lookup_answer(Ok(body)),
        answer_view(second) == lookup_answer(Ok(body)),
    ensures
        answer_view(first) == answer_view(second),
{
}

/// A body that parses to a reply with the service's refusal in it answers
/// every lookup with that refusal.
pub proof fn refusal_overrides_body(body: Seq<char>, message: Seq<char>)
    ensures
        json_parse(body) matches Ok(reply) && reply.member("error"@) == Some(Json::Text(message))
            ==> {
            &&& lookup_answer(Ok(body)) == Err::<PostcodeView, Failure>(Failure::Other(message))
            &&& coordinates_answer(Ok(body)) == Err::<PostcodeView, Failure>(
                Failure::Other(message),
            )
            &&& multi_lookup_answer(Ok(body)) == Err::<Seq<PostcodeView>, Failure>(
                Failure::Other(message),
            )
        },
{
}

/// A bulk lookup that succeeds gives one record for each entry of `result`,
/// and the record at each place is the one read from the entry at that
/// place.
pub proof fn bulk_answer_keeps_order(reply: Json, all: Seq<PostcodeView>)
    requires
        bulk_answer(reply) == Ok::<Seq<PostcodeView>, Failure>(all),
    ensures
        reply.part("result"@) matches Json::Array(entries) && all.len() == entries.len()
            && forall|i: int|
            0 <= i < entries.len() ==> entry_record(#[trigger] entries[i]) == Some(all[i]),
{
}

/// A bulk lookup fails as a whole when one entry of `result` carries no
/// record, however many others do.
pub proof fn bulk_answer_is_all_or_nothing(reply: Json, entries: Seq<Json>, i: int)
    requires
        refusal(reply) is None,
        reply.part("result"@) == Json::Array(entries),
        0 <= i < entries.len(),
        entry_record(entries[i]) is None,
    ensures
        bulk_answer(reply) == Err::<Seq<PostcodeView>, Failure>(Failure::Json(no_message())),
{
}

/// A lookup by coordinates whose `result` is an empty array fails, and
/// gives no blank record.
pub proof fn nearest_answer_needs_a_match(reply: Json)
    requires
        refusal(reply) is None,
        reply.part("result"@) == Json::Array(Seq::<Json>::empty()),
    ensures
        nearest_answer(reply) == Err::<PostcodeView, Failure>(Failure::Json(no_message())),
{
}

} // verus!
