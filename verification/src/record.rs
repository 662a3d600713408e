//! The record of one postcode, and how it is read from a JSON value.

use crate::error::Error;
use crate::json::{
    compact_text, double_bits, json_of, json_text, member, needs_no_escape, number_bits, quoted,
    Json,
};
use crate::text::{strip_quotes, without_quotes};
use serde_json::Value;
use vstd::prelude::*;

verus! {

/// A double-precision number, held by its IEEE 754 bit pattern.
#[derive(Debug, Clone, Copy, PartialEq, Eq, Hash)]
pub struct Double {
    pub bits: u64,
}

/// More obscure codes that describe a postcode.
#[derive(Debug, Clone, PartialEq, Eq, Hash)]
pub struct Codes {
    pub admin_district: String,
    pub admin_county: String,
    pub admin_ward: String,
    pub parish: String,
    pub parliamentary_constituency: String,
    pub ccg: String,
    pub ccg_id: String,
    pub ced: String,
    pub nuts: String,
    pub lsoa: String,
    pub msoa: String,
    pub lau2: String,
}

/// The main struct that defines a postcode.
#[derive(Debug, Clone, PartialEq)]
pub struct Postcode {
    pub postcode: String,
    pub quality: Double,
    pub eastings: Double,
    pub northings: Double,
    pub country: String,
    pub nhs_ha: String,
    pub longitude: Double,
    pub latitude: Double,
    pub european_electoral_region: String,
    pub primary_care_trust: String,
    pub region: String,
    pub lsoa: String,
    pub msoa: String,
    pub incode: String,
    pub outcode: String,
    pub parliamentary_constituency: String,
    pub admin_district: String,
    pub parish: String,
    pub admin_county: String,
    pub admin_ward: String,
    pub ced: String,
    pub ccg: String,
    pub nuts: String,
    pub codes: Codes,
}

/// A [`Codes`] with its texts as sequences of characters.
pub struct CodesView {
    pub admin_district: Seq<char>,
    pub admin_county: Seq<char>,
    pub admin_ward: Seq<char>,
    pub parish: Seq<char>,
    pub parliamentary_constituency: Seq<char>,
    pub ccg: Seq<char>,
    pub ccg_id: Seq<char>,
    pub ced: Seq<char>,
    pub nuts: Seq<char>,
    pub lsoa: Seq<char>,
    pub msoa: Seq<char>,
    pub lau2: Seq<char>,
}

/// A [`Postcode`] with its texts as sequences of characters and its numbers
/// as bit patterns.
pub struct PostcodeView {
    pub postcode: Seq<char>,
    pub quality: u64,
    pub eastings: u64,
    pub northings: u64,
    pub country: Seq<char>,
    pub nhs_ha: Seq<char>,
    pub longitude: u64,
    pub latitude: u64,
    pub european_electoral_region: Seq<char>,
    pub primary_care_trust: Seq<char>,
    pub region: Seq<char>,
    pub lsoa: Seq<char>,
    pub msoa: Seq<char>,
    pub incode: Seq<char>,
    pub outcode: Seq<char>,
    pub parliamentary_constituency: Seq<char>,
    pub admin_district: Seq<char>,
    pub parish: Seq<char>,
    pub admin_county: Seq<char>,
    pub admin_ward: Seq<char>,
    pub ced: Seq<char>,
    pub ccg: Seq<char>,
    pub nuts: Seq<char>,
    pub codes: CodesView,
}

impl View for Codes {
    type V = CodesView;

    open spec fn view(&self) -> CodesView {
        CodesView {
            admin_district: self.admin_district@,
            admin_county: self.admin_county@,
            admin_ward: self.admin_ward@,
            parish: self.parish@,
            parliamentary_constituency: self.parliamentary_constituency@,
            ccg: self.ccg@,
            ccg_id: self.ccg_id@,
            ced: self.ced@,
            nuts: self.nuts@,
            lsoa: self.lsoa@,
            msoa: self.msoa@,
            lau2: self.lau2@,
        }
    }
}

impl View for Postcode {
    type V = PostcodeView;

    open spec fn view(&self) -> PostcodeView {
        PostcodeView {
            postcode: self.postcode@,
            quality: self.quality.bits,
            eastings: self.eastings.bits,
            northings: self.northings.bits,
            country: self.country@,
            nhs_ha: self.nhs_ha@,
            longitude: self.longitude.bits,
            latitude: self.latitude.bits,
            european_electoral_region: self.european_electoral_region@,
            primary_care_trust: self.primary_care_trust@,
            region: self.region@,
            lsoa: self.lsoa@,
            msoa: self.msoa@,
            incode: self.incode@,
            outcode: self.outcode@,
            parliamentary_constituency: self.parliamentary_constituency@,
            admin_district: self.admin_district@,
            parish: self.parish@,
            admin_county: self.admin_county@,
            admin_ward: self.admin_ward@,
            ced: self.ced@,
            ccg: self.ccg@,
            nuts: self.nuts@,
            codes: self.codes@,
        }
    }
}

/// What a JSON value reads as where a text is wanted: its compact JSON text
/// without the double quotes. So a string that needs no escape reads as
/// itself, and a null as the word `null`.
pub open spec fn shown(j: Json) -> Seq<char> {
    match j {
        Json::Null => "null"@,
        Json::Text(s) => if needs_no_escape(s) {
            s
        } else {
            without_quotes(json_text(j))
        },
        _ => without_quotes(json_text(j)),
    }
}

/// The text under `name`: what the member reads as, or the empty text where
/// there is no such member.
pub open spec fn text_field(record: Json, name: Seq<char>) -> Seq<char> {
    match record.member(name) {
        Some(m) => shown(m),
        None => Seq::empty(),
    }
}

/// The number under `name`, as the bit pattern of a double: that of the
/// member where it is a number with a double, and zero otherwise.
pub open spec fn number_field(record: Json, name: Seq<char>) -> u64 {
    match record.member(name) {
        Some(Json::Number(digits)) => match number_bits(digits) {
            Some(bits) => bits,
            None => 0,
        },
        _ => 0,
    }
}

/// Writes a value as a text field holds it.
fn show(v: &Value) -> (r: String)
    ensures
        r@ == shown(json_of(*v)),
{
    let text = compact_text(v);
    let r = strip_quotes(text.as_str());
    proof {
        match json_of(*v) {
            Json::Null => {
                reveal_strlit("null");
                lemma_unquoted_stays("null"@);
            },
            Json::Text(s) => {
                if needs_no_escape(s) {
                    lemma_quoted_strips(s);
                }
            },
            _ => {},
        }
    }
    r
}

/// The codes that a JSON value gives: each one the text under its own name.
pub open spec fn codes_of(group: Json) -> CodesView {
    CodesView {
        admin_district: text_field(group, "admin_district"@),
        admin_county: text_field(group, "admin_county"@),
        admin_ward: text_field(group, "admin_ward"@),
        parish: text_field(group, "parish"@),
        parliamentary_constituency: text_field(group, "parliamentary_constituency"@),
        ccg: text_field(group, "ccg"@),
        ccg_id: text_field(group, "ccg_id"@),
        ced: text_field(group, "ced"@),
        nuts: text_field(group, "nuts"@),
        lsoa: text_field(group, "lsoa"@),
        msoa: text_field(group, "msoa"@),
        lau2: text_field(group, "lau2"@),
    }
}

/// The record that a JSON value gives. Each text is the one under its own
/// name and each number the one under its own name; `nuts` is the text of
/// the whole `codes` member, and `codes` is read from that member.
pub open spec fn record_of(record: Json) -> PostcodeView {
    PostcodeView {
        postcode: text_field(record, "postcode"@),
        quality: number_field(record, "quality"@),
        eastings: number_field(record, "eastings"@),
        northings: number_field(record, "northings"@),
        country: text_field(record, "country"@),
        nhs_ha: text_field(record, "nhs_ha"@),
        longitude: number_field(record, "longitude"@),
        latitude: number_field(record, "latitude"@),
        european_electoral_region: text_field(record, "european_electoral_region"@),
        primary_care_trust: text_field(record, "primary_care_trust"@),
        region: text_field(record, "region"@),
        lsoa: text_field(record, "lsoa"@),
        msoa: text_field(record, "msoa"@),
        incode: text_field(record, "incode"@),
        outcode: text_field(record, "outcode"@),
        parliamentary_constituency: text_field(record, "parliamentary_constituency"@),
        admin_district: text_field(record, "admin_district"@),
        parish: text_field(record, "parish"@),
        admin_county: text_field(record, "admin_county"@),
        admin_ward: text_field(record, "admin_ward"@),
        ced: text_field(record, "ced"@),
        ccg: text_field(record, "ccg"@),
        nuts: text_field(record, "codes"@),
        codes: codes_of(record.part("codes"@)),
    }
}

/// The codes with nothing in them.
pub open spec fn blank_codes() -> CodesView {
    CodesView {
        admin_district: Seq::empty(),
        admin_county: Seq::empty(),
        admin_ward: Seq::empty(),
        parish: Seq::empty(),
        parliamentary_constituency: Seq::empty(),
        ccg: Seq::empty(),
        ccg_id: Seq::empty(),
        ced: Seq::empty(),
        nuts: Seq::empty(),
        lsoa: Seq::empty(),
        msoa: Seq::empty(),
        lau2: Seq::empty(),
    }
}

/// The record with nothing in it: every text empty, every number zero.
pub open spec fn blank_record() -> PostcodeView {
    PostcodeView {
        postcode: Seq::empty(),
        quality: 0,
        eastings: 0,
        northings: 0,
        country: Seq::empty(),
        nhs_ha: Seq::empty(),
        longitude: 0,
        latitude: 0,
        european_electoral_region: Seq::empty(),
        primary_care_trust: Seq::empty(),
        region: Seq::empty(),
        lsoa: Seq::empty(),
        msoa: Seq::empty(),
        incode: Seq::empty(),
        outcode: Seq::empty(),
        parliamentary_constituency: Seq::empty(),
        admin_district: Seq::empty(),
        parish: Seq::empty(),
        admin_county: Seq::empty(),
        admin_ward: Seq::empty(),
        ced: Seq::empty(),
        ccg: Seq::empty(),
        nuts: Seq::empty(),
        codes: blank_codes(),
    }
}

/// Reads the text under `name`, if there is such a member.
fn find_text(record: &Value, name: &str) -> (r: Option<String>)
    ensures
        match r {
            Some(text) => json_of(*record).member(name@) matches Some(m) && text@ == shown(m),
            None => json_of(*record).member(name@) is None,
        },
{
    match member(record, name) {
        Some(m) => Some(show(m)),
        None => None,
    }
}

/// Reads the number under `name`, if there is such a member and it is a
/// number with a double.
fn find_number(record: &Value, name: &str) -> (r: Option<Double>)
    ensures
        match r {
            Some(x) => json_of(*record).member(name@) matches Some(Json::Number(digits))
                && number_bits(digits) == Some(x.bits),
            None => number_field(json_of(*record), name@) == 0,
        },
{
    match member(record, name) {
        Some(m) => match double_bits(m) {
            Some(bits) => Some(Double { bits }),
            None => None,
        },
        None => None,
    }
}

/// Reads the text under `name`, empty where there is none.
fn read_text(record: &Value, name: &str) -> (r: String)
    ensures
        r@ == text_field(json_of(*record), name@),
{
    match find_text(record, name) {
        Some(text) => text,
        None => String::new(),
    }
}

/// Reads the number under `name`, zero where there is none.
fn read_number(record: &Value, name: &str) -> (r: Double)
    ensures
        r.bits == number_field(json_of(*record), name@),
{
    match find_number(record, name) {
        Some(x) => x,
        None => Double::zero(),
    }
}

impl Double {
    /// Positive zero.
    pub fn zero() -> (r: Double)
        ensures
            r.bits == 0,
    {
        Double { bits: 0 }
    }
}

impl Codes {
    /// The codes with nothing in them.
    pub fn blank() -> (r: Codes)
        ensures
            r@ == blank_codes(),
    {
        Codes {
            admin_district: String::new(),
            admin_county: String::new(),
            admin_ward: String::new(),
            parish: String::new(),
            parliamentary_constituency: String::new(),
            ccg: String::new(),
            ccg_id: String::new(),
            ced: String::new(),
            nuts: String::new(),
            lsoa: String::new(),
            msoa: String::new(),
            lau2: String::new(),
        }
    }

    /// Reads the codes from the `codes` member of a record.
    pub fn json(group: &Value) -> (r: Codes)
        ensures
            r@ == codes_of(json_of(*group)),
    {
        Codes {
            admin_district: read_text(group, "admin_district"),
            admin_county: read_text(group, "admin_county"),
            admin_ward: read_text(group, "admin_ward"),
            parish: read_text(group, "parish"),
            parliamentary_constituency: read_text(group, "parliamentary_constituency"),
            ccg: read_text(group, "ccg"),
            ccg_id: read_text(group, "ccg_id"),
            ced: read_text(group, "ced"),
            nuts: read_text(group, "nuts"),
            lsoa: read_text(group, "lsoa"),
            msoa: read_text(group, "msoa"),
            lau2: read_text(group, "lau2"),
        }
    }
}

impl Postcode {
    /// The record with nothing in it.
    pub fn blank() -> (r: Postcode)
        ensures
            r@ == blank_record(),
    {
        Postcode {
            postcode: String::new(),
            quality: Double::zero(),
            eastings: Double::zero(),
            northings: Double::zero(),
            country: String::new(),
            nhs_ha: String::new(),
            longitude: Double::zero(),
            latitude: Double::zero(),
            european_electoral_region: String::new(),
            primary_care_trust: String::new(),
            region: String::new(),
            lsoa: String::new(),
            msoa: String::new(),
            incode: String::new(),
            outcode: String::new(),
            parliamentary_constituency: String::new(),
            admin_district: String::new(),
            parish: String::new(),
            admin_county: String::new(),
            admin_ward: String::new(),
            ced: String::new(),
            ccg: String::new(),
            nuts: String::new(),
            codes: Codes::blank(),
        }
    }

    /// Reads a record from the JSON value that describes one postcode. No
    /// member has to be there: a missing text is empty, and a number that
    /// is missing or is no number is zero.
    pub fn json(v: &Value) -> (r: Result<Postcode, Error>)
        ensures
            r matches Ok(p) && p@ == record_of(json_of(*v)),
    {
        let codes = match member(v, "codes") {
            Some(group) => Codes::json(group),
            None => Codes::blank(),
        };
        proof {
            lemma_nothing_in_null();
        }
        Ok(
            Postcode {
                postcode: read_text(v, "postcode"),
                quality: read_number(v, "quality"),
                eastings: read_number(v, "eastings"),
                northings: read_number(v, "northings"),
                country: read_text(v, "country"),
                nhs_ha: read_text(v, "nhs_ha"),
                longitude: read_number(v, "longitude"),
                latitude: read_number(v, "latitude"),
                european_electoral_region: read_text(v, "european_electoral_region"),
                primary_care_trust: read_text(v, "primary_care_trust"),
                region: read_text(v, "region"),
                lsoa: read_text(v, "lsoa"),
                msoa: read_text(v, "msoa"),
                incode: read_text(v, "incode"),
                outcode: read_text(v, "outcode"),
                parliamentary_constituency: read_text(v, "parliamentary_constituency"),
                admin_district: read_text(v, "admin_district"),
                parish: read_text(v, "parish"),
                admin_county: read_text(v, "admin_county"),
                admin_ward: read_text(v, "admin_ward"),
                ced: read_text(v, "ced"),
                ccg: read_text(v, "ccg"),
                nuts: read_text(v, "codes"),
                codes,
            },
        )
    }
}

/// A value without members gives the blank record and the blank codes.
pub proof fn lemma_nothing_in_null()
    ensures
        codes_of(Json::Null) == blank_codes(),
        record_of(Json::Null) == blank_record(),
{
}

/// Taking the quotes out of a text that has none changes nothing.
proof fn lemma_unquoted_stays(s: Seq<char>)
    requires
        forall|i: int| 0 <= i < s.len() ==> #[trigger] s[i] != '"',
    ensures
        without_quotes(s) == s,
    decreases s.len(),
{
    reveal(Seq::filter);
    if s.len() > 0 {
        lemma_unquoted_stays(s.drop_last());
        assert(s.drop_last().push(s.last()) == s);
    }
}

/// Taking the quotes out of a quoted text that has none inside gives the
/// text back.
proof fn lemma_quoted_strips(s: Seq<char>)
    requires
        forall|i: int| 0 <= i < s.len() ==> #[trigger] s[i] != '"',
    ensures
        without_quotes(quoted(s)) == s,
{
    let not_quote = |c: char| c != '"';
    let mark = seq!['"'];
    assert(mark.filter(not_quote) == Seq::<char>::empty()) by {
        reveal_with_fuel(Seq::filter, 2);
        assert(mark.drop_last().len() == 0);
    }
    lemma_unquoted_stays(s);
    Seq::filter_distributes_over_add(mark, s, not_quote);
    Seq::filter_distributes_over_add(mark + s, mark, not_quote);
}

} // verus!
