//! The typed result of a query, and the rules by which a document is read
//! into it.

use crate::failure::{Failure, Stage};
use crate::json::{json_model, Json};
use crate::lookup::{flag_at, get_bool, get_number, get_string, number_at, text_at, text_view};
use serde_json::Value;
use vstd::prelude::*;

verus! {

/// A name together with its abbreviation.
#[derive(Debug, PartialEq)]
pub struct NameAndCode {
    /// The name
    pub name: String,
    /// The abbreviation
    pub code: String,
}

/// The content of a [`NameAndCode`].
pub struct Named {
    pub name: Seq<char>,
    pub code: Seq<char>,
}

impl View for NameAndCode {
    type V = Named;

    open spec fn view(&self) -> Named {
        Named { name: self.name@, code: self.code@ }
    }
}

/// Geographic coordinates in degrees. Each is held as the bit pattern of the
/// IEEE 754 double that the document gave, so that nothing of it is lost;
/// `f64::from_bits` gives the number back.
#[derive(Debug, PartialEq, Eq, Clone, Copy)]
pub struct Coordinates {
    /// The latitude
    pub latitude_bits: u64,
    /// The longitude
    pub longitude_bits: u64,
}

/// What is known of an address.
#[derive(Debug, PartialEq)]
pub struct Response {
    /// IP used for the query
    pub query: String,
    /// The country the IP is thought to be in
    pub country: Option<NameAndCode>,
    /// The region the IP is thought to be in
    pub region: Option<NameAndCode>,
    /// The city the IP is thought to be in
    pub city: Option<String>,
    /// The ZIP code the IP is thought to have
    pub zip: Option<String>,
    /// The predicted location of this IP
    pub location: Option<Coordinates>,
    /// City timezone
    pub timezone: Option<String>,
    /// The name of the Internet Service Provider
    pub isp: Option<String>,
    /// The organization that is thought to own this IP.
    pub organization: Option<String>,
    /// Autonomous system number (ASN) and name, separated by space
    pub autonomous_system: Option<String>,
    /// Reverse DNS of the IP
    pub reverse: Option<String>,
    /// Mobile (cellular) connection
    pub mobile: bool,
    /// Proxy (anonymous)
    pub proxy: bool,
}

/// The content of a [`Response`].
pub struct Decoded {
    pub query: Seq<char>,
    pub country: Option<Named>,
    pub region: Option<Named>,
    pub city: Option<Seq<char>>,
    pub zip: Option<Seq<char>>,
    pub location: Option<Coordinates>,
    pub timezone: Option<Seq<char>>,
    pub isp: Option<Seq<char>>,
    pub organization: Option<Seq<char>>,
    pub autonomous_system: Option<Seq<char>>,
    pub reverse: Option<Seq<char>>,
    pub mobile: bool,
    pub proxy: bool,
}

/// The content of an optional [`NameAndCode`].
pub open spec fn named_view(pair: Option<NameAndCode>) -> Option<Named> {
    match pair {
        Some(pair) => Some(pair@),
        None => None,
    }
}

impl View for Response {
    type V = Decoded;

    open spec fn view(&self) -> Decoded {
        Decoded {
            query: self.query@,
            country: named_view(self.country),
            region: named_view(self.region),
            city: text_view(self.city),
            zip: text_view(self.zip),
            location: self.location,
            timezone: text_view(self.timezone),
            isp: text_view(self.isp),
            organization: text_view(self.organization),
            autonomous_system: text_view(self.autonomous_system),
            reverse: text_view(self.reverse),
            mobile: self.mobile,
            proxy: self.proxy,
        }
    }
}

/// How a result of the library reads in contracts: the content of the
/// response, or the stage that failed.
pub open spec fn outcome(result: Result<Response, Failure>) -> Result<Decoded, Stage> {
    match result {
        Ok(response) => Ok(response@),
        Err(failure) => Err(failure.stage()),
    }
}

/// The pairing rule for a name and its abbreviation: the pair is present
/// exactly where both halves are present and neither is empty.
pub open spec fn paired(name: Option<Seq<char>>, code: Option<Seq<char>>) -> Option<Named> {
    match (name, code) {
        (Some(name), Some(code)) => if name.len() > 0 && code.len() > 0 {
            Some(Named { name, code })
        } else {
            None
        },
        _ => None,
    }
}

/// The pairing rule for coordinates: the pair is present exactly where both
/// numbers are.
pub open spec fn located(latitude: Option<u64>, longitude: Option<u64>) -> Option<Coordinates> {
    match (latitude, longitude) {
        (Some(latitude_bits), Some(longitude_bits)) => Some(
            Coordinates { latitude_bits, longitude_bits },
        ),
        _ => None,
    }
}

/// The pair that a document gives under two keys.
pub open spec fn pair_at(doc: Json, name_key: Seq<char>, code_key: Seq<char>) -> Option<Named> {
    paired(text_at(doc, name_key), text_at(doc, code_key))
}

/// The coordinates that a document gives under two keys.
pub open spec fn coordinates_at(doc: Json, latitude_key: Seq<char>, longitude_key: Seq<char>) -> Option<Coordinates> {
    located(number_at(doc, latitude_key), number_at(doc, longitude_key))
}

/// What a document of the service says: every field as the document gives
/// it, and a failure of the projection where the document does not name the
/// address it answers for.
pub open spec fn projected(doc: Json) -> Result<Decoded, Stage> {
    match text_at(doc, "query"@) {
        None => Err(Stage::Projection),
        Some(query) => Ok(
            Decoded {
                query,
                country: pair_at(doc, "country"@, "countryCode"@),
                region: pair_at(doc, "regionName"@, "region"@),
                city: text_at(doc, "city"@),
                zip: text_at(doc, "zip"@),
                location: coordinates_at(doc, "lat"@, "lon"@),
                timezone: text_at(doc, "timezone"@),
                isp: text_at(doc, "isp"@),
                organization: text_at(doc, "org"@),
                autonomous_system: text_at(doc, "as"@),
                reverse: text_at(doc, "reverse"@),
                mobile: flag_at(doc, "mobile"@),
                proxy: flag_at(doc, "proxy"@),
            },
        ),
    }
}

impl NameAndCode {
    /// Pairs a name with its abbreviation, if both are there and say
    /// something.
    pub fn pair(name: Option<String>, code: Option<String>) -> (r: Option<NameAndCode>)
        ensures
            named_view(r) == paired(text_view(name), text_view(code)),
    {
        match (name, code) {
            (Some(name), Some(code)) => {
                if name.as_str().is_empty() || code.as_str().is_empty() {
                    None
                } else {
                    Some(NameAndCode { name, code })
                }
            },
            _ => None,
        }
    }
}

impl Coordinates {
    /// Pairs a latitude with a longitude, if both are there.
    pub fn pair(latitude: Option<u64>, longitude: Option<u64>) -> (r: Option<Coordinates>)
        ensures
            r == located(latitude, longitude),
    {
        match (latitude, longitude) {
            (Some(latitude_bits), Some(longitude_bits)) => Some(
                Coordinates { latitude_bits, longitude_bits },
            ),
            _ => None,
        }
    }
}

/// Reads the coordinates that `json` gives under the two keys.
pub fn get_coordinates(json: &Value, latitude_index: &str, longitude_index: &str) -> (r: Option<Coordinates>)
    ensures
        r == coordinates_at(json_model(*json), latitude_index@, longitude_index@),
{
    Coordinates::pair(get_number(json, latitude_index), get_number(json, longitude_index))
}

/// Reads the name and the abbreviation that `json` gives under the two keys.
pub fn get_name_and_code(json: &Value, name_index: &str, code_index: &str) -> (r: Option<NameAndCode>)
    ensures
        named_view(r) == pair_at(json_model(*json), name_index@, code_index@),
{
    NameAndCode::pair(get_string(json, name_index), get_string(json, code_index))
}

/// Reads a parsed document into a [`Response`]. Only a document that does
/// not name the address it answers for is refused: that address is taken
/// from the document alone, never from the request. Every other field is
/// absent, or `false`, where the document does not give it.
pub fn project(json: &Value) -> (r: Result<Response, Failure>)
    ensures
        outcome(r) == projected(json_model(*json)),
        r matches Err(failure) ==> failure is MissingQuery,
{
    match get_string(json, "query") {
        None => Err(Failure::MissingQuery),
        Some(query) => Ok(
            Response {
                query,
                country: get_name_and_code(json, "country", "countryCode"),
                region: get_name_and_code(json, "regionName", "region"),
                city: get_string(json, "city"),
                zip: get_string(json, "zip"),
                location: get_coordinates(json, "lat", "lon"),
                timezone: get_string(json, "timezone"),
                isp: get_string(json, "isp"),
                organization: get_string(json, "org"),
                autonomous_system: get_string(json, "as"),
                reverse: get_string(json, "reverse"),
                mobile: get_bool(json, "mobile"),
                proxy: get_bool(json, "proxy"),
            },
        ),
    }
}

} // verus!
