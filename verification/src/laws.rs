//! What holds of every document and of every target, stated once and proved
//! from the definitions that the contracts use.

use crate::body::{decoded, joined};
use crate::failure::Stage;
use crate::json::{json_member, json_parsed, Json};
use crate::lookup::{flag_at, number_at, text_at};
use crate::request::{base_endpoint, target_text};
use crate::response::{coordinates_at, pair_at, projected, Decoded};
use vstd::prelude::*;
use vstd::utf8::{decode_utf8, valid_utf8};

verus! {

/// `doc` has a string under `key`.
pub open spec fn has_text(doc: Json, key: Seq<char>) -> bool {
    json_member(doc, key) matches Some(Json::Text(_))
}

/// `doc` has a string under `key`, and the string is not empty.
pub open spec fn has_name(doc: Json, key: Seq<char>) -> bool {
    json_member(doc, key) matches Some(Json::Text(text)) && text.len() > 0
}

/// `doc` has a number under `key`.
pub open spec fn has_number(doc: Json, key: Seq<char>) -> bool {
    json_member(doc, key) matches Some(Json::Number(_))
}

/// `doc` has a boolean under `key`.
pub open spec fn has_flag(doc: Json, key: Seq<char>) -> bool {
    json_member(doc, key) matches Some(Json::Flag(_))
}

/// `doc` gives every key of the service with a value of the kind that the
/// key calls for, and leaves no half of a name and its abbreviation empty.
pub open spec fn complete(doc: Json) -> bool {
    &&& has_text(doc, "query"@)
    &&& has_name(doc, "country"@)
    &&& has_name(doc, "countryCode"@)
    &&& has_name(doc, "regionName"@)
    &&& has_name(doc, "region"@)
    &&& has_text(doc, "city"@)
    &&& has_text(doc, "zip"@)
    &&& has_number(doc, "lat"@)
    &&& has_number(doc, "lon"@)
    &&& has_text(doc, "timezone"@)
    &&& has_text(doc, "isp"@)
    &&& has_text(doc, "org"@)
    &&& has_text(doc, "as"@)
    &&& has_text(doc, "reverse"@)
    &&& has_flag(doc, "mobile"@)
    &&& has_flag(doc, "proxy"@)
}

/// The value that `doc` holds under `key`.
pub open spec fn value_at(doc: Json, key: Seq<char>) -> Json {
    json_member(doc, key).unwrap()
}

/// A complete document is read in full: the result exists, none of its
/// fields is absent, and each holds the very value that the document has
/// under the key of that field.
pub proof fn law_complete_document_is_read_in_full(doc: Json)
    requires
        complete(doc),
    ensures
        projected(doc) matches Ok(answer) && {
            &&& Json::Text(answer.query) == value_at(doc, "query"@)
            &&& answer.country matches Some(country) && {
                &&& Json::Text(country.name) == value_at(doc, "country"@)
                &&& Json::Text(country.code) == value_at(doc, "countryCode"@)
            }
            &&& answer.region matches Some(region) && {
                &&& Json::Text(region.name) == value_at(doc, "regionName"@)
                &&& Json::Text(region.code) == value_at(doc, "region"@)
            }
            &&& answer.city matches Some(city) && Json::Text(city) == value_at(doc, "city"@)
            &&& answer.zip matches Some(zip) && Json::Text(zip) == value_at(doc, "zip"@)
            &&& answer.location matches Some(location) && {
                &&& Json::Number(location.latitude_bits) == value_at(doc, "lat"@)
                &&& Json::Number(location.longitude_bits) == value_at(doc, "lon"@)
            }
            &&& answer.timezone matches Some(timezone) && Json::Text(timezone) == value_at(
                doc,
                "timezone"@,
            )
            &&& answer.isp matches Some(isp) && Json::Text(isp) == value_at(doc, "isp"@)
            &&& answer.organization matches Some(organization) && Json::Text(organization)
                == value_at(doc, "org"@)
            &&& answer.autonomous_system matches Some(autonomous_system) && Json::Text(
                autonomous_system,
            ) == value_at(doc, "as"@)
            &&& answer.reverse matches Some(reverse) && Json::Text(reverse) == value_at(
                doc,
                "reverse"@,
            )
            &&& Json::Flag(answer.mobile) == value_at(doc, "mobile"@)
            &&& Json::Flag(answer.proxy) == value_at(doc, "proxy"@)
        },
{
}

/// A name and its abbreviation come both or neither: under any two keys the
/// pair is present exactly where each key holds a string that is not empty,
/// and it then holds those two strings.
pub proof fn law_pair_is_both_or_neither(doc: Json, name_key: Seq<char>, code_key: Seq<char>)
    ensures
        pair_at(doc, name_key, code_key) is Some <==> has_name(doc, name_key) && has_name(
            doc,
            code_key,
        ),
        pair_at(doc, name_key, code_key) matches Some(pair) ==> Some(pair.name) == text_at(
            doc,
            name_key,
        ) && Some(pair.code) == text_at(doc, code_key),
{
}

/// A document that names a country but gives no country code has no country
/// in its result.
pub proof fn law_country_without_code_is_absent(doc: Json)
    requires
        json_member(doc, "country"@) is Some,
        json_member(doc, "countryCode"@) is None,
    ensures
        pair_at(doc, "country"@, "countryCode"@) is None,
        projected(doc) matches Ok(answer) ==> answer.country is None,
{
}

/// A document without the keys `mobile` and `proxy` reads as neither mobile
/// nor proxy.
pub proof fn law_absent_flags_read_false(doc: Json)
    requires
        json_member(doc, "mobile"@) is None,
        json_member(doc, "proxy"@) is None,
    ensures
        !flag_at(doc, "mobile"@),
        !flag_at(doc, "proxy"@),
        projected(doc) matches Ok(answer) ==> !answer.mobile && !answer.proxy,
{
}

/// A flag is true only where the document holds `true` under its key.
pub proof fn law_flag_is_true_only_if_stated(doc: Json, key: Seq<char>)
    ensures
        flag_at(doc, key) <==> json_member(doc, key) == Some(Json::Flag(true)),
{
}

/// A document whose latitude is a string, not a number, has no location in
/// its result, whatever its longitude is.
pub proof fn law_textual_latitude_gives_no_location(doc: Json)
    requires
        has_text(doc, "lat"@),
    ensures
        coordinates_at(doc, "lat"@, "lon"@) is None,
        projected(doc) matches Ok(answer) ==> answer.location is None,
{
}

/// Coordinates come both or neither: under any two keys they are present
/// exactly where each key holds a number, and they then hold those numbers.
pub proof fn law_location_is_both_or_neither(doc: Json, latitude_key: Seq<char>, longitude_key: Seq<char>)
    ensures
        coordinates_at(doc, latitude_key, longitude_key) is Some <==> has_number(
            doc,
            latitude_key,
        ) && has_number(doc, longitude_key),
        coordinates_at(doc, latitude_key, longitude_key) matches Some(place) ==> Some(
            place.latitude_bits,
        ) == number_at(doc, latitude_key) && Some(place.longitude_bits) == number_at(
            doc,
            longitude_key,
        ),
{
}

/// A document is refused exactly where it holds no string under `query`;
/// no other key decides whether there is a result, and the address of the
/// result is the one that the document names.
pub proof fn law_query_alone_is_required(doc: Json)
    ensures
        projected(doc) is Ok <==> has_text(doc, "query"@),
        projected(doc) matches Ok(answer) ==> Some(answer.query) == text_at(doc, "query"@),
{
}

/// `first` and `second` hold the same under `key`: the same value, or both
/// nothing.
pub open spec fn agree_at(first: Json, second: Json, key: Seq<char>) -> bool {
    json_member(first, key) == json_member(second, key)
}

/// Each field is read from its own keys and from nothing else: where two
/// documents that both have a result agree under the keys of a field, their
/// results agree in that field, whatever else the documents hold.
pub proof fn law_fields_are_read_independently(first: Json, second: Json)
    requires
        projected(first) is Ok,
        projected(second) is Ok,
    ensures
        ({
            let a = projected(first).unwrap();
            let b = projected(second).unwrap();
            &&& agree_at(first, second, "query"@) ==> a.query == b.query
            &&& agree_at(first, second, "country"@) && agree_at(first, second, "countryCode"@)
                ==> a.country == b.country
            &&& agree_at(first, second, "regionName"@) && agree_at(first, second, "region"@)
                ==> a.region == b.region
            &&& agree_at(first, second, "city"@) ==> a.city == b.city
            &&& agree_at(first, second, "zip"@) ==> a.zip == b.zip
            &&& agree_at(first, second, "lat"@) && agree_at(first, second, "lon"@) ==> a.location
                == b.location
            &&& agree_at(first, second, "timezone"@) ==> a.timezone == b.timezone
            &&& agree_at(first, second, "isp"@) ==> a.isp == b.isp
            &&& agree_at(first, second, "org"@) ==> a.organization == b.organization
            &&& agree_at(first, second, "as"@) ==> a.autonomous_system == b.autonomous_system
            &&& agree_at(first, second, "reverse"@) ==> a.reverse == b.reverse
            &&& agree_at(first, second, "mobile"@) ==> a.mobile == b.mobile
            &&& agree_at(first, second, "proxy"@) ==> a.proxy == b.proxy
        }),
{
}

/// Joining keeps the order of the bytes however the body was cut into
/// chunks: the chunks of a first part followed by those of a second part join
/// into the bytes of the first part followed by those of the second.
pub proof fn law_chunks_join_in_order(first: Seq<Vec<u8>>, second: Seq<Vec<u8>>)
    ensures
        joined(first + second) == joined(first) + joined(second),
    decreases second.len(),
{
    if second.len() == 0 {
        assert(first + second =~= first);
        assert(joined(second) =~= Seq::<u8>::empty());
    } else {
        let front = second.drop_last();
        let chunk = second.last();
        law_chunks_join_in_order(first, front);
        assert(first + second =~= (first + front).push(chunk));
        assert(second =~= front.push(chunk));
        (first + front).lemma_flat_map_push(|chunk: Vec<u8>| chunk@, chunk);
        front.lemma_flat_map_push(|chunk: Vec<u8>| chunk@, chunk);
    }
}

/// A body that came in one chunk is that chunk, and a body without chunks is
/// empty.
pub proof fn law_single_chunk_is_the_body(chunk: Vec<u8>)
    ensures
        joined(seq![chunk]) == chunk@,
        joined(Seq::<Vec<u8>>::empty()) == Seq::<u8>::empty(),
{
    let none = Seq::<Vec<u8>>::empty();
    assert(joined(none) =~= Seq::<u8>::empty());
    assert(seq![chunk] =~= none.push(chunk));
    none.lemma_flat_map_push(|chunk: Vec<u8>| chunk@, chunk);
}

/// Bytes that are not UTF-8 end in a failure of the encoding stage, whatever
/// else they hold: nothing is read out of such a body.
pub proof fn law_invalid_utf8_fails_at_encoding(body: Seq<u8>)
    requires
        !valid_utf8(body),
    ensures
        decoded(body) == Err::<Decoded, Stage>(Stage::Encoding),
{
}

/// UTF-8 text that is not a JSON document ends in a failure of the parse
/// stage.
pub proof fn law_invalid_json_fails_at_parse(body: Seq<u8>)
    requires
        valid_utf8(body),
        json_parsed(decode_utf8(body)) is None,
    ensures
        decoded(body) == Err::<Decoded, Stage>(Stage::Parse),
{
}

/// Decoding is all or nothing: there is a result only where every stage has
/// passed, the result is then the projection of the parsed document, and no
/// decoding fails at the transport stage.
pub proof fn law_decoding_is_all_or_nothing(body: Seq<u8>)
    ensures
        decoded(body) is Ok ==> valid_utf8(body),
        decoded(body) is Ok ==> (json_parsed(decode_utf8(body)) matches Some(doc) && decoded(body)
            == projected(doc) && has_text(doc, "query"@)),
        decoded(body) != Err::<Decoded, Stage>(Stage::Transport),
{
}

/// Without an address the target is the endpoint as it stands: nothing
/// follows it, and it does not end in a slash. With an address the target is
/// longer by a slash and the address.
pub proof fn law_target_without_address_is_bare(address: Seq<char>)
    ensures
        target_text(None) == base_endpoint(),
        target_text(None).len() == 22,
        target_text(None).last() != '/',
        target_text(Some(address)).len() == 23 + address.len(),
        target_text(Some(address)).subrange(0, 22) == target_text(None),
        target_text(Some(address))[22] == '/',
        target_text(Some(address)).skip(23) == address,
{
    reveal_strlit("http://ip-api.com/json");
    reveal_strlit("/");
    assert(target_text(Some(address)).subrange(0, 22) =~= target_text(None));
    assert(target_text(Some(address)).skip(23) =~= address);
}

} // verus!
