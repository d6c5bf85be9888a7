use vstd::prelude::*;
use crate::capability::SensorCapability;
use crate::errors::OdinSentinelError;
use crate::json::{Json, JsonItems, JsonMembers};
use crate::records::{Device, DeviceList, RecordId, SensorData, SensorList, SensorRecord};
use crate::text::{decimal_string, lemma_decimal_injective, parse_u32, spec_decimal};
use vstd::string::StringExecFns;

verus! {

/// The UTC time, in milliseconds since the Unix epoch, that an RFC 3339 text
/// denotes, if it is one.
pub uninterp spec fn time_of(text: Seq<char>) -> Option<i64>;

/// The RFC 3339 text, in UTC with milliseconds and a `Z` suffix, of a time in
/// milliseconds since the Unix epoch, if the time is representable.
pub uninterp spec fn time_text(millis: i64) -> Option<Seq<char>>;

/// Relies on chrono's `DateTime::parse_from_rfc3339` and
/// `DateTime::timestamp_millis`: the instant that the text denotes. chrono
/// reads four-digit years only, so chrono can also write the instant.
#[verifier::external_body]
fn parse_time(text: &str) -> (r: Option<i64>)
    ensures
        r == time_of(text@),
        r matches Some(m) ==> time_text(m) is Some,
{
    match chrono::DateTime::parse_from_rfc3339(text) {
        Ok(t) => Some(t.timestamp_millis()),
        Err(_) => None,
    }
}

/// Relies on chrono's `DateTime::from_timestamp_millis` and
/// `DateTime::to_rfc3339_opts` with milliseconds and `Z`: the text of an instant.
#[verifier::external_body]
pub(crate) fn format_time(millis: i64) -> (r: Option<String>)
    ensures
        match r {
            Some(s) => time_text(millis) == Some(s@),
            None => time_text(millis) is None,
        },
{
    match chrono::DateTime::from_timestamp_millis(millis) {
        Some(t) => Some(t.to_rfc3339_opts(chrono::SecondsFormat::Millis, true)),
        None => None,
    }
}

/// The text of the string member `key`.
pub open spec fn str_member(ms: JsonMembers, key: Seq<char>) -> Option<Seq<char>> {
    match ms.spec_get(key) {
        Some(Json::Str(s)) => Some(s@),
        _ => None,
    }
}

/// The literal text of the number member `key`.
pub open spec fn number_member(ms: JsonMembers, key: Seq<char>) -> Option<Seq<char>> {
    match ms.spec_get(key) {
        Some(Json::Number(t)) => Some(t@),
        _ => None,
    }
}

/// The value of the number member `key`, if its text is the decimal
/// rendering of a `u32`.
pub open spec fn u32_member(ms: JsonMembers, key: Seq<char>) -> Option<u32> {
    match number_member(ms, key) {
        Some(t) => if exists|n: u32| t == spec_decimal(n as nat) {
            Some(choose|n: u32| t == spec_decimal(n as nat))
        } else {
            None
        },
        None => None,
    }
}

/// The ids of an array of `{"id": ...}` objects.
pub open spec fn id_list(items: JsonItems) -> Option<Seq<Seq<char>>>
    decreases items,
{
    match items {
        JsonItems::Nil => Some(Seq::empty()),
        JsonItems::Cons(v, rest) => match v {
            Json::Object(ms) => match (str_member(*ms, "id"@), id_list(*rest)) {
                (Some(id), Some(ids)) => Some(seq![id] + ids),
                _ => None,
            },
            _ => None,
        },
    }
}

/// The ids of the array member `key`.
pub open spec fn ids_member(ms: JsonMembers, key: Seq<char>) -> Option<Seq<Seq<char>>> {
    match ms.spec_get(key) {
        Some(Json::Array(items)) => id_list(*items),
        _ => None,
    }
}

/// The names under which a record's payload may come: `data` or a capability name.
pub open spec fn is_payload_key(k: Seq<char>) -> bool {
    k == "data"@ || SensorCapability::spec_from_name(k) is Some
}

/// The value of the first member whose name is a payload name.
pub open spec fn payload_member(ms: JsonMembers) -> Option<Json>
    decreases ms,
{
    match ms {
        JsonMembers::Nil => None,
        JsonMembers::Cons(k, v, rest) => if is_payload_key(k@) {
            Some(v)
        } else {
            payload_member(*rest)
        },
    }
}

/// The time of the `timeRecorded` member.
pub open spec fn time_member(ms: JsonMembers) -> Option<i64> {
    match str_member(ms, "timeRecorded"@) {
        Some(t) => time_of(t),
        None => None,
    }
}

pub open spec fn ids_view(v: Seq<RecordId>) -> Seq<Seq<char>> {
    v.map_values(|r: RecordId| r.id@)
}

/// `v` is a record object with every field in its expected form, where
/// `time` is what its `timeRecorded` text denotes.
pub open spec fn decodable_at(v: Json, time: Option<i64>) -> bool {
    match v {
        Json::Object(ms) => {
            &&& str_member(*ms, "id"@) is Some
            &&& str_member(*ms, "timeRecorded"@) is Some
            &&& time is Some
            &&& u32_member(*ms, "sensorNo"@) is Some
            &&& str_member(*ms, "deviceId"@) is Some
            &&& ids_member(*ms, "evidences"@) is Some
            &&& ids_member(*ms, "claims"@) is Some
            &&& payload_member(*ms) is Some
        },
        _ => false,
    }
}

/// `r` is the record that the object `v` describes, where `time` is what its
/// `timeRecorded` text denotes.
pub open spec fn decodes_to_at(v: Json, r: SensorRecord<Json>, time: Option<i64>) -> bool {
    match v {
        Json::Object(ms) => {
            &&& str_member(*ms, "id"@) == Some(r.id@)
            &&& str_member(*ms, "timeRecorded"@) is Some
            &&& time == Some(r.time_recorded)
            &&& u32_member(*ms, "sensorNo"@) == Some(r.sensor_no)
            &&& str_member(*ms, "deviceId"@) == Some(r.device_id@)
            &&& ids_member(*ms, "evidences"@) == Some(ids_view(r.evidences@))
            &&& ids_member(*ms, "claims"@) == Some(ids_view(r.claims@))
            &&& payload_member(*ms) == Some(r.data)
        },
        _ => false,
    }
}

/// The time that the `timeRecorded` text of `v` denotes.
pub open spec fn record_time(v: Json) -> Option<i64> {
    match v {
        Json::Object(ms) => time_member(*ms),
        _ => None,
    }
}

/// `v` is a record object with every field in its expected form.
pub open spec fn decodable(v: Json) -> bool {
    decodable_at(v, record_time(v))
}

/// `r` is the record that the object `v` describes.
pub open spec fn decodes_to(v: Json, r: SensorRecord<Json>) -> bool {
    decodes_to_at(v, r, record_time(v))
}

/// The member names of an encoded record of capability `cap`, in order.
pub open spec fn record_keys(cap: SensorCapability) -> Seq<Seq<char>> {
    seq![
        "id"@,
        "timeRecorded"@,
        "sensorNo"@,
        "deviceId"@,
        "evidences"@,
        "claims"@,
        cap.spec_name(),
    ]
}

/// `v` is an object that encodes every field of `r` but the payload, with
/// `time` as the text of its time, and has a member named after `cap` for
/// the payload.
pub open spec fn encodes_fields_at<T>(r: SensorRecord<T>, cap: SensorCapability, v: Json, time: Seq<char>) -> bool {
    match v {
        Json::Object(ms) => {
            &&& ms.spec_keys() == record_keys(cap)
            &&& str_member(*ms, "id"@) == Some(r.id@)
            &&& str_member(*ms, "timeRecorded"@) == Some(time)
            &&& number_member(*ms, "sensorNo"@) == Some(spec_decimal(r.sensor_no as nat))
            &&& str_member(*ms, "deviceId"@) == Some(r.device_id@)
            &&& ids_member(*ms, "evidences"@) == Some(ids_view(r.evidences@))
            &&& ids_member(*ms, "claims"@) == Some(ids_view(r.claims@))
        },
        _ => false,
    }
}

/// `v` is the object that encodes `r` with `time` as the text of its time and
/// its payload under the name of `cap`.
pub open spec fn encodes_to_at(r: SensorRecord<Json>, cap: SensorCapability, v: Json, time: Seq<char>) -> bool {
    &&& encodes_fields_at(r, cap, v, time)
    &&& v->Object_0.spec_get(cap.spec_name()) == Some(r.data)
}

/// `v` is an object that encodes every field of `r` but the payload, and
/// has a member named after `cap` for it.
pub open spec fn encodes_fields<T>(r: SensorRecord<T>, cap: SensorCapability, v: Json) -> bool {
    time_text(r.time_recorded) matches Some(t) && encodes_fields_at(r, cap, v, t)
}

/// `v` is the object that encodes `r` with its payload under the name of `cap`.
pub open spec fn encodes_to(r: SensorRecord<Json>, cap: SensorCapability, v: Json) -> bool {
    &&& encodes_fields(r, cap, v)
    &&& v->Object_0.spec_get(cap.spec_name()) == Some(r.data)
}

fn json_error(what: &str) -> (r: OdinSentinelError)
    ensures
        r is JsonError,
{
    let mut s = String::from_str("record field missing or malformed: ");
    s.append(what);
    OdinSentinelError::JsonError(s)
}

fn member_str(ms: &JsonMembers, key: &str) -> (r: Option<String>)
    ensures
        match r {
            Some(s) => str_member(*ms, key@) == Some(s@),
            None => str_member(*ms, key@) is None,
        },
{
    let k = String::from_str(key);
    match ms.get(&k) {
        Some(Json::Str(s)) => Some(s.clone()),
        _ => None,
    }
}

fn member_u32(ms: &JsonMembers, key: &str) -> (r: Option<u32>)
    ensures
        r == u32_member(*ms, key@),
{
    let k = String::from_str(key);
    match ms.get(&k) {
        Some(Json::Number(t)) => {
            let n = parse_u32(t);
            proof {
                if let Some(v) = n {
                    let c = choose|m: u32| t@ == spec_decimal(m as nat);
                    lemma_decimal_injective(c as nat, v as nat);
                }
            }
            n
        },
        _ => None,
    }
}

/// The ids of an array of `{"id": ...}` objects.
fn ids_of(items: &JsonItems) -> (r: Option<Vec<RecordId>>)
    ensures
        match r {
            Some(v) => id_list(*items) == Some(ids_view(v@)),
            None => id_list(*items) is None,
        },
    decreases items,
{
    match items {
        JsonItems::Nil => {
            let v: Vec<RecordId> = Vec::new();
            assert(ids_view(v@) =~= Seq::<Seq<char>>::empty());
            Some(v)
        },
        JsonItems::Cons(x, rest) => {
            let id = match x {
                Json::Object(ms) => member_str(ms, "id"),
                _ => None,
            };
            match (id, ids_of(rest)) {
                (Some(id), Some(mut v)) => {
                    let ghost tail = v@;
                    v.insert(0, RecordId { id });
                    assert(ids_view(v@) =~= seq![ids_view(v@)[0]] + ids_view(tail));
                    Some(v)
                },
                _ => None,
            }
        },
    }
}

fn member_ids(ms: &JsonMembers, key: &str) -> (r: Option<Vec<RecordId>>)
    ensures
        match r {
            Some(v) => ids_member(*ms, key@) == Some(ids_view(v@)),
            None => ids_member(*ms, key@) is None,
        },
{
    let k = String::from_str(key);
    match ms.get(&k) {
        Some(Json::Array(items)) => ids_of(items),
        _ => None,
    }
}

/// Whether `k` is a name under which a record's payload may come.
pub fn payload_key(k: &String) -> (r: bool)
    ensures
        r == is_payload_key(k@),
{
    let data = String::from_str("data");
    *k == data || SensorCapability::from_name(k).is_some()
}

fn payload_of(ms: &JsonMembers) -> (r: Option<&Json>)
    ensures
        match r {
            Some(v) => payload_member(*ms) == Some(*v),
            None => payload_member(*ms) is None,
        },
    decreases ms,
{
    match ms {
        JsonMembers::Nil => None,
        JsonMembers::Cons(k, v, rest) => if payload_key(k) {
            Some(v)
        } else {
            payload_of(rest)
        },
    }
}

/// Reads a record object whose `timeRecorded` text denotes `time`; the
/// payload may come under `data` or under any capability name. `JsonError`
/// if a field is missing or malformed, or `time` is `None`.
pub fn decode_record_at(v: &Json, time: Option<i64>) -> (r: Result<SensorRecord<Json>, OdinSentinelError>)
    ensures
        r is Ok <==> decodable_at(*v, time),
        r is Ok ==> decodes_to_at(*v, r->Ok_0, time),
        r is Err ==> r->Err_0 is JsonError,
{
    let ms = match v {
        Json::Object(ms) => ms,
        _ => return Err(json_error("record")),
    };
    let id = match member_str(ms, "id") {
        Some(s) => s,
        None => return Err(json_error("id")),
    };
    let time_recorded = match (member_str(ms, "timeRecorded"), time) {
        (Some(_), Some(t)) => t,
        _ => return Err(json_error("timeRecorded")),
    };
    let sensor_no = match member_u32(ms, "sensorNo") {
        Some(n) => n,
        None => return Err(json_error("sensorNo")),
    };
    let device_id = match member_str(ms, "deviceId") {
        Some(s) => s,
        None => return Err(json_error("deviceId")),
    };
    let evidences = match member_ids(ms, "evidences") {
        Some(e) => e,
        None => return Err(json_error("evidences")),
    };
    let claims = match member_ids(ms, "claims") {
        Some(c) => c,
        None => return Err(json_error("claims")),
    };
    let data = match payload_of(ms) {
        Some(p) => p.copy(),
        None => return Err(json_error("data")),
    };
    Ok(SensorRecord { id, time_recorded, sensor_no, device_id, evidences, claims, data })
}

/// Reads a record object; the payload may come under `data` or under any
/// capability name. `JsonError` if a field is missing or malformed.
pub fn decode_record(v: &Json) -> (r: Result<SensorRecord<Json>, OdinSentinelError>)
    ensures
        r is Ok <==> decodable(*v),
        r is Ok ==> decodes_to(*v, r->Ok_0),
        r is Ok ==> time_text(r->Ok_0.time_recorded) is Some,
        r is Err ==> r->Err_0 is JsonError,
{
    let time = match v {
        Json::Object(ms) => match member_str(ms, "timeRecorded") {
            Some(t) => parse_time(t.as_str()),
            None => None,
        },
        _ => None,
    };
    decode_record_at(v, time)
}

/// An array of `{"id": ...}` objects.
fn ids_json(ids: &Vec<RecordId>) -> (r: JsonItems)
    ensures
        id_list(r) == Some(ids_view(ids@)),
{
    let mut items = JsonItems::Nil;
    let mut i: usize = ids.len();
    assert(ids_view(ids@).subrange(i as int, ids@.len() as int) =~= Seq::<Seq<char>>::empty());
    while i > 0
        invariant
            i <= ids@.len(),
            id_list(items) == Some(ids_view(ids@).subrange(i as int, ids@.len() as int)),
        decreases i,
    {
        i = i - 1;
        let key = String::from_str("id");
        let ghost rest = items;
        let obj = Json::Object(
            Box::new(JsonMembers::Cons(key, Json::Str(ids[i].id.clone()), Box::new(JsonMembers::Nil))),
        );
        proof { reveal_strlit("id"); }
        items = JsonItems::Cons(obj, Box::new(items));
        assert(ids_view(ids@).subrange(i as int, ids@.len() as int) =~= seq![ids@[i as int].id@]
            + ids_view(ids@).subrange(i + 1, ids@.len() as int));
    }
    assert(ids_view(ids@).subrange(0, ids@.len() as int) =~= ids_view(ids@));
    items
}

/// None of the record's field names is a capability name or `data`.
proof fn lemma_field_names(cap: SensorCapability)
    ensures
        !is_payload_key("id"@),
        !is_payload_key("timeRecorded"@),
        !is_payload_key("sensorNo"@),
        !is_payload_key("deviceId"@),
        !is_payload_key("evidences"@),
        !is_payload_key("claims"@),
        is_payload_key(cap.spec_name()),
        "id"@ != "timeRecorded"@,
        "id"@ != "sensorNo"@,
        "id"@ != "deviceId"@,
        "id"@ != "evidences"@,
        "id"@ != "claims"@,
        "id"@ != cap.spec_name(),
        "timeRecorded"@ != "sensorNo"@,
        "timeRecorded"@ != "deviceId"@,
        "timeRecorded"@ != "evidences"@,
        "timeRecorded"@ != "claims"@,
        "timeRecorded"@ != cap.spec_name(),
        "sensorNo"@ != "deviceId"@,
        "sensorNo"@ != "evidences"@,
        "sensorNo"@ != "claims"@,
        "sensorNo"@ != cap.spec_name(),
        "deviceId"@ != "evidences"@,
        "deviceId"@ != "claims"@,
        "deviceId"@ != cap.spec_name(),
        "evidences"@ != "claims"@,
        "evidences"@ != cap.spec_name(),
        "claims"@ != cap.spec_name(),
{
    reveal_strlit("id");
    reveal_strlit("timeRecorded");
    reveal_strlit("sensorNo");
    reveal_strlit("deviceId");
    reveal_strlit("evidences");
    reveal_strlit("claims");
    reveal_strlit("data");
    crate::capability::lemma_name_round_trip(cap);
    crate::capability::lemma_all_names_revealed();
    assert forall|c: SensorCapability| #[trigger] c.spec_name() != "id"@ && c.spec_name() != "timeRecorded"@
        && c.spec_name() != "sensorNo"@ && c.spec_name() != "deviceId"@ && c.spec_name() != "evidences"@
        && c.spec_name() != "claims"@ by {
        crate::capability::lemma_all_names_revealed();
        reveal_strlit("id");
        reveal_strlit("timeRecorded");
        reveal_strlit("sensorNo");
        reveal_strlit("deviceId");
        reveal_strlit("evidences");
        reveal_strlit("claims");
        assert("id"@.len() == 2 && "timeRecorded"@.len() == 12 && "sensorNo"@.len() == 8);
        assert("deviceId"@.len() == 8 && "evidences"@.len() == 9 && "claims"@.len() == 6);
        reveal_strlit("accelerometer");
        reveal_strlit("anemometer");
        reveal_strlit("cloudcover");
        reveal_strlit("fire");
        reveal_strlit("gas");
        reveal_strlit("gps");
        reveal_strlit("gyroscope");
        reveal_strlit("image");
        reveal_strlit("magnetometer");
        reveal_strlit("orientation");
        reveal_strlit("person");
        reveal_strlit("power");
        reveal_strlit("smoke");
        reveal_strlit("thermometer");
        reveal_strlit("valve");
        reveal_strlit("voc");
        match c {
            SensorCapability::Accelerometer => { assert(c.spec_name().len() == 13); },
            SensorCapability::Anemometer => { assert(c.spec_name().len() == 10); },
            SensorCapability::Cloudcover => { assert(c.spec_name().len() == 10); },
            SensorCapability::Fire => { assert(c.spec_name().len() == 4); },
            SensorCapability::Gas => { assert(c.spec_name().len() == 3); },
            SensorCapability::Gps => { assert(c.spec_name().len() == 3); },
            SensorCapability::Gyroscope => { assert(c.spec_name().len() == 9); assert("gyroscope"@[0] != "evidences"@[0]); },
            SensorCapability::Image => { assert(c.spec_name().len() == 5); },
            SensorCapability::Magnetometer => { assert(c.spec_name().len() == 12); assert("magnetometer"@[0] != "timeRecorded"@[0]); },
            SensorCapability::Orientation => { assert(c.spec_name().len() == 11); },
            SensorCapability::Person => { assert(c.spec_name().len() == 6); assert("person"@[0] != "claims"@[0]); },
            SensorCapability::Power => { assert(c.spec_name().len() == 5); },
            SensorCapability::Smoke => { assert(c.spec_name().len() == 5); },
            SensorCapability::Thermometer => { assert(c.spec_name().len() == 11); },
            SensorCapability::Valve => { assert(c.spec_name().len() == 5); },
            SensorCapability::Voc => { assert(c.spec_name().len() == 3); },
        }
    }
    assert("id"@[0] != "timeRecorded"@[0]);
    assert("sensorNo"@[0] != "deviceId"@[0]);
    assert("evidences"@[0] != "claims"@[0]);
    assert("data"@.len() != "id"@.len());
}

/// The object of a record with `time` as the text of its time: `id`,
/// `timeRecorded`, `sensorNo`, `deviceId`, `evidences`, `claims`, and the
/// payload under the name of `capability`.
pub fn encode_record_at(rec: SensorRecord<Json>, capability: SensorCapability, time: String) -> (r: Json)
    ensures
        encodes_to_at(rec, capability, r, time@),
{
    let evidences = ids_json(&rec.evidences);
    let claims = ids_json(&rec.claims);
    let sensor_no = decimal_string(rec.sensor_no as u64);
    let m7 = JsonMembers::Cons(String::from_str(capability.name()), rec.data, Box::new(JsonMembers::Nil));
    let m6 = JsonMembers::Cons(String::from_str("claims"), Json::Array(Box::new(claims)), Box::new(m7));
    let m5 = JsonMembers::Cons(String::from_str("evidences"), Json::Array(Box::new(evidences)), Box::new(m6));
    let m4 = JsonMembers::Cons(String::from_str("deviceId"), Json::Str(rec.device_id), Box::new(m5));
    let m3 = JsonMembers::Cons(String::from_str("sensorNo"), Json::Number(sensor_no), Box::new(m4));
    let m2 = JsonMembers::Cons(String::from_str("timeRecorded"), Json::Str(time), Box::new(m3));
    let m1 = JsonMembers::Cons(String::from_str("id"), Json::Str(rec.id), Box::new(m2));
    proof {
        lemma_field_names(capability);
        reveal_with_fuel(JsonMembers::spec_get, 8);
        reveal_with_fuel(JsonMembers::spec_keys, 8);
        assert(m1.spec_keys() =~= record_keys(capability));
    }
    Json::Object(Box::new(m1))
}

/// The object of a record: `id`, `timeRecorded`, `sensorNo`, `deviceId`,
/// `evidences`, `claims`, and the payload under the name of `capability`.
/// `None` if chrono cannot write the record's time.
pub fn encode_record(rec: SensorRecord<Json>, capability: SensorCapability) -> (r: Option<Json>)
    ensures
        match r {
            Some(v) => encodes_to(rec, capability, v),
            None => time_text(rec.time_recorded) is None,
        },
{
    match format_time(rec.time_recorded) {
        Some(t) => Some(encode_record_at(rec, capability, t)),
        None => None,
    }
}

/// In the members of an encoded record, the payload is the member named
/// after the capability.
proof fn lemma_encoded_payload(ms: JsonMembers, cap: SensorCapability)
    requires
        ms.spec_keys() == record_keys(cap),
    ensures
        payload_member(ms) == ms.spec_get(cap.spec_name()),
{
    lemma_field_names(cap);
    reveal_with_fuel(JsonMembers::spec_keys, 8);
    reveal_with_fuel(JsonMembers::spec_get, 8);
    reveal_with_fuel(payload_member, 8);
    let k = ms.spec_keys();
    assert(k[0] == "id"@);
    if let JsonMembers::Cons(_, _, r1) = ms {
        assert(r1.spec_keys() =~= k.drop_first());
        if let JsonMembers::Cons(_, _, r2) = *r1 {
            assert(r2.spec_keys() =~= k.subrange(2, 7));
            if let JsonMembers::Cons(_, _, r3) = *r2 {
                assert(r3.spec_keys() =~= k.subrange(3, 7));
                if let JsonMembers::Cons(_, _, r4) = *r3 {
                    assert(r4.spec_keys() =~= k.subrange(4, 7));
                    if let JsonMembers::Cons(_, _, r5) = *r4 {
                        assert(r5.spec_keys() =~= k.subrange(5, 7));
                        if let JsonMembers::Cons(_, _, r6) = *r5 {
                            assert(r6.spec_keys() =~= k.subrange(6, 7));
                        }
                    }
                }
            }
        }
    }
}

/// Encoding a record and decoding the object gives the record back, but for
/// its time, which comes back as chrono reads the text that chrono wrote; the
/// object is decodable exactly when chrono reads that text.
pub proof fn lemma_encode_then_decode(r: SensorRecord<Json>, cap: SensorCapability, v: Json)
    requires
        encodes_to(r, cap, v),
    ensures
        decodable(v) <==> (time_text(r.time_recorded) matches Some(t) && time_of(t) is Some),
        forall|d: SensorRecord<Json>|
            decodes_to(v, d) ==> {
                &&& d.id@ == r.id@
                &&& d.sensor_no == r.sensor_no
                &&& d.device_id@ == r.device_id@
                &&& ids_view(d.evidences@) == ids_view(r.evidences@)
                &&& ids_view(d.claims@) == ids_view(r.claims@)
                &&& d.data == r.data
                &&& time_of(time_text(r.time_recorded)->Some_0) == Some(d.time_recorded)
            },
{
    if let Json::Object(ms) = v {
        lemma_encoded_payload(*ms, cap);
        let t = spec_decimal(r.sensor_no as nat);
        assert(exists|n: u32| t == spec_decimal(n as nat));
        let c = choose|n: u32| t == spec_decimal(n as nat);
        lemma_decimal_injective(c as nat, r.sensor_no as nat);
        assert(u32_member(*ms, "sensorNo"@) == Some(r.sensor_no));
    }
}

/// Decoding a record object and encoding the record again gives the same
/// members up to their order: the same strings, number text and id lists,
/// the payload under the name of the capability, and the time as chrono
/// writes the instant it read.
pub proof fn lemma_decode_then_encode(v: Json, d: SensorRecord<Json>, cap: SensorCapability, w: Json)
    requires
        decodes_to(v, d),
        encodes_to(d, cap, w),
    ensures
        v is Object && w is Object,
        str_member(*w->Object_0, "id"@) == str_member(*v->Object_0, "id"@),
        str_member(*w->Object_0, "deviceId"@) == str_member(*v->Object_0, "deviceId"@),
        number_member(*w->Object_0, "sensorNo"@) == number_member(*v->Object_0, "sensorNo"@),
        ids_member(*w->Object_0, "evidences"@) == ids_member(*v->Object_0, "evidences"@),
        ids_member(*w->Object_0, "claims"@) == ids_member(*v->Object_0, "claims"@),
        w->Object_0.spec_get(cap.spec_name()) == payload_member(*v->Object_0),
        str_member(*w->Object_0, "timeRecorded"@) == time_text(d.time_recorded),
        time_of(str_member(*v->Object_0, "timeRecorded"@)->Some_0) == Some(d.time_recorded),
{
    if let Json::Object(vs) = v {
        let t = number_member(*vs, "sensorNo"@)->Some_0;
        assert(exists|n: u32| t == spec_decimal(n as nat));
    }
}

/// The text of an optional string member: absent or null is `None`.
pub open spec fn opt_str_member(ms: JsonMembers, key: Seq<char>) -> Option<Option<Seq<char>>> {
    match ms.spec_get(key) {
        None => Some(None),
        Some(Json::Null) => Some(None),
        Some(Json::Str(s)) => Some(Some(s@)),
        _ => None,
    }
}

pub open spec fn opt_view(o: Option<String>) -> Option<Seq<char>> {
    match o {
        Some(s) => Some(s@),
        None => None,
    }
}

/// The id and info of a device object.
pub open spec fn device_of(v: Json) -> Option<(Seq<char>, Option<Seq<char>>)> {
    match v {
        Json::Object(ms) => match (str_member(*ms, "id"@), opt_str_member(*ms, "info"@)) {
            (Some(id), Some(info)) => Some((id, info)),
            _ => None,
        },
        _ => None,
    }
}

/// The devices of an array of device objects.
pub open spec fn devices_of(items: JsonItems) -> Option<Seq<(Seq<char>, Option<Seq<char>>)>>
    decreases items,
{
    match items {
        JsonItems::Nil => Some(Seq::empty()),
        JsonItems::Cons(v, rest) => match (device_of(v), devices_of(*rest)) {
            (Some(d), Some(ds)) => Some(seq![d] + ds),
            _ => None,
        },
    }
}

/// The items of the `data` array of a list response.
pub open spec fn data_items(v: Json) -> Option<JsonItems> {
    match v {
        Json::Object(ms) => match ms.spec_get("data"@) {
            Some(Json::Array(items)) => Some(*items),
            _ => None,
        },
        _ => None,
    }
}

/// The devices of a device list response, in `data` order.
pub open spec fn device_list_of(v: Json) -> Option<Seq<(Seq<char>, Option<Seq<char>>)>> {
    match data_items(v) {
        Some(items) => devices_of(items),
        None => None,
    }
}

pub open spec fn device_view(d: Device) -> (Seq<char>, Option<Seq<char>>) {
    (d.id@, opt_view(d.info))
}

fn member_opt_str(ms: &JsonMembers, key: &str) -> (r: Option<Option<String>>)
    ensures
        match r {
            Some(o) => opt_str_member(*ms, key@) == Some(opt_view(o)),
            None => opt_str_member(*ms, key@) is None,
        },
{
    let k = String::from_str(key);
    match ms.get(&k) {
        None => Some(None),
        Some(Json::Null) => Some(None),
        Some(Json::Str(s)) => Some(Some(s.clone())),
        _ => None,
    }
}

fn data_of(v: &Json) -> (r: Option<&JsonItems>)
    ensures
        match r {
            Some(items) => data_items(*v) == Some(*items),
            None => data_items(*v) is None,
        },
{
    match v {
        Json::Object(ms) => {
            let k = String::from_str("data");
            match ms.get(&k) {
                Some(Json::Array(items)) => Some(items),
                _ => None,
            }
        },
        _ => None,
    }
}

fn devices_from(items: &JsonItems) -> (r: Option<Vec<Device>>)
    ensures
        match r {
            Some(v) => devices_of(*items) == Some(v@.map_values(|d: Device| device_view(d))),
            None => devices_of(*items) is None,
        },
    decreases items,
{
    match items {
        JsonItems::Nil => {
            let v: Vec<Device> = Vec::new();
            assert(v@.map_values(|d: Device| device_view(d)) =~= Seq::empty());
            Some(v)
        },
        JsonItems::Cons(x, rest) => {
            let device = match x {
                Json::Object(ms) => match (member_str(ms, "id"), member_opt_str(ms, "info")) {
                    (Some(id), Some(info)) => Some(Device { id, info }),
                    _ => None,
                },
                _ => None,
            };
            match (device, devices_from(rest)) {
                (Some(d), Some(mut v)) => {
                    let ghost tail = v@;
                    v.insert(0, d);
                    assert(v@.map_values(|d: Device| device_view(d)) =~= seq![device_view(v@[0])]
                        + tail.map_values(|d: Device| device_view(d)));
                    Some(v)
                },
                _ => None,
            }
        },
    }
}

/// Reads a device list response; only its `data` array is used.
pub fn decode_device_list(v: &Json) -> (r: Result<DeviceList, OdinSentinelError>)
    ensures
        r is Ok <==> device_list_of(*v) is Some,
        r is Ok ==> device_list_of(*v) == Some(r->Ok_0.data@.map_values(|d: Device| device_view(d))),
        r is Err ==> r->Err_0 is JsonError,
{
    match data_of(v) {
        Some(items) => match devices_from(items) {
            Some(data) => Ok(DeviceList { data }),
            None => Err(json_error("device")),
        },
        None => Err(json_error("data")),
    }
}

/// The device ids of a decoded device list are the ids of the `data` array,
/// in order.
pub proof fn lemma_device_ids_in_order(v: Json, l: DeviceList)
    requires
        device_list_of(v) == Some(l.data@.map_values(|d: Device| device_view(d))),
    ensures
        l.spec_device_ids() == device_list_of(v)->Some_0.map_values(
            |p: (Seq<char>, Option<Seq<char>>)| p.0,
        ),
{
    assert(l.spec_device_ids() =~= device_list_of(v)->Some_0.map_values(
        |p: (Seq<char>, Option<Seq<char>>)| p.0,
    ));
}

/// The records of a record list response, in `data` order. `JsonError` if
/// there is no `data` array or one of its elements is not a record.
pub fn decode_record_list(v: &Json) -> (r: Result<Vec<SensorRecord<Json>>, OdinSentinelError>)
    ensures
        r is Ok <==> (data_items(*v) matches Some(items) && forall|i: int|
            0 <= i < items.spec_seq().len() ==> decodable(#[trigger] items.spec_seq()[i])),
        r is Ok ==> r->Ok_0@.len() == data_items(*v)->Some_0.spec_seq().len() && forall|i: int|
            0 <= i < r->Ok_0@.len() ==> decodes_to(
                data_items(*v)->Some_0.spec_seq()[i],
                #[trigger] r->Ok_0@[i],
            ),
        r is Ok ==> forall|i: int|
            0 <= i < r->Ok_0@.len() ==> time_text((#[trigger] r->Ok_0@[i]).time_recorded) is Some,
        r is Err ==> r->Err_0 is JsonError,
{
    let items = match data_of(v) {
        Some(items) => items,
        None => return Err(json_error("data")),
    };
    let ghost all = items.spec_seq();
    let mut cur = items;
    let mut recs: Vec<SensorRecord<Json>> = Vec::new();
    loop
        invariant
            data_items(*v) == Some(*items),
            all == items.spec_seq(),
            all == all.take(recs@.len() as int) + cur.spec_seq(),
            recs@.len() <= all.len(),
            forall|i: int| 0 <= i < recs@.len() ==> decodes_to(all[i], #[trigger] recs@[i]),
            forall|i: int| 0 <= i < recs@.len() ==> decodable(#[trigger] all[i]),
            forall|i: int| 0 <= i < recs@.len() ==> time_text((#[trigger] recs@[i]).time_recorded) is Some,
        decreases cur,
    {
        match cur {
            JsonItems::Nil => {
                assert(all.take(recs@.len() as int) =~= all);
                return Ok(recs);
            },
            JsonItems::Cons(x, rest) => {
                let n = recs.len();
                assert(all[n as int] == *x) by {
                    assert((all.take(n as int) + cur.spec_seq())[n as int] == cur.spec_seq()[0]);
                }
                match decode_record(x) {
                    Ok(rec) => recs.push(rec),
                    Err(e) => {
                        assert(!decodable(all[n as int]));
                        return Err(e);
                    },
                }
                assert(all.take(recs@.len() as int) =~= all.take(n as int).push(*x));
                assert(cur.spec_seq() =~= seq![*x] + rest.spec_seq());
                cur = rest;
            },
        }
    }
}

/// The capabilities of an array of capability names.
pub open spec fn capabilities_of(items: JsonItems) -> Option<Seq<SensorCapability>>
    decreases items,
{
    match items {
        JsonItems::Nil => Some(Seq::empty()),
        JsonItems::Cons(v, rest) => match v {
            Json::Str(name) => match (SensorCapability::spec_from_name(name@), capabilities_of(*rest)) {
                (Some(c), Some(cs)) => Some(seq![c] + cs),
                _ => None,
            },
            _ => None,
        },
    }
}

/// The fields of a sensor object: number, device id, part number, capabilities.
pub open spec fn sensor_of(v: Json) -> Option<(u32, Seq<char>, Option<Seq<char>>, Seq<SensorCapability>)> {
    match v {
        Json::Object(ms) => match (
            u32_member(*ms, "no"@),
            str_member(*ms, "deviceId"@),
            opt_str_member(*ms, "partNo"@),
            ms.spec_get("capabilities"@),
        ) {
            (Some(no), Some(device_id), Some(part_no), Some(Json::Array(caps))) => match capabilities_of(*caps) {
                Some(cs) => Some((no, device_id, part_no, cs)),
                None => None,
            },
            _ => None,
        },
        _ => None,
    }
}

pub open spec fn sensors_of(items: JsonItems) -> Option<Seq<(u32, Seq<char>, Option<Seq<char>>, Seq<SensorCapability>)>>
    decreases items,
{
    match items {
        JsonItems::Nil => Some(Seq::empty()),
        JsonItems::Cons(v, rest) => match (sensor_of(v), sensors_of(*rest)) {
            (Some(d), Some(ds)) => Some(seq![d] + ds),
            _ => None,
        },
    }
}

pub open spec fn sensor_view(d: SensorData) -> (u32, Seq<char>, Option<Seq<char>>, Seq<SensorCapability>) {
    (d.no, d.device_id@, opt_view(d.part_no), d.capabilities@)
}

fn capabilities_from(items: &JsonItems) -> (r: Option<Vec<SensorCapability>>)
    ensures
        match r {
            Some(v) => capabilities_of(*items) == Some(v@),
            None => capabilities_of(*items) is None,
        },
    decreases items,
{
    match items {
        JsonItems::Nil => Some(Vec::new()),
        JsonItems::Cons(x, rest) => {
            let c = match x {
                Json::Str(name) => SensorCapability::from_name(name),
                _ => None,
            };
            match (c, capabilities_from(rest)) {
                (Some(c), Some(mut v)) => {
                    let ghost tail = v@;
                    v.insert(0, c);
                    assert(v@ =~= seq![c] + tail);
                    Some(v)
                },
                _ => None,
            }
        },
    }
}

fn sensor_from(v: &Json) -> (r: Option<SensorData>)
    ensures
        match r {
            Some(d) => sensor_of(*v) == Some(sensor_view(d)),
            None => sensor_of(*v) is None,
        },
{
    match v {
        Json::Object(ms) => {
            let no = member_u32(ms, "no");
            let device_id = member_str(ms, "deviceId");
            let part_no = member_opt_str(ms, "partNo");
            let key = String::from_str("capabilities");
            let caps = match ms.get(&key) {
                Some(Json::Array(items)) => capabilities_from(items),
                _ => None,
            };
            match (no, device_id, part_no, caps) {
                (Some(no), Some(device_id), Some(part_no), Some(capabilities)) => Some(
                    SensorData { no, device_id, part_no, capabilities },
                ),
                _ => None,
            }
        },
        _ => None,
    }
}

fn sensors_from(items: &JsonItems) -> (r: Option<Vec<SensorData>>)
    ensures
        match r {
            Some(v) => sensors_of(*items) == Some(v@.map_values(|d: SensorData| sensor_view(d))),
            None => sensors_of(*items) is None,
        },
    decreases items,
{
    match items {
        JsonItems::Nil => {
            let v: Vec<SensorData> = Vec::new();
            assert(v@.map_values(|d: SensorData| sensor_view(d)) =~= Seq::empty());
            Some(v)
        },
        JsonItems::Cons(x, rest) => match (sensor_from(x), sensors_from(rest)) {
            (Some(d), Some(mut v)) => {
                let ghost tail = v@;
                v.insert(0, d);
                assert(v@.map_values(|d: SensorData| sensor_view(d)) =~= seq![sensor_view(v@[0])]
                    + tail.map_values(|d: SensorData| sensor_view(d)));
                Some(v)
            },
            _ => None,
        },
    }
}

/// Reads a sensor list response; only its `data` array is used.
pub fn decode_sensor_list(v: &Json) -> (r: Result<SensorList, OdinSentinelError>)
    ensures
        r is Ok <==> (data_items(*v) matches Some(items) && sensors_of(items) is Some),
        r is Ok ==> sensors_of(data_items(*v)->Some_0) == Some(
            r->Ok_0.data@.map_values(|d: SensorData| sensor_view(d)),
        ),
        r is Err ==> r->Err_0 is JsonError,
{
    match data_of(v) {
        Some(items) => match sensors_from(items) {
            Some(data) => Ok(SensorList { data }),
            None => Err(json_error("sensor")),
        },
        None => Err(json_error("data")),
    }
}

} // verus!
