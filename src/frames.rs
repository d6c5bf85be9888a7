use vstd::prelude::*;
use crate::capability::SensorCapability;
use crate::codec::{number_member, opt_str_member, str_member, u32_member};
use crate::errors::OdinSentinelError;
use crate::json::{Json, JsonItems, JsonMembers};
use crate::text::{decimal_string, lemma_decimal_injective, parse_u32, parse_u64, spec_decimal};
use crate::ws::{WsCmd, WsMsg};
use vstd::string::StringExecFns;

verus! {

/// The `event` name of a frame.
pub open spec fn frame_event(v: Json) -> Option<Seq<char>> {
    match v {
        Json::Object(ms) => str_member(*ms, "event"@),
        _ => None,
    }
}

/// The members of the `data` object of a frame.
pub open spec fn frame_data(v: Json) -> Option<JsonMembers> {
    match v {
        Json::Object(ms) => match ms.spec_get("data"@) {
            Some(Json::Object(d)) => Some(*d),
            _ => None,
        },
        _ => None,
    }
}

/// The events that the server sends.
pub open spec fn known_event(e: Seq<char>) -> bool {
    e == "connected"@ || e == "join"@ || e == "record"@ || e == "pong"@ || e == "trigger-alert"@
        || e == "error"@
}

/// The value of the number member `key`, if its text is the decimal
/// rendering of a `u64`.
pub open spec fn u64_member(ms: JsonMembers, key: Seq<char>) -> Option<u64> {
    match number_member(ms, key) {
        Some(t) => if exists|n: u64| t == spec_decimal(n as nat) {
            Some(choose|n: u64| t == spec_decimal(n as nat))
        } else {
            None
        },
        None => None,
    }
}

/// The strings of an array of strings.
pub open spec fn str_list(items: JsonItems) -> Option<Seq<Seq<char>>>
    decreases items,
{
    match items {
        JsonItems::Nil => Some(Seq::empty()),
        JsonItems::Cons(v, rest) => match (v, str_list(*rest)) {
            (Json::Str(s), Some(ss)) => Some(seq![s@] + ss),
            _ => None,
        },
    }
}

pub open spec fn str_list_member(ms: JsonMembers, key: Seq<char>) -> Option<Seq<Seq<char>>> {
    match ms.spec_get(key) {
        Some(Json::Array(items)) => str_list(*items),
        _ => None,
    }
}

/// The capability named by the string member `key`.
pub open spec fn capability_member(ms: JsonMembers, key: Seq<char>) -> Option<SensorCapability> {
    match str_member(ms, key) {
        Some(name) => SensorCapability::spec_from_name(name),
        None => None,
    }
}

pub open spec fn strings_view(v: Seq<String>) -> Seq<Seq<char>> {
    v.map_values(|s: String| s@)
}

/// The devices of a trigger-alert frame: its `deviceIds` array, or else its
/// single `deviceId`.
pub open spec fn alert_devices(d: JsonMembers) -> Option<Seq<Seq<char>>> {
    match str_list_member(d, "deviceIds"@) {
        Some(ids) => Some(ids),
        None => match str_member(d, "deviceId"@) {
            Some(id) => Some(seq![id]),
            None => None,
        },
    }
}

/// The frame `v` carries the message `m`.
pub open spec fn carries(v: Json, m: WsMsg) -> bool {
    &&& frame_event(v) == Some(m.spec_event())
    &&& frame_data(v) matches Some(d) && match m {
        WsMsg::Connected { message } => str_member(d, "message"@) == Some(message@),
        WsMsg::Join { device_ids, message_id } => {
            &&& str_list_member(d, "deviceIds"@) == Some(strings_view(device_ids@))
            &&& str_member(d, "messageId"@) == Some(message_id@)
        },
        WsMsg::Record { device_id, sensor_no, rec_type } => {
            &&& str_member(d, "deviceId"@) == Some(device_id@)
            &&& u32_member(d, "sensorNo"@) == Some(sensor_no)
            &&& capability_member(d, "type"@) == Some(rec_type)
        },
        WsMsg::Pong { request_time, response_time, message_id } => {
            &&& u64_member(d, "requestTime"@) == Some(request_time)
            &&& u64_member(d, "responseTime"@) == Some(response_time)
            &&& str_member(d, "messageId"@) == Some(message_id@)
        },
        WsMsg::TriggerAlert { device_ids, message_id, result } => {
            &&& alert_devices(d) == Some(strings_view(device_ids@))
            &&& str_member(d, "messageId"@) == Some(message_id@)
            &&& (opt_str_member(d, "result"@) == Some(Some(result@)) || (opt_str_member(d, "result"@)
                == Some(None::<Seq<char>>) && result@ == Seq::<char>::empty()))
        },
        WsMsg::Error { message } => str_member(d, "message"@) == Some(message@),
    }
}

/// The frame `v` carries the command `c`.
pub open spec fn carries_cmd(v: Json, c: WsCmd) -> bool {
    &&& frame_event(v) == Some(c.spec_event())
    &&& frame_data(v) matches Some(d) && match c {
        WsCmd::Ping { request_time, message_id } => {
            &&& number_member(d, "requestTime"@) == Some(spec_decimal(request_time as nat))
            &&& str_member(d, "messageId"@) == Some(message_id@)
        },
        WsCmd::TriggerAlert { device_ids, message_id } => {
            &&& str_list_member(d, "deviceIds"@) == Some(strings_view(device_ids@))
            &&& str_member(d, "messageId"@) == Some(message_id@)
        },
        WsCmd::SwitchLights { device_ids, light_type, state, message_id } => {
            &&& str_list_member(d, "deviceIds"@) == Some(strings_view(device_ids@))
            &&& str_member(d, "type"@) == Some(light_type@)
            &&& str_member(d, "state"@) == Some(state@)
            &&& str_member(d, "messageId"@) == Some(message_id@)
        },
        WsCmd::SwitchValve { device_ids, state, message_id } => {
            &&& str_list_member(d, "deviceIds"@) == Some(strings_view(device_ids@))
            &&& str_member(d, "state"@) == Some(state@)
            &&& str_member(d, "messageId"@) == Some(message_id@)
        },
    }
}

fn frame_error(what: &str) -> (r: OdinSentinelError)
    ensures
        r is JsonError,
{
    let mut s = String::from_str("frame field missing or malformed: ");
    s.append(what);
    OdinSentinelError::JsonError(s)
}

fn get_str(ms: &JsonMembers, key: &str) -> (r: Option<String>)
    ensures
        match r {
            Some(s) => str_member(*ms, key@) == Some(s@),
            None => str_member(*ms, key@) is None,
        },
{
    let k = String::from_str(key);
    match ms.get(&k) {
        Some(Json::Str(s)) => Some(s.clone()),
        _ => None,
    }
}

fn get_u32(ms: &JsonMembers, key: &str) -> (r: Option<u32>)
    ensures
        r == u32_member(*ms, key@),
{
    let k = String::from_str(key);
    match ms.get(&k) {
        Some(Json::Number(t)) => {
            let n = parse_u32(t);
            proof {
                if let Some(v) = n {
                    let c = choose|m: u32| t@ == spec_decimal(m as nat);
                    lemma_decimal_injective(c as nat, v as nat);
                }
            }
            n
        },
        _ => None,
    }
}

fn get_u64(ms: &JsonMembers, key: &str) -> (r: Option<u64>)
    ensures
        r == u64_member(*ms, key@),
{
    let k = String::from_str(key);
    match ms.get(&k) {
        Some(Json::Number(t)) => {
            let n = parse_u64(t);
            proof {
                if let Some(v) = n {
                    let c = choose|m: u64| t@ == spec_decimal(m as nat);
                    lemma_decimal_injective(c as nat, v as nat);
                }
            }
            n
        },
        _ => None,
    }
}

fn strings_from(items: &JsonItems) -> (r: Option<Vec<String>>)
    ensures
        match r {
            Some(v) => str_list(*items) == Some(strings_view(v@)),
            None => str_list(*items) is None,
        },
    decreases items,
{
    match items {
        JsonItems::Nil => {
            let v: Vec<String> = Vec::new();
            assert(strings_view(v@) =~= Seq::empty());
            Some(v)
        },
        JsonItems::Cons(x, rest) => match (x, strings_from(rest)) {
            (Json::Str(s), Some(mut v)) => {
                let ghost tail = v@;
                v.insert(0, s.clone());
                assert(strings_view(v@) =~= seq![s@] + strings_view(tail));
                Some(v)
            },
            _ => None,
        },
    }
}

fn get_strings(ms: &JsonMembers, key: &str) -> (r: Option<Vec<String>>)
    ensures
        match r {
            Some(v) => str_list_member(*ms, key@) == Some(strings_view(v@)),
            None => str_list_member(*ms, key@) is None,
        },
{
    let k = String::from_str(key);
    match ms.get(&k) {
        Some(Json::Array(items)) => strings_from(items),
        _ => None,
    }
}

fn get_opt_str(ms: &JsonMembers, key: &str) -> (r: Option<Option<String>>)
    ensures
        match r {
            Some(Some(s)) => opt_str_member(*ms, key@) == Some(Some(s@)),
            Some(None) => opt_str_member(*ms, key@) == Some(None::<Seq<char>>),
            None => opt_str_member(*ms, key@) is None,
        },
{
    let k = String::from_str(key);
    match ms.get(&k) {
        None => Some(None),
        Some(Json::Null) => Some(None),
        Some(Json::Str(s)) => Some(Some(s.clone())),
        _ => None,
    }
}

proof fn lemma_event_names()
    ensures
        "connected"@ != "join"@,
        "connected"@ != "record"@,
        "connected"@ != "pong"@,
        "connected"@ != "trigger-alert"@,
        "connected"@ != "error"@,
        "join"@ != "record"@,
        "join"@ != "pong"@,
        "join"@ != "trigger-alert"@,
        "join"@ != "error"@,
        "record"@ != "pong"@,
        "record"@ != "trigger-alert"@,
        "record"@ != "error"@,
        "pong"@ != "trigger-alert"@,
        "pong"@ != "error"@,
        "trigger-alert"@ != "error"@,
{
    reveal_strlit("connected");
    reveal_strlit("join");
    reveal_strlit("record");
    reveal_strlit("pong");
    reveal_strlit("trigger-alert");
    reveal_strlit("error");
    assert("connected"@.len() == 9 && "join"@.len() == 4 && "record"@.len() == 6);
    assert("pong"@.len() == 4 && "trigger-alert"@.len() == 13 && "error"@.len() == 5);
    assert("join"@[0] != "pong"@[0]);
}

fn get_alert_devices(d: &JsonMembers) -> (r: Option<Vec<String>>)
    ensures
        match r {
            Some(v) => alert_devices(*d) == Some(strings_view(v@)),
            None => alert_devices(*d) is None,
        },
{
    match get_strings(d, "deviceIds") {
        Some(ids) => Some(ids),
        None => match get_str(d, "deviceId") {
            Some(id) => {
                let mut v: Vec<String> = Vec::new();
                let ghost i = id@;
                v.push(id);
                assert(strings_view(v@) =~= seq![i]);
                Some(v)
            },
            None => None,
        },
    }
}

/// Reads a frame of the server. `None` for a frame whose event the connector
/// does not handle; `JsonError` for a frame without an event name, or one of
/// a handled event whose data lacks a field or has it in the wrong form.
pub fn decode_ws_msg(v: &Json) -> (r: Result<Option<WsMsg>, OdinSentinelError>)
    ensures
        r matches Ok(Some(m)) ==> carries(*v, m),
        r matches Ok(None) <==> (frame_event(*v) matches Some(e) && !known_event(e)),
        r is Err <==> !(frame_event(*v) is Some && (known_event(frame_event(*v)->Some_0) ==> exists|
            m: WsMsg,
        | carries(*v, m))),
        r is Err ==> r->Err_0 is JsonError,
{
    proof { lemma_event_names(); }
    let ms = match v {
        Json::Object(ms) => ms,
        _ => return Err(frame_error("event")),
    };
    let event = match get_str(ms, "event") {
        Some(e) => e,
        None => return Err(frame_error("event")),
    };
    let known = event == String::from_str("connected") || event == String::from_str("join")
        || event == String::from_str("record") || event == String::from_str("pong")
        || event == String::from_str("trigger-alert") || event == String::from_str("error");
    if !known {
        return Ok(None);
    }
    let key = String::from_str("data");
    let d = match ms.get(&key) {
        Some(Json::Object(d)) => d,
        _ => return { proof { assert forall|m: WsMsg| !carries(*v, m) by {
                    match m {
                        WsMsg::Connected { .. } => {},
                        WsMsg::Join { .. } => {},
                        WsMsg::Record { .. } => {},
                        WsMsg::Pong { .. } => {},
                        WsMsg::TriggerAlert { .. } => {},
                        WsMsg::Error { .. } => {},
                    }
                } } Err(frame_error("data")) },
    };
    if event == String::from_str("connected") {
        match get_str(d, "message") {
            Some(message) => {
                let m = WsMsg::Connected { message };
                assert(carries(*v, m));
                Ok(Some(m))
            },
            None => { proof { assert forall|m: WsMsg| !carries(*v, m) by {
                    match m {
                        WsMsg::Connected { .. } => {},
                        WsMsg::Join { .. } => {},
                        WsMsg::Record { .. } => {},
                        WsMsg::Pong { .. } => {},
                        WsMsg::TriggerAlert { .. } => {},
                        WsMsg::Error { .. } => {},
                    }
                } } Err(frame_error("message")) },
        }
    } else if event == String::from_str("join") {
        match (get_strings(d, "deviceIds"), get_str(d, "messageId")) {
            (Some(device_ids), Some(message_id)) => {
                let m = WsMsg::Join { device_ids, message_id };
                assert(carries(*v, m));
                Ok(Some(m))
            },
            _ => { proof { assert forall|m: WsMsg| !carries(*v, m) by {
                    match m {
                        WsMsg::Connected { .. } => {},
                        WsMsg::Join { .. } => {},
                        WsMsg::Record { .. } => {},
                        WsMsg::Pong { .. } => {},
                        WsMsg::TriggerAlert { .. } => {},
                        WsMsg::Error { .. } => {},
                    }
                } } Err(frame_error("join")) },
        }
    } else if event == String::from_str("record") {
        let rec_type = match get_str(d, "type") {
            Some(name) => SensorCapability::from_name(&name),
            None => None,
        };
        match (get_str(d, "deviceId"), get_u32(d, "sensorNo"), rec_type) {
            (Some(device_id), Some(sensor_no), Some(rec_type)) => {
                let m = WsMsg::Record { device_id, sensor_no, rec_type };
                assert(carries(*v, m));
                Ok(Some(m))
            },
            _ => { proof { assert forall|m: WsMsg| !carries(*v, m) by {
                    match m {
                        WsMsg::Connected { .. } => {},
                        WsMsg::Join { .. } => {},
                        WsMsg::Record { .. } => {},
                        WsMsg::Pong { .. } => {},
                        WsMsg::TriggerAlert { .. } => {},
                        WsMsg::Error { .. } => {},
                    }
                } } Err(frame_error("record")) },
        }
    } else if event == String::from_str("pong") {
        match (get_u64(d, "requestTime"), get_u64(d, "responseTime"), get_str(d, "messageId")) {
            (Some(request_time), Some(response_time), Some(message_id)) => {
                let m = WsMsg::Pong { request_time, response_time, message_id };
                assert(carries(*v, m));
                Ok(Some(m))
            },
            _ => { proof { assert forall|m: WsMsg| !carries(*v, m) by {
                    match m {
                        WsMsg::Connected { .. } => {},
                        WsMsg::Join { .. } => {},
                        WsMsg::Record { .. } => {},
                        WsMsg::Pong { .. } => {},
                        WsMsg::TriggerAlert { .. } => {},
                        WsMsg::Error { .. } => {},
                    }
                } } Err(frame_error("pong")) },
        }
    } else if event == String::from_str("trigger-alert") {
        match (get_alert_devices(d), get_str(d, "messageId"), get_opt_str(d, "result")) {
            (Some(device_ids), Some(message_id), Some(result)) => {
                let result = match result {
                    Some(s) => s,
                    None => String::new(),
                };
                {
                let m = WsMsg::TriggerAlert { device_ids, message_id, result };
                assert(carries(*v, m));
                Ok(Some(m))
            }
            },
            _ => { proof { assert forall|m: WsMsg| !carries(*v, m) by {
                    match m {
                        WsMsg::Connected { .. } => {},
                        WsMsg::Join { .. } => {},
                        WsMsg::Record { .. } => {},
                        WsMsg::Pong { .. } => {},
                        WsMsg::TriggerAlert { .. } => {},
                        WsMsg::Error { .. } => {},
                    }
                } } Err(frame_error("trigger-alert")) },
        }
    } else {
        match get_str(d, "message") {
            Some(message) => {
                let m = WsMsg::Error { message };
                assert(carries(*v, m));
                Ok(Some(m))
            },
            None => { proof { assert forall|m: WsMsg| !carries(*v, m) by {
                    match m {
                        WsMsg::Connected { .. } => {},
                        WsMsg::Join { .. } => {},
                        WsMsg::Record { .. } => {},
                        WsMsg::Pong { .. } => {},
                        WsMsg::TriggerAlert { .. } => {},
                        WsMsg::Error { .. } => {},
                    }
                } } Err(frame_error("message")) },
        }
    }
}

proof fn lemma_frame_keys()
    ensures
        "event"@ != "data"@,
        "deviceIds"@ != "messageId"@,
        "deviceIds"@ != "type"@,
        "deviceIds"@ != "state"@,
        "type"@ != "state"@,
        "type"@ != "messageId"@,
        "state"@ != "messageId"@,
        "requestTime"@ != "messageId"@,
        "requestTime"@ != "responseTime"@,
        "responseTime"@ != "messageId"@,
        "deviceId"@ != "sensorNo"@,
        "deviceId"@ != "type"@,
        "sensorNo"@ != "type"@,
        "deviceId"@ != "messageId"@,
        "deviceId"@ != "result"@,
        "messageId"@ != "result"@,
        "deviceIds"@ != "result"@,
{
    reveal_strlit("event");
    reveal_strlit("data");
    reveal_strlit("message");
    reveal_strlit("deviceIds");
    reveal_strlit("messageId");
    reveal_strlit("deviceId");
    reveal_strlit("sensorNo");
    reveal_strlit("type");
    reveal_strlit("requestTime");
    reveal_strlit("responseTime");
    reveal_strlit("result");
    reveal_strlit("state");
    assert("event"@.len() == 5 && "data"@.len() == 4 && "message"@.len() == 7 && "deviceIds"@.len() == 9 && "messageId"@.len() == 9 && "deviceId"@.len() == 8 && "sensorNo"@.len() == 8 && "type"@.len() == 4 && "requestTime"@.len() == 11 && "responseTime"@.len() == 12 && "result"@.len() == 6 && "state"@.len() == 5);
    assert("deviceIds"@[0] != "messageId"@[0]);
    assert("deviceId"@[0] != "sensorNo"@[0]);
}

fn member(k: &str, v: Json, rest: JsonMembers) -> (r: JsonMembers)
    ensures
        r matches JsonMembers::Cons(kk, vv, rr) && kk@ == k@ && vv == v && *rr == rest,
{
    JsonMembers::Cons(String::from_str(k), v, Box::new(rest))
}

/// A frame: `{"event": event, "data": {...}}`.
fn frame(event: &str, data: JsonMembers) -> (r: Json)
    ensures
        frame_event(r) == Some(event@),
        frame_data(r) == Some(data),
{
    proof { lemma_frame_keys(); reveal_with_fuel(JsonMembers::spec_get, 3); }
    let inner = member("data", Json::Object(Box::new(data)), JsonMembers::Nil);
    Json::Object(Box::new(member("event", Json::Str(String::from_str(event)), inner)))
}

/// An array of strings.
fn strings_json(v: &Vec<String>) -> (r: Json)
    ensures
        r matches Json::Array(items) && str_list(*items) == Some(strings_view(v@)),
{
    let mut items = JsonItems::Nil;
    let mut i: usize = v.len();
    assert(strings_view(v@).subrange(i as int, v@.len() as int) =~= Seq::<Seq<char>>::empty());
    while i > 0
        invariant
            i <= v@.len(),
            str_list(items) == Some(strings_view(v@).subrange(i as int, v@.len() as int)),
        decreases i,
    {
        i = i - 1;
        items = JsonItems::Cons(Json::Str(v[i].clone()), Box::new(items));
        assert(strings_view(v@).subrange(i as int, v@.len() as int) =~= seq![v@[i as int]@]
            + strings_view(v@).subrange(i + 1, v@.len() as int));
    }
    assert(strings_view(v@).subrange(0, v@.len() as int) =~= strings_view(v@));
    Json::Array(Box::new(items))
}

proof fn lemma_number_reads_back(n: u64)
    ensures
        (exists|m: u64| spec_decimal(n as nat) == spec_decimal(m as nat)),
        (choose|m: u64| spec_decimal(n as nat) == spec_decimal(m as nat)) == n,
{
    assert(spec_decimal(n as nat) == spec_decimal(n as nat));
    let c = choose|m: u64| spec_decimal(n as nat) == spec_decimal(m as nat);
    lemma_decimal_injective(c as nat, n as nat);
}

proof fn lemma_number_reads_back_u32(n: u32)
    ensures
        (exists|m: u32| spec_decimal(n as nat) == spec_decimal(m as nat)),
        (choose|m: u32| spec_decimal(n as nat) == spec_decimal(m as nat)) == n,
{
    assert(spec_decimal(n as nat) == spec_decimal(n as nat));
    let c = choose|m: u32| spec_decimal(n as nat) == spec_decimal(m as nat);
    lemma_decimal_injective(c as nat, n as nat);
}

/// The frame of a command.
pub fn encode_ws_cmd(c: WsCmd) -> (r: Json)
    ensures
        carries_cmd(r, c),
{
    proof { lemma_frame_keys(); reveal_with_fuel(JsonMembers::spec_get, 5); }
    let event = c.event();
    let data = match c {
        WsCmd::Ping { request_time, message_id } => member(
            "requestTime",
            Json::Number(decimal_string(request_time)),
            member("messageId", Json::Str(message_id), JsonMembers::Nil),
        ),
        WsCmd::TriggerAlert { device_ids, message_id } => member(
            "deviceIds",
            strings_json(&device_ids),
            member("messageId", Json::Str(message_id), JsonMembers::Nil),
        ),
        WsCmd::SwitchLights { device_ids, light_type, state, message_id } => member(
            "deviceIds",
            strings_json(&device_ids),
            member(
                "type",
                Json::Str(light_type),
                member("state", Json::Str(state), member("messageId", Json::Str(message_id), JsonMembers::Nil)),
            ),
        ),
        WsCmd::SwitchValve { device_ids, state, message_id } => member(
            "deviceIds",
            strings_json(&device_ids),
            member("state", Json::Str(state), member("messageId", Json::Str(message_id), JsonMembers::Nil)),
        ),
    };
    frame(event, data)
}

/// The frame of a message, as the server sends it.
pub fn encode_ws_msg(m: WsMsg) -> (r: Json)
    ensures
        carries(r, m),
{
    proof { lemma_frame_keys(); reveal_with_fuel(JsonMembers::spec_get, 5); }
    let event = m.event();
    let ghost m0 = m;
    let data = match m {
        WsMsg::Connected { message } => member("message", Json::Str(message), JsonMembers::Nil),
        WsMsg::Join { device_ids, message_id } => member(
            "deviceIds",
            strings_json(&device_ids),
            member("messageId", Json::Str(message_id), JsonMembers::Nil),
        ),
        WsMsg::Record { device_id, sensor_no, rec_type } => {
            proof {
                lemma_number_reads_back_u32(sensor_no);
                crate::capability::lemma_name_round_trip(rec_type);
            }
            member(
                "deviceId",
                Json::Str(device_id),
                member(
                    "sensorNo",
                    Json::Number(decimal_string(sensor_no as u64)),
                    member("type", Json::Str(String::from_str(rec_type.name())), JsonMembers::Nil),
                ),
            )
        },
        WsMsg::Pong { request_time, response_time, message_id } => {
            proof {
                lemma_number_reads_back(request_time);
                lemma_number_reads_back(response_time);
            }
            member(
                "requestTime",
                Json::Number(decimal_string(request_time)),
                member(
                    "responseTime",
                    Json::Number(decimal_string(response_time)),
                    member("messageId", Json::Str(message_id), JsonMembers::Nil),
                ),
            )
        },
        WsMsg::TriggerAlert { device_ids, message_id, result } => member(
            "deviceIds",
            strings_json(&device_ids),
            member("messageId", Json::Str(message_id), member("result", Json::Str(result), JsonMembers::Nil)),
        ),
        WsMsg::Error { message } => member("message", Json::Str(message), JsonMembers::Nil),
    };
    frame(event, data)
}

} // verus!
