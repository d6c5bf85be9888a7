use serde::de::{Deserialize, Deserializer, MapAccess, SeqAccess, Visitor};

use odin_sentinel::clock::epoch_millis_from;
use odin_sentinel::frames::{decode_ws_msg, encode_ws_cmd, encode_ws_msg};
use odin_sentinel::codec::{
    decode_device_list, decode_record, decode_record_at, decode_record_list, decode_sensor_list, encode_record,
    encode_record_at, payload_key,
};
use odin_sentinel::json::{Json, JsonItems, JsonMembers};
use odin_sentinel::{
    ImageData, OdinSentinelError, PayloadJson, RecordBatch, RecordId, Result, SensorCapability, SensorRecord, Sentinel,
    SentinelStore, SentinelUpdate, SessionAction, SessionPhase, ValveData, VocData, WsCmd, WsMsg, WsSession,
};

/// A JSON value read from text with its member order kept.
struct Parsed(Json);

struct JsonVisitor;

impl<'de> Visitor<'de> for JsonVisitor {
    type Value = Parsed;

    fn expecting(&self, f: &mut std::fmt::Formatter) -> std::fmt::Result {
        f.write_str("a JSON value")
    }
    fn visit_unit<E>(self) -> std::result::Result<Parsed, E> {
        Ok(Parsed(Json::Null))
    }
    fn visit_bool<E>(self, b: bool) -> std::result::Result<Parsed, E> {
        Ok(Parsed(Json::Bool(b)))
    }
    fn visit_u64<E>(self, n: u64) -> std::result::Result<Parsed, E> {
        Ok(Parsed(Json::Number(n.to_string())))
    }
    fn visit_i64<E>(self, n: i64) -> std::result::Result<Parsed, E> {
        Ok(Parsed(Json::Number(n.to_string())))
    }
    fn visit_f64<E>(self, x: f64) -> std::result::Result<Parsed, E> {
        Ok(Parsed(Json::Number(x.to_string())))
    }
    fn visit_str<E>(self, s: &str) -> std::result::Result<Parsed, E> {
        Ok(Parsed(Json::Str(s.to_string())))
    }
    fn visit_seq<A: SeqAccess<'de>>(self, mut a: A) -> std::result::Result<Parsed, A::Error> {
        let mut v = Vec::new();
        while let Some(Parsed(x)) = a.next_element()? {
            v.push(x);
        }
        let mut items = JsonItems::Nil;
        for x in v.into_iter().rev() {
            items = JsonItems::Cons(x, Box::new(items));
        }
        Ok(Parsed(Json::Array(Box::new(items))))
    }
    fn visit_map<A: MapAccess<'de>>(self, mut a: A) -> std::result::Result<Parsed, A::Error> {
        let mut v = Vec::new();
        while let Some((k, Parsed(x))) = a.next_entry::<String, Parsed>()? {
            v.push((k, x));
        }
        let mut members = JsonMembers::Nil;
        for (k, x) in v.into_iter().rev() {
            members = JsonMembers::Cons(k, x, Box::new(members));
        }
        Ok(Parsed(Json::Object(Box::new(members))))
    }
}

impl<'de> Deserialize<'de> for Parsed {
    fn deserialize<D: Deserializer<'de>>(d: D) -> std::result::Result<Parsed, D::Error> {
        d.deserialize_any(JsonVisitor)
    }
}

fn parse(text: &str) -> Result<Json> {
    serde_json::from_str::<Parsed>(text)
        .map(|p| p.0)
        .map_err(|e| OdinSentinelError::JsonError(e.to_string()))
}

fn write(j: &Json, out: &mut String) {
    match j {
        Json::Null => out.push_str("null"),
        Json::Bool(b) => out.push_str(if *b { "true" } else { "false" }),
        Json::Number(t) => out.push_str(t),
        Json::Str(s) => out.push_str(&serde_json::to_string(s).unwrap()),
        Json::Array(items) => {
            out.push('[');
            let mut cur: &JsonItems = items;
            let mut first = true;
            while let JsonItems::Cons(x, rest) = cur {
                if !first {
                    out.push(',');
                }
                first = false;
                write(x, out);
                cur = rest;
            }
            out.push(']');
        }
        Json::Object(members) => {
            out.push('{');
            let mut cur: &JsonMembers = members;
            let mut first = true;
            while let JsonMembers::Cons(k, x, rest) = cur {
                if !first {
                    out.push(',');
                }
                first = false;
                out.push_str(&serde_json::to_string(k).unwrap());
                out.push(':');
                write(x, out);
                cur = rest;
            }
            out.push('}');
        }
    }
}

fn text(j: &Json) -> String {
    let mut s = String::new();
    write(j, &mut s);
    s
}

// get {host}/devices
#[test]
fn test_device_list() -> Result<()> {
    let input = r#"{"data":[{"id":"roo7gd1dldn3","info":"live"}],"count":1,"total":1,"page":1,"pageCount":1}"#;
    let device_list = decode_device_list(&parse(input)?)?;
    println!("-- device-list:\n{device_list:#?}");
    Ok(())
}

// get {host}/devices/{device_id}/sensors
#[test]
fn test_sensor_list() -> Result<()> {
    let input = r#"
    {"data":[{"no":0,"deviceId":"roo7gd1dldn3","partNo":"Visible Camera","capabilities":["image","cloudcover"]},{"no":1,"deviceId":"roo7gd1dldn3","partNo":"Visible Camera","capabilities":["image","cloudcover"]},{"no":2,"deviceId":"roo7gd1dldn3","partNo":"Infrared Camera","capabilities":["image"]},{"no":3,"deviceId":"roo7gd1dldn3","partNo":"Infrared Camera","capabilities":["image"]},{"no":4,"deviceId":"roo7gd1dldn3","partNo":"Gas Sensor","capabilities":["gas","thermometer"]},{"no":5,"deviceId":"roo7gd1dldn3","partNo":"VOC Sensor","capabilities":["voc"]},{"no":6,"deviceId":"roo7gd1dldn3","partNo":"9-axis MotionTracking Device","capabilities":["accelerometer","gyroscope","magnetometer"]},{"no":7,"deviceId":"roo7gd1dldn3","partNo":"","capabilities":["fire","smoke"]},{"no":8,"deviceId":"roo7gd1dldn3","partNo":"Anemometer","capabilities":["anemometer"]},{"no":9,"deviceId":"roo7gd1dldn3","partNo":"GPS","capabilities":["gps"]},{"no":10,"deviceId":"roo7gd1dldn3","partNo":"9-axis MotionTracking Device","capabilities":["accelerometer","gyroscope","magnetometer"]},{"no":11,"deviceId":"roo7gd1dldn3","partNo":"9-axis MotionTracking Device","capabilities":["accelerometer","gyroscope","magnetometer","fire","smoke"]},{"no":12,"deviceId":"roo7gd1dldn3","partNo":"","capabilities":["image"]},{"no":13,"deviceId":"roo7gd1dldn3","partNo":"","capabilities":["image","gps"]},{"no":14,"deviceId":"roo7gd1dldn3","partNo":"","capabilities":["gps"]},{"no":15,"deviceId":"roo7gd1dldn3","partNo":"VOC Sensor","capabilities":["voc"]},{"no":16,"deviceId":"roo7gd1dldn3","partNo":"9-axis MotionTracking Device","capabilities":["accelerometer","gyroscope","magnetometer"]},{"no":17,"deviceId":"roo7gd1dldn3","partNo":"9-axis MotionTracking Device","capabilities":["accelerometer","gyroscope","magnetometer"]},{"no":18,"deviceId":"roo7gd1dldn3","partNo":"9-axis MotionTracking Device","capabilities":["accelerometer","gyroscope","magnetometer"]},{"no":19,"deviceId":"roo7gd1dldn3","partNo":null,"capabilities":["image"]},{"no":20,"deviceId":"roo7gd1dldn3","partNo":"test video","capabilities":["image"]},{"no":21,"deviceId":"roo7gd1dldn3","partNo":"Visible Camera","capabilities":["image"]},{"no":22,"deviceId":"roo7gd1dldn3","partNo":"Visible Camera","capabilities":["image"]},{"no":23,"deviceId":"roo7gd1dldn3","partNo":"Infrared Camera","capabilities":["image"]},{"no":24,"deviceId":"roo7gd1dldn3","partNo":"Infrared Camera","capabilities":["image"]},{"no":25,"deviceId":"roo7gd1dldn3","partNo":"Gas Sensor","capabilities":["gas","thermometer","voc"]},{"no":26,"deviceId":"roo7gd1dldn3","partNo":"Anemometer","capabilities":["anemometer"]},{"no":27,"deviceId":"roo7gd1dldn3","partNo":"GPS","capabilities":["gps"]},{"no":28,"deviceId":"roo7gd1dldn3","partNo":"9-axis MotionTracking Device","capabilities":["accelerometer","gyroscope","magnetometer"]},{"no":29,"deviceId":"roo7gd1dldn3","partNo":"9-axis MotionTracking Device","capabilities":["accelerometer","gyroscope","magnetometer"]},{"no":30,"deviceId":"roo7gd1dldn3","partNo":"9-axis MotionTracking Device","capabilities":["accelerometer","gyroscope","magnetometer"]},{"no":31,"deviceId":"roo7gd1dldn3","partNo":"Gas Sensor","capabilities":["gas","thermometer"]},{"no":32,"deviceId":"roo7gd1dldn3","partNo":"AI Detection Output","capabilities":["fire","smoke"]},{"no":33,"deviceId":"roo7gd1dldn3","partNo":"test video","capabilities":["image"]},{"no":34,"deviceId":"roo7gd1dldn3","partNo":"Orientation","capabilities":["orientation"]},{"no":35,"deviceId":"roo7gd1dldn3","partNo":"Orientation","capabilities":["orientation"]},{"no":36,"deviceId":"roo7gd1dldn3","partNo":"Infrared Camera","capabilities":["image"]},{"no":37,"deviceId":"roo7gd1dldn3","partNo":"Infrared Camera","capabilities":["image"]},{"no":38,"deviceId":"roo7gd1dldn3","partNo":"Gas Sensor","capabilities":["gas","thermometer"]},{"no":39,"deviceId":"roo7gd1dldn3","partNo":"VOC Sensor","capabilities":["voc"]},{"no":40,"deviceId":"roo7gd1dldn3","partNo":"Anemometer","capabilities":["anemometer"]},{"no":41,"deviceId":"roo7gd1dldn3","partNo":"GPS","capabilities":["gps"]},{"no":42,"deviceId":"roo7gd1dldn3","partNo":"AI Detection Output","capabilities":["fire","smoke"]},{"no":43,"deviceId":"roo7gd1dldn3","partNo":"Test Video","capabilities":["image"]},{"no":44,"deviceId":"roo7gd1dldn3","partNo":"Orientation","capabilities":[]}],"count":45,"total":45,"page":1,"pageCount":1}
    "#;
    let sensor_list = decode_sensor_list(&parse(input)?)?;
    println!("-- sensor-list:\n{sensor_list:#?}");
    Ok(())
}

//{host}/devices/{device_id}/sensors/{sensor_no}/{capability}?sort=timeRecorded,DESC&limit={n_last}
#[test]
fn test_sensor_gps_records() -> Result<()> {
    let input = r#"
    {"data":[{"id":"crmWhFT3LMHdItHFTUGi","type":"gps","timeRecorded":"2023-01-29T19:32:04.000Z","sensorNo":9,"deviceId":"roo7gd1dldn3","gps":{"latitude":34.16381345,"longitude":-118.10208433333334,"altitude":null,"quality":null,"numberOfSatellites":null,"HDOP":null},"evidences":[],"claims":[]},{"id":"Za1Y9LIYQ7KXSNbeDNBb","type":"gps","timeRecorded":"2023-01-29T19:31:34.000Z","sensorNo":9,"deviceId":"roo7gd1dldn3","gps":{"latitude":34.163813383333334,"longitude":-118.10208601666666,"altitude":null,"quality":null,"numberOfSatellites":null,"HDOP":null},"evidences":[],"claims":[]},{"id":"rUEGekTnRjD7opkqxJAw","type":"gps","timeRecorded":"2023-01-29T19:31:03.000Z","sensorNo":9,"deviceId":"roo7gd1dldn3","gps":{"latitude":34.16381325,"longitude":-118.10208675,"altitude":null,"quality":null,"numberOfSatellites":null,"HDOP":null},"evidences":[],"claims":[]}],"count":3,"total":156061,"page":1,"pageCount":52021}
    "#;

    let gps_record_list = decode_record_list(&parse(input)?)?;
    println!("-- GPS record-list:\n{gps_record_list:#?}");

    Ok(())
}

#[test]
fn test_serde_roundtrip() -> Result<()> {
    // decoding a record and encoding it again gives the same text
    let input = r#"{"id":"eYdrMhE4b55MO87oJF9r","timeRecorded":"2024-01-23T20:32:01.004Z","sensorNo":39,"deviceId":"roo7gd1dldn3","evidences":[],"claims":[],"voc":{"tvoc":138,"e_co2":489}}"#;

    let rec = decode_record(&parse(input)?)?;
    println!("parsed voc record: {:?}", rec);

    let json = text(&encode_record(rec, SensorCapability::Voc).unwrap());
    println!("generated json: {}", json);
    assert_eq!(json.as_str(), input);
    Ok(())
}

#[test]
fn device_list_keeps_data_order() -> Result<()> {
    let input = r#"{"data":[{"id":"c","info":null},{"id":"a"},{"id":"b","info":"x"}],"count":3}"#;
    let list = decode_device_list(&parse(input)?)?;
    assert_eq!(list.get_device_ids(), vec!["c", "a", "b"]);
    assert_eq!(list.data[2].info, Some("x".to_string()));
    assert_eq!(list.data[0].info, None);
    Ok(())
}

#[test]
fn gps_records_decode_fields() -> Result<()> {
    let input = r#"{"data":[{"id":"crmWhFT3LMHdItHFTUGi","type":"gps","timeRecorded":"2023-01-29T19:32:04.000Z","sensorNo":9,"deviceId":"roo7gd1dldn3","gps":{"latitude":34.16381345},"evidences":[{"id":"e1"}],"claims":[]}]}"#;
    let recs = decode_record_list(&parse(input)?)?;
    assert_eq!(recs.len(), 1);
    let r = &recs[0];
    assert_eq!(r.id, "crmWhFT3LMHdItHFTUGi");
    assert_eq!(r.time_recorded, 1675020724000);
    assert_eq!(r.sensor_no, 9);
    assert_eq!(r.device_id, "roo7gd1dldn3");
    assert_eq!(r.evidences.len(), 1);
    assert_eq!(r.evidences[0].id, "e1");
    assert_eq!(text(&r.data), r#"{"latitude":34.16381345}"#);
    Ok(())
}

#[test]
fn payload_may_come_under_data() -> Result<()> {
    let input = r#"{"id":"x","timeRecorded":"2024-01-23T20:32:01.004Z","sensorNo":1,"deviceId":"d","evidences":[],"claims":[],"data":{"valveOpen":true}}"#;
    let rec = decode_record(&parse(input)?)?;
    let out = text(&encode_record(rec, SensorCapability::Valve).unwrap());
    assert_eq!(
        out,
        r#"{"id":"x","timeRecorded":"2024-01-23T20:32:01.004Z","sensorNo":1,"deviceId":"d","evidences":[],"claims":[],"valve":{"valveOpen":true}}"#
    );
    Ok(())
}

#[test]
fn malformed_records_are_json_errors() -> Result<()> {
    let cases = [
        r#"{"id":"x","timeRecorded":"2024-01-23T20:32:01.004Z","sensorNo":1,"deviceId":"d","evidences":[],"claims":[]}"#,
        r#"{"id":"x","timeRecorded":"yesterday","sensorNo":1,"deviceId":"d","evidences":[],"claims":[],"voc":{}}"#,
        r#"{"id":"x","timeRecorded":"2024-01-23T20:32:01.004Z","sensorNo":-1,"deviceId":"d","evidences":[],"claims":[],"voc":{}}"#,
        r#"{"id":"x","timeRecorded":"2024-01-23T20:32:01.004Z","sensorNo":4294967296,"deviceId":"d","evidences":[],"claims":[],"voc":{}}"#,
        r#"{"id":7,"timeRecorded":"2024-01-23T20:32:01.004Z","sensorNo":1,"deviceId":"d","evidences":[],"claims":[],"voc":{}}"#,
        r#"{"id":"x","timeRecorded":"2024-01-23T20:32:01.004Z","sensorNo":1,"deviceId":"d","evidences":[{"no":1}],"claims":[],"voc":{}}"#,
        r#"[]"#,
    ];
    for c in cases {
        assert!(matches!(decode_record(&parse(c)?), Err(OdinSentinelError::JsonError(_))), "{c}");
    }
    assert!(matches!(decode_device_list(&parse(r#"{"count":0}"#)?), Err(OdinSentinelError::JsonError(_))));
    assert!(matches!(
        decode_sensor_list(&parse(r#"{"data":[{"no":1,"deviceId":"d","capabilities":["laser"]}]}"#)?),
        Err(OdinSentinelError::JsonError(_))
    ));
    Ok(())
}

#[test]
fn sensor_list_fields() -> Result<()> {
    let input = r#"{"data":[{"no":19,"deviceId":"roo7gd1dldn3","partNo":null,"capabilities":["image","gps"]}]}"#;
    let list = decode_sensor_list(&parse(input)?)?;
    assert_eq!(list.data[0].no, 19);
    assert_eq!(list.data[0].part_no, None);
    assert_eq!(list.data[0].capabilities, vec![SensorCapability::Image, SensorCapability::Gps]);
    Ok(())
}

#[test]
fn payload_names() {
    assert!(payload_key(&"data".to_string()));
    assert!(payload_key(&"thermometer".to_string()));
    assert!(!payload_key(&"type".to_string()));
    assert_eq!(SensorCapability::from_name(&"gyroscope".to_string()), Some(SensorCapability::Gyroscope));
    assert_eq!(SensorCapability::from_name(&"Gps".to_string()), None);
}

/// A payload of a capability these tests do not use.
#[derive(Debug, Clone)]
struct Unused;

impl PayloadJson for Unused {
    fn payload_json(&self) -> Json {
        Json::Null
    }
}

#[derive(Debug, Clone)]
struct Payloads;

impl odin_sentinel::PayloadTypes for Payloads {
    type Accelerometer = Unused;
    type Anemometer = Unused;
    type Cloudcover = Unused;
    type Fire = Unused;
    type Gas = Unused;
    type Gps = Unused;
    type Gyroscope = Unused;
    type Image = ImageData;
    type Magnetometer = Unused;
    type Orientation = Unused;
    type Person = Unused;
    type Power = Unused;
    type Smoke = Unused;
    type Thermometer = Unused;
    type Valve = ValveData;
    type Voc = VocData;
}

fn voc(id: &str, time: &str, device: &str) -> Result<odin_sentinel::SensorRecord<VocData>> {
    let text = format!(
        r#"{{"id":"{id}","timeRecorded":"{time}","sensorNo":39,"deviceId":"{device}","evidences":[],"claims":[],"voc":{{"tvoc":138,"e_co2":-489}}}}"#
    );
    let r = decode_record(&parse(&text)?)?;
    Ok(odin_sentinel::SensorRecord {
        id: r.id,
        time_recorded: r.time_recorded,
        sensor_no: r.sensor_no,
        device_id: r.device_id,
        evidences: r.evidences,
        claims: r.claims,
        data: VocData { tvoc: 138, e_co2: -489 },
    })
}

#[test]
fn snapshot_lists_sentinels_in_order_with_newest_records_first() -> Result<()> {
    let mut store: SentinelStore<Payloads> = SentinelStore::new();
    let mut zeta: Sentinel<Payloads> = Sentinel::new("zeta".to_string(), "z".to_string());
    zeta.keep_batch(
        RecordBatch::Voc(vec![
            voc("old", "2024-01-23T20:30:00.000Z", "zeta")?,
            voc("new", "2024-01-23T20:32:01.004Z", "zeta")?,
        ]),
        3,
    );
    store.insert("zeta".to_string(), zeta);
    store.insert("alpha".to_string(), Sentinel::new("alpha".to_string(), "a".to_string()));
    store.update(SentinelUpdate::Voc(voc("mid", "2024-01-23T20:31:00.000Z", "zeta")?), 3)?;

    let snapshot = text(&store.to_json().unwrap());
    let voc_array = r#""voc":[{"id":"new","timeRecorded":"2024-01-23T20:32:01.004Z","sensorNo":39,"deviceId":"zeta","evidences":[],"claims":[],"voc":{"tvoc":138,"e_co2":-489}},{"id":"mid","#;
    assert!(snapshot.starts_with(r#"{"sentinels":[{"deviceId":"zeta","deviceName":"z","date":null,"accel":[],"#));
    assert!(snapshot.contains(voc_array), "{snapshot}");
    let mid = snapshot.find(r#""id":"mid""#).unwrap();
    let old = snapshot.find(r#""id":"old""#).unwrap();
    assert!(mid < old);
    assert!(snapshot.ends_with(r#"{"deviceId":"alpha","deviceName":"a","date":null,"accel":[],"anemo":[],"cloudcover":[],"fire":[],"gas":[],"gps":[],"gyro":[],"image":[],"mag":[],"orientation":[],"person":[],"power":[],"smoke":[],"thermo":[],"valve":[],"voc":[]}]}"#), "{snapshot}");
    let parsed: serde_json::Value = serde_json::from_str(&snapshot).unwrap();
    assert_eq!(parsed["sentinels"].as_array().unwrap().len(), 2);
    Ok(())
}

#[test]
fn library_payloads_as_json() {
    assert_eq!(text(&VocData { tvoc: 138, e_co2: 489 }.payload_json()), r#"{"tvoc":138,"e_co2":489}"#);
    assert_eq!(text(&VocData { tvoc: -1, e_co2: 0 }.payload_json()), r#"{"tvoc":-1,"e_co2":0}"#);
    assert_eq!(
        text(&ValveData { valve_open: true, external_light_on: false, internal_light_on: true }.payload_json()),
        r#"{"valveOpen":true,"externalLightOn":false,"internalLightOn":true}"#
    );
    let image = ImageData {
        filename: "a.jpg".to_string(),
        is_infrared: false,
        orientation_record: Some(RecordId { id: "o1".to_string() }),
    };
    assert_eq!(
        text(&image.payload_json()),
        r#"{"filename":"a.jpg","isInfrared":false,"orientationRecord":{"id":"o1"}}"#
    );
}

#[test]
fn record_notification_frame() -> Result<()> {
    let frame = r#"{"event":"record","data":{"deviceId":"roo7gd1dldn3","sensorNo":9,"type":"gps"}}"#;
    let msg = decode_ws_msg(&parse(frame)?)?;
    assert_eq!(
        msg,
        Some(WsMsg::Record { device_id: "roo7gd1dldn3".to_string(), sensor_no: 9, rec_type: SensorCapability::Gps })
    );
    Ok(())
}

#[test]
fn error_frame_where_join_is_expected_ends_session() -> Result<()> {
    let mut session = WsSession::new(vec!["roo7gd1dldn3".to_string()]);
    let connected = decode_ws_msg(&parse(r#"{"event":"connected","data":{"message":"connected"}}"#)?)?.unwrap();
    let join = session.on_message(connected, 0);
    match join {
        SessionAction::Send(m) => assert_eq!(
            text(&encode_ws_msg(m)),
            r#"{"event":"join","data":{"deviceIds":["roo7gd1dldn3"],"messageId":"1"}}"#
        ),
        other => panic!("unexpected {other:?}"),
    }
    let error = decode_ws_msg(&parse(r#"{"event":"error","data":{"message":"nope"}}"#)?)?.unwrap();
    assert!(matches!(session.on_message(error, 0), SessionAction::Fail(OdinSentinelError::WsProtocolError(_))));
    assert_eq!(session.phase, SessionPhase::Closed);
    Ok(())
}

#[test]
fn other_frames() -> Result<()> {
    let pong = r#"{"event":"pong","data":{"requestTime":1700000000000,"responseTime":1700000000042,"messageId":"3"}}"#;
    assert_eq!(
        decode_ws_msg(&parse(pong)?)?,
        Some(WsMsg::Pong { request_time: 1700000000000, response_time: 1700000000042, message_id: "3".to_string() })
    );
    let alert = r#"{"event":"trigger-alert","data":{"deviceId":"d","messageId":"4"}}"#;
    assert_eq!(
        decode_ws_msg(&parse(alert)?)?,
        Some(WsMsg::TriggerAlert { device_ids: vec!["d".to_string()], message_id: "4".to_string(), result: String::new() })
    );
    let alerts = r#"{"event":"trigger-alert","data":{"deviceIds":["a","b"],"messageId":"5","result":"ok"}}"#;
    assert_eq!(
        decode_ws_msg(&parse(alerts)?)?,
        Some(WsMsg::TriggerAlert {
            device_ids: vec!["a".to_string(), "b".to_string()],
            message_id: "5".to_string(),
            result: "ok".to_string()
        })
    );
    assert_eq!(decode_ws_msg(&parse(r#"{"event":"weather","data":{}}"#)?)?, None);
    assert!(matches!(
        decode_ws_msg(&parse(r#"{"event":"record","data":{"deviceId":"d","sensorNo":9,"type":"laser"}}"#)?),
        Err(OdinSentinelError::JsonError(_))
    ));
    assert!(matches!(decode_ws_msg(&parse(r#"{"data":{}}"#)?), Err(OdinSentinelError::JsonError(_))));
    Ok(())
}

#[test]
fn command_frames() {
    let ping = WsCmd::Ping { request_time: 1700000000000, message_id: "2".to_string() };
    assert_eq!(text(&encode_ws_cmd(ping)), r#"{"event":"ping","data":{"requestTime":1700000000000,"messageId":"2"}}"#);
    let lights = WsCmd::SwitchLights {
        device_ids: vec!["a".to_string(), "b".to_string()],
        light_type: "infrared".to_string(),
        state: "on".to_string(),
        message_id: "5".to_string(),
    };
    assert_eq!(
        text(&encode_ws_cmd(lights)),
        r#"{"event":"switch-lights","data":{"deviceIds":["a","b"],"type":"infrared","state":"on","messageId":"5"}}"#
    );
    let valve = WsCmd::SwitchValve { device_ids: vec![], state: "off".to_string(), message_id: "6".to_string() };
    assert_eq!(text(&encode_ws_cmd(valve)), r#"{"event":"switch-valve","data":{"deviceIds":[],"state":"off","messageId":"6"}}"#);
    let alert = WsCmd::TriggerAlert { device_ids: vec!["a".to_string()], message_id: "7".to_string() };
    assert_eq!(text(&encode_ws_cmd(alert)), r#"{"event":"trigger-alert","data":{"deviceIds":["a"],"messageId":"7"}}"#);
}

#[test]
fn message_frames_read_back() -> Result<()> {
    let msgs = vec![
        WsMsg::Connected { message: "connected".to_string() },
        WsMsg::Record { device_id: "d".to_string(), sensor_no: 4294967295, rec_type: SensorCapability::Voc },
        WsMsg::Pong { request_time: u64::MAX, response_time: 0, message_id: "x".to_string() },
        WsMsg::TriggerAlert { device_ids: vec!["d".to_string()], message_id: "m".to_string(), result: "ok".to_string() },
        WsMsg::Error { message: "e".to_string() },
    ];
    for m in msgs {
        let back = decode_ws_msg(&encode_ws_msg(m.clone()))?;
        assert_eq!(back, Some(m));
    }
    Ok(())
}

#[test]
fn record_fields_with_given_time() -> Result<()> {
    let input = r#"{"id":"eYdrMhE4b55MO87oJF9r","timeRecorded":"any text","sensorNo":39,"deviceId":"roo7gd1dldn3","evidences":[{"id":"e"}],"claims":[],"voc":{"tvoc":138,"e_co2":489}}"#;
    let v = parse(input)?;
    let rec = decode_record_at(&v, Some(42))?;
    assert_eq!(rec.id, "eYdrMhE4b55MO87oJF9r");
    assert_eq!(rec.time_recorded, 42);
    assert_eq!(rec.sensor_no, 39);
    assert_eq!(rec.evidences[0].id, "e");
    assert!(matches!(decode_record_at(&v, None), Err(OdinSentinelError::JsonError(_))));
    let out = text(&encode_record_at(rec, SensorCapability::Voc, "T".to_string()));
    assert_eq!(
        out,
        r#"{"id":"eYdrMhE4b55MO87oJF9r","timeRecorded":"T","sensorNo":39,"deviceId":"roo7gd1dldn3","evidences":[{"id":"e"}],"claims":[],"voc":{"tvoc":138,"e_co2":489}}"#
    );
    Ok(())
}

#[test]
fn snapshot_record_payload_is_the_decoded_payload() -> Result<()> {
    let input = r#"{"id":"eYdrMhE4b55MO87oJF9r","timeRecorded":"2024-01-23T20:32:01.004Z","sensorNo":39,"deviceId":"roo7gd1dldn3","evidences":[],"claims":[],"voc":{"tvoc":138,"e_co2":489}}"#;
    let r = decode_record(&parse(input)?)?;
    let rec = SensorRecord {
        id: r.id,
        time_recorded: r.time_recorded,
        sensor_no: r.sensor_no,
        device_id: r.device_id,
        evidences: r.evidences,
        claims: r.claims,
        data: VocData { tvoc: 138, e_co2: 489 },
    };
    let mut sentinel: Sentinel<Payloads> = Sentinel::new("roo7gd1dldn3".to_string(), "live".to_string());
    sentinel.keep_batch(RecordBatch::Voc(vec![rec]), 3);
    let mut store: SentinelStore<Payloads> = SentinelStore::new();
    store.insert("roo7gd1dldn3".to_string(), sentinel);
    let snapshot = text(&store.to_json().unwrap());
    assert!(snapshot.contains(&format!(r#""voc":[{input}]"#)), "{snapshot}");
    Ok(())
}

#[test]
fn clock_reads_current_time() {
    assert!(odin_sentinel::clock::now_epoch_millis() > 1_600_000_000_000);
}

#[test]
fn clock_readings_in_epoch_millis() {
    assert_eq!(epoch_millis_from(None), 0);
    assert_eq!(epoch_millis_from(Some(1_706_041_921_004)), 1_706_041_921_004);
    assert_eq!(epoch_millis_from(Some(u64::MAX as u128)), u64::MAX);
    assert_eq!(epoch_millis_from(Some(u64::MAX as u128 + 1)), u64::MAX);
}
