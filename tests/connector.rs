use odin_sentinel::json::{Json, JsonMembers};
use odin_sentinel::{
    ConnectorPhase, ErrorAction, PayloadJson, Device, ImageData, OdinSentinelError, PayloadTypes, RecordBatch, RecordPlan,
    Sentinel, SentinelConfig, SentinelConnector, SentinelStore, SentinelUpdate, SensorRecord,
    SessionAction, SensorCapability, ValveData, VocData, WsCmd, WsMsg, WsSession,
};

#[derive(Debug, Clone, PartialEq)]
struct GpsFix {
    latitude: f64,
    longitude: f64,
}

impl PayloadJson for GpsFix {
    fn payload_json(&self) -> Json {
        let lon = JsonMembers::Cons("longitude".to_string(), Json::Number(self.longitude.to_string()), Box::new(JsonMembers::Nil));
        Json::Object(Box::new(JsonMembers::Cons("latitude".to_string(), Json::Number(self.latitude.to_string()), Box::new(lon))))
    }
}

/// A payload of a capability these tests do not use.
#[derive(Debug, Clone)]
struct Unused;

impl PayloadJson for Unused {
    fn payload_json(&self) -> Json {
        Json::Null
    }
}

#[derive(Debug, Clone)]
struct Payloads;

impl PayloadTypes for Payloads {
    type Accelerometer = Unused;
    type Anemometer = Unused;
    type Cloudcover = Unused;
    type Fire = Unused;
    type Gas = Unused;
    type Gps = GpsFix;
    type Gyroscope = Unused;
    type Image = ImageData;
    type Magnetometer = Unused;
    type Orientation = Unused;
    type Person = Unused;
    type Power = Unused;
    type Smoke = Unused;
    type Thermometer = Unused;
    type Valve = ValveData;
    type Voc = VocData;
}

type Connector = SentinelConnector<Payloads, &'static str, &'static str, &'static str>;

const DEVICE: &str = "roo7gd1dldn3";

fn millis(text: &str) -> i64 {
    chrono::DateTime::parse_from_rfc3339(text).unwrap().timestamp_millis()
}

fn gps(id: &str, time: &str, latitude: f64) -> SensorRecord<GpsFix> {
    SensorRecord {
        id: id.to_string(),
        time_recorded: millis(time),
        sensor_no: 9,
        device_id: DEVICE.to_string(),
        evidences: vec![],
        claims: vec![],
        data: GpsFix { latitude, longitude: -118.10208433333334 },
    }
}

fn config(max_history: usize, ping_interval: Option<u64>) -> SentinelConfig {
    SentinelConfig::new(
        "https://delphire.example/api".to_string(),
        "wss://delphire.example/ws".to_string(),
        "SECRET-REDACTED".to_string(),
        max_history,
        ping_interval,
    )
}

/// the store after a bootstrap of one device with one GPS sensor
fn bootstrapped_store(max_history: usize) -> SentinelStore<Payloads> {
    let device = Device { id: DEVICE.to_string(), info: Some("live".to_string()) };
    let mut sentinel: Sentinel<Payloads> = Sentinel::for_device(&device);
    sentinel.keep_batch(
        RecordBatch::Gps(vec![
            gps("crmWhFT3LMHdItHFTUGi", "2023-01-29T19:32:04.000Z", 34.16381345),
            gps("Za1Y9LIYQ7KXSNbeDNBb", "2023-01-29T19:31:34.000Z", 34.163813383333334),
            gps("rUEGekTnRjD7opkqxJAw", "2023-01-29T19:31:03.000Z", 34.16381325),
        ]),
        max_history,
    );
    let mut store = SentinelStore::new();
    store.insert(DEVICE.to_string(), sentinel);
    store
}

fn streaming_connector(ping_interval: Option<u64>) -> (Connector, Option<u64>) {
    let mut c: Connector = SentinelConnector::new(config(3, ping_interval));
    assert!(c.start());
    let actions = c.set_sentinels(bootstrapped_store(3));
    assert_eq!(actions.connect_to, Some(vec![DEVICE.to_string()]));
    let interval = c.websocket_opened();
    assert_eq!(c.phase(), ConnectorPhase::Streaming);
    (c, interval)
}

#[test]
fn bootstrap_keeps_three_newest_gps_records() {
    let store = bootstrapped_store(3);
    let sentinel = store.get(&DEVICE.to_string()).unwrap();
    assert_eq!(sentinel.device_name, "live");
    assert_eq!(sentinel.gps.len(), 3);
    assert_eq!(sentinel.gps[0].id, "crmWhFT3LMHdItHFTUGi");
    assert!(sentinel.voc.is_empty());
}

#[test]
fn unnamed_device_is_unknown() {
    let sentinel: Sentinel<Payloads> = Sentinel::for_device(&Device { id: "x".to_string(), info: None });
    assert_eq!(sentinel.device_name, "unknown");
    assert_eq!(sentinel.date, None);
}

#[test]
fn record_notification_updates_history() {
    let (mut c, _) = streaming_connector(None);
    let mut session = WsSession::new(vec![DEVICE.to_string()]);
    session.on_message(WsMsg::Connected { message: "connected".to_string() }, 0);
    session.on_message(WsMsg::Join { device_ids: vec![DEVICE.to_string()], message_id: "1".to_string() }, 0);
    let action = session.on_message(
        WsMsg::Record { device_id: DEVICE.to_string(), sensor_no: 9, rec_type: SensorCapability::Gps },
        0,
    );
    assert_eq!(
        action,
        SessionAction::FetchRecord { device_id: DEVICE.to_string(), sensor_no: 9, capability: SensorCapability::Gps }
    );
    let fresh = gps("fresh", "2023-01-29T19:33:00.000Z", 34.2);
    assert_eq!(c.store_record(SentinelUpdate::Gps(fresh)), Ok(true));
    let history = &c.sentinels().get(&DEVICE.to_string()).unwrap().gps;
    let ids: Vec<&str> = history.iter().map(|r| r.id.as_str()).collect();
    assert_eq!(ids, vec!["fresh", "crmWhFT3LMHdItHFTUGi", "Za1Y9LIYQ7KXSNbeDNBb"]);
}

#[test]
fn no_subscribers_means_no_conversion() {
    let (mut c, _) = streaming_connector(None);
    let base = millis("2023-01-29T19:33:00.000Z");
    for i in 0..10_000i64 {
        assert_eq!(
            c.record_plan(&DEVICE.to_string()),
            RecordPlan::Deliver { to_update: false, to_json: false }
        );
        let rec = gps(&format!("n{i}"), "2023-01-29T19:33:00.000Z", 34.0);
        let rec = SensorRecord { time_recorded: base + i, ..rec };
        assert_eq!(c.store_record(SentinelUpdate::Gps(rec)), Ok(true));
    }
    let history = &c.sentinels().get(&DEVICE.to_string()).unwrap().gps;
    let ids: Vec<&str> = history.iter().map(|r| r.id.as_str()).collect();
    assert_eq!(ids, vec!["n9999", "n9998", "n9997"]);
}

#[test]
fn subscribers_select_conversions() {
    let (mut c, _) = streaming_connector(None);
    c.add_json_update_callback("web".to_string(), "json");
    assert_eq!(c.record_plan(&DEVICE.to_string()), RecordPlan::Deliver { to_update: false, to_json: true });
    c.add_update_callback("ui".to_string(), "update");
    assert_eq!(c.record_plan(&DEVICE.to_string()), RecordPlan::Deliver { to_update: true, to_json: true });
    assert_eq!(c.record_plan(&"nobody".to_string()), RecordPlan::UnknownDevice);
}

#[test]
fn record_of_unknown_device_leaves_store_alone() {
    let (mut c, _) = streaming_connector(None);
    let stranger = SensorRecord { device_id: "stranger".to_string(), ..gps("s", "2023-01-29T19:40:00.000Z", 1.0) };
    assert_eq!(
        c.store_record(SentinelUpdate::Gps(stranger)),
        Err(OdinSentinelError::NoSuchDeviceError("stranger".to_string()))
    );
    assert_eq!(c.sentinels().len(), 1);
    assert_eq!(c.sentinels().get(&DEVICE.to_string()).unwrap().gps[0].id, "crmWhFT3LMHdItHFTUGi");
}

#[test]
fn init_callbacks_fire_once() {
    let mut c: Connector = SentinelConnector::new(config(3, None));
    c.add_init_callback("a".to_string(), "first");
    c.add_init_callback("b".to_string(), "second");
    c.add_init_callback("a".to_string(), "replaced");
    assert!(c.start());
    assert!(!c.start());
    let first = c.set_sentinels(bootstrapped_store(3));
    assert!(first.fire_init);
    let actions: Vec<&&str> = c.init_callbacks().actions();
    assert_eq!(actions, vec![&"replaced", &"second"]);
    c.websocket_opened();
    c.add_init_callback("late".to_string(), "late");
    let second = c.set_sentinels(bootstrapped_store(3));
    assert!(!second.fire_init);
    assert_eq!(second.connect_to, None);
}

#[test]
fn pings_every_interval_with_fresh_ids() {
    let (mut c, interval) = streaming_connector(Some(5000));
    assert_eq!(interval, Some(5000));
    let mut pings = vec![];
    let mut t = 0u64;
    while t <= 11_000 {
        if t > 0 && t % 5000 == 0 {
            pings.push(c.ping_tick(t).unwrap());
        }
        t += 1000;
    }
    assert_eq!(
        pings,
        vec![
            WsCmd::Ping { request_time: 5000, message_id: "1".to_string() },
            WsCmd::Ping { request_time: 10000, message_id: "2".to_string() },
        ]
    );
}

#[test]
fn no_pings_without_interval() {
    let (mut c, interval) = streaming_connector(None);
    assert_eq!(interval, None);
    assert_eq!(c.ping_tick(5000), None);
    assert_eq!(c.ping_tick(10000), None);
}

#[test]
fn closed_websocket_is_cleaned_up_and_connector_stays() {
    let (mut c, _) = streaming_connector(Some(5000));
    c.websocket_closed();
    assert_eq!(c.phase(), ConnectorPhase::Initialized);
    assert_eq!(c.ping_tick(15000), None);
    assert_eq!(c.sentinels().len(), 1);
    c.terminate();
    assert_eq!(c.phase(), ConnectorPhase::Terminated);
}

#[test]
fn failed_bootstrap_is_terminal() {
    let mut c: Connector = SentinelConnector::new(config(3, None));
    c.start();
    c.bootstrap_failed();
    assert_eq!(c.phase(), ConnectorPhase::Failed);
}

#[test]
fn snapshot_lists_devices_in_insertion_order() {
    let mut store = bootstrapped_store(3);
    store.insert("zeta".to_string(), Sentinel::new("zeta".to_string(), "z".to_string()));
    store.insert("alpha".to_string(), Sentinel::new("alpha".to_string(), "a".to_string()));
    let replaced = store.insert("zeta".to_string(), Sentinel::new("zeta".to_string(), "z2".to_string()));
    assert_eq!(replaced.unwrap().device_name, "z");
    assert_eq!(store.get_device_ids(), vec![DEVICE, "zeta", "alpha"]);
    let names: Vec<&str> = store.values().iter().map(|s| s.device_name.as_str()).collect();
    assert_eq!(names, vec!["live", "z2", "a"]);
    let gps_times: Vec<i64> = store.values()[0].gps.iter().map(|r| r.time_recorded).collect();
    assert!(gps_times.windows(2).all(|w| w[0] >= w[1]));
    assert!(store.sentinel_of(&"nobody".to_string()).is_err());
    assert!(store.sentinel_of(&"alpha".to_string()).is_ok());
}

#[test]
fn errors_close_websocket_or_fail_bootstrap() {
    let (mut c, _) = streaming_connector(Some(5000));
    assert_eq!(c.handle_error(&OdinSentinelError::JsonError("x".to_string())), ErrorAction::Ignore);
    assert_eq!(c.phase(), ConnectorPhase::Streaming);
    assert_eq!(
        c.handle_error(&OdinSentinelError::WsProtocolError("expected 'join' message, got 'error'".to_string())),
        ErrorAction::CloseWebsocket
    );
    assert_eq!(c.phase(), ConnectorPhase::Initialized);
    assert_eq!(c.ping_tick(10000), None);
    assert_eq!(c.handle_error(&OdinSentinelError::WsClosedError), ErrorAction::CloseWebsocket);

    let mut b: Connector = SentinelConnector::new(config(3, None));
    b.start();
    assert_eq!(b.handle_error(&OdinSentinelError::HttpError("refused".to_string())), ErrorAction::BootstrapFailed);
    assert_eq!(b.phase(), ConnectorPhase::Failed);
}
