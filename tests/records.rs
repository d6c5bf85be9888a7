use odin_sentinel::http::{bearer_auth_value, devices_uri, fetch_plan, records_uri, sensors_uri};
use odin_sentinel::text::decimal_string;
use odin_sentinel::{
    no_data, op_failed, CapabilityProvider, Device, DeviceList, ImageData, OdinSentinelError,
    RecordList, SensorCapability, SensorData, SensorList, SensorRecord, ValveData, VocData,
};

fn rec(id: &str, t: i64) -> SensorRecord<VocData> {
    SensorRecord {
        id: id.to_string(),
        time_recorded: t,
        sensor_no: 39,
        device_id: "roo7gd1dldn3".to_string(),
        evidences: vec![],
        claims: vec![],
        data: VocData { tvoc: 138, e_co2: 489 },
    }
}

#[test]
fn device_ids_keep_list_order() {
    let list = DeviceList {
        data: vec![
            Device { id: "roo7gd1dldn3".to_string(), info: Some("live".to_string()) },
            Device { id: "b".to_string(), info: None },
            Device { id: "a".to_string(), info: None },
        ],
    };
    assert_eq!(list.get_device_ids(), vec!["roo7gd1dldn3", "b", "a"]);
    assert!(DeviceList { data: vec![] }.get_device_ids().is_empty());
}

#[test]
fn latest_of_empty_result_is_no_data() {
    let empty: RecordList<VocData> = RecordList { data: vec![] };
    match empty.into_latest("roo7gd1dldn3", 39, SensorCapability::Voc) {
        Err(OdinSentinelError::NoDataError(msg)) => {
            assert_eq!(msg, "for device: roo7gd1dldn3, sensor: 39, capability: voc")
        }
        other => panic!("unexpected {other:?}"),
    }
}

#[test]
fn latest_is_first_record() {
    let list = RecordList { data: vec![rec("newest", 20), rec("older", 10)] };
    let latest = list.into_latest("roo7gd1dldn3", 39, SensorCapability::Voc).unwrap();
    assert_eq!(latest.id, "newest");
}

#[test]
fn capability_wire_names() {
    let names: Vec<&str> = SensorCapability::all().iter().map(|c| c.name()).collect();
    assert_eq!(
        names,
        vec![
            "accelerometer", "anemometer", "cloudcover", "fire", "gas", "gps", "gyroscope", "image",
            "magnetometer", "orientation", "person", "power", "smoke", "thermometer", "valve", "voc"
        ]
    );
    assert_eq!(ImageData::capability(), SensorCapability::Image);
    assert_eq!(ValveData::capability(), SensorCapability::Valve);
    assert_eq!(VocData::capability(), SensorCapability::Voc);
}

#[test]
fn error_constructors() {
    assert_eq!(no_data("x"), OdinSentinelError::NoDataError("x".to_string()));
    assert_eq!(op_failed("no websocket"), OdinSentinelError::OpFailed("no websocket".to_string()));
}

#[test]
fn request_uris() {
    assert_eq!(devices_uri("https://h/api"), "https://h/api/devices");
    assert_eq!(sensors_uri("https://h/api", "roo7gd1dldn3"), "https://h/api/devices/roo7gd1dldn3/sensors");
    assert_eq!(
        records_uri("https://h/api", "roo7gd1dldn3", 9, SensorCapability::Gps, 3),
        "https://h/api/devices/roo7gd1dldn3/sensors/9/gps?sort=timeRecorded,DESC&limit=3"
    );
    assert_eq!(bearer_auth_value("tok"), "Bearer tok");
}

#[test]
fn decimal_rendering() {
    assert_eq!(decimal_string(0), "0");
    assert_eq!(decimal_string(7), "7");
    assert_eq!(decimal_string(1200), "1200");
    assert_eq!(decimal_string(u64::MAX), "18446744073709551615");
}

#[test]
fn fetch_plan_lists_sensor_capabilities_in_order() {
    let sensors = SensorList {
        data: vec![
            SensorData {
                no: 0,
                device_id: "roo7gd1dldn3".to_string(),
                part_no: Some("Visible Camera".to_string()),
                capabilities: vec![SensorCapability::Image, SensorCapability::Cloudcover],
            },
            SensorData {
                no: 44,
                device_id: "roo7gd1dldn3".to_string(),
                part_no: Some("Orientation".to_string()),
                capabilities: vec![],
            },
            SensorData {
                no: 9,
                device_id: "roo7gd1dldn3".to_string(),
                part_no: None,
                capabilities: vec![SensorCapability::Gps],
            },
        ],
    };
    assert_eq!(
        fetch_plan(&sensors),
        vec![(0, SensorCapability::Image), (0, SensorCapability::Cloudcover), (9, SensorCapability::Gps)]
    );
}
