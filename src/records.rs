use vstd::prelude::*;
use crate::capability::{CapabilityProvider, SensorCapability};
use crate::errors::OdinSentinelError;
use crate::text::{decimal_string, spec_decimal};
use vstd::string::StringExecFns;

verus! {

/// A reference to another record, by its id.
#[derive(Debug, Clone, PartialEq)]
pub struct RecordId {
    pub id: String,
}

/// One reading of one sensor of one device.
///
/// `time_recorded` is the UTC time of the reading in milliseconds since the
/// Unix epoch. Records are ordered by `time_recorded` and identified by `id`;
/// the payload takes no part in either.
#[derive(Debug, Clone)]
pub struct SensorRecord<T> {
    pub id: String,
    pub time_recorded: i64,
    pub sensor_no: u32,
    pub device_id: String,
    pub evidences: Vec<RecordId>,
    pub claims: Vec<RecordId>,
    pub data: T,
}

impl<T> PartialEq for SensorRecord<T> {
    fn eq(&self, other: &Self) -> (r: bool) {
        self.id == other.id
    }
}

impl<T> vstd::std_specs::cmp::PartialEqSpecImpl for SensorRecord<T> {
    open spec fn obeys_eq_spec() -> bool {
        true
    }

    open spec fn eq_spec(&self, other: &Self) -> bool {
        self.id@ == other.id@
    }
}

impl<T> PartialOrd for SensorRecord<T> {
    fn partial_cmp(&self, other: &Self) -> (r: Option<core::cmp::Ordering>) {
        if self.time_recorded < other.time_recorded {
            Some(core::cmp::Ordering::Less)
        } else if self.time_recorded > other.time_recorded {
            Some(core::cmp::Ordering::Greater)
        } else {
            Some(core::cmp::Ordering::Equal)
        }
    }
}

impl<T> vstd::std_specs::cmp::PartialOrdSpecImpl for SensorRecord<T> {
    open spec fn obeys_partial_cmp_spec() -> bool {
        true
    }

    open spec fn partial_cmp_spec(&self, other: &Self) -> Option<core::cmp::Ordering> {
        if self.time_recorded < other.time_recorded {
            Some(core::cmp::Ordering::Less)
        } else if self.time_recorded > other.time_recorded {
            Some(core::cmp::Ordering::Greater)
        } else {
            Some(core::cmp::Ordering::Equal)
        }
    }
}

/// Payload of an image record.
#[derive(Debug, Clone, PartialEq)]
pub struct ImageData {
    pub filename: String,
    pub is_infrared: bool,
    pub orientation_record: Option<RecordId>,
}

impl CapabilityProvider for ImageData {
    fn capability() -> SensorCapability {
        SensorCapability::Image
    }
}

/// Payload of a valve record.
#[derive(Debug, Clone, Copy, PartialEq, Eq, Structural)]
pub struct ValveData {
    pub valve_open: bool,
    pub external_light_on: bool,
    pub internal_light_on: bool,
}

impl CapabilityProvider for ValveData {
    fn capability() -> SensorCapability {
        SensorCapability::Valve
    }
}

/// Payload of a volatile organic compound record.
#[derive(Debug, Clone, Copy, PartialEq, Eq, Structural)]
pub struct VocData {
    pub tvoc: i32,
    pub e_co2: i32,
}

impl CapabilityProvider for VocData {
    fn capability() -> SensorCapability {
        SensorCapability::Voc
    }
}

/// A device as listed by the server.
#[derive(Debug, Clone, PartialEq)]
pub struct Device {
    pub id: String,
    pub info: Option<String>,
}

/// The server's list of devices.
#[derive(Debug, Clone, PartialEq)]
pub struct DeviceList {
    pub data: Vec<Device>,
}

impl DeviceList {
    /// The device ids in list order.
    pub open spec fn spec_device_ids(self) -> Seq<Seq<char>> {
        self.data@.map_values(|d: Device| d.id@)
    }

    pub fn get_device_ids(&self) -> (r: Vec<String>)
        ensures
            r@.map_values(|s: String| s@) == self.spec_device_ids(),
    {
        let mut r: Vec<String> = Vec::new();
        let mut i: usize = 0;
        while i < self.data.len()
            invariant
                i <= self.data@.len(),
                r@.len() == i,
                forall|k: int| 0 <= k < i ==> #[trigger] r@[k]@ == self.data@[k].id@,
            decreases self.data@.len() - i,
        {
            r.push(self.data[i].id.clone());
            i = i + 1;
        }
        assert(r@.map_values(|s: String| s@) =~= self.spec_device_ids());
        r
    }
}

/// One sensor of a device, with the capabilities it provides.
#[derive(Debug, Clone, PartialEq)]
pub struct SensorData {
    pub no: u32,
    pub device_id: String,
    pub part_no: Option<String>,
    pub capabilities: Vec<SensorCapability>,
}

/// The server's list of sensors of one device.
#[derive(Debug, Clone, PartialEq)]
pub struct SensorList {
    pub data: Vec<SensorData>,
}

/// The server's list of records of one sensor and capability, newest first.
#[derive(Debug, Clone)]
pub struct RecordList<T> {
    pub data: Vec<SensorRecord<T>>,
}

impl<T> RecordList<T> {
    /// The first record of the list, which a "latest record" query returns;
    /// `NoDataError` if the query returned none.
    pub fn into_latest(self, device_id: &str, sensor_no: u32, capability: SensorCapability) -> (r:
        Result<SensorRecord<T>, OdinSentinelError>)
        ensures
            self.data@.len() == 0 <==> r is Err,
            r is Err ==> r->Err_0 is NoDataError,
            r is Ok ==> r->Ok_0 == self.data@[0],
    {
        let mut recs = self.data;
        if recs.len() == 0 {
            let mut msg = String::from_str("for device: ");
            msg.append(device_id);
            msg.append(", sensor: ");
            let no = decimal_string(sensor_no as u64);
            msg.append(no.as_str());
            msg.append(", capability: ");
            msg.append(capability.name());
            Err(OdinSentinelError::NoDataError(msg))
        } else {
            Ok(recs.remove(0))
        }
    }
}

} // verus!
