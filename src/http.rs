use vstd::prelude::*;
use crate::capability::SensorCapability;
use crate::records::{SensorData, SensorList};
use crate::text::{decimal_string, spec_decimal};
use vstd::string::StringExecFns;

verus! {

/// `GET {base}/devices` lists the devices.
pub fn devices_uri(base_uri: &str) -> (r: String)
    ensures
        r@ == base_uri@ + "/devices"@,
{
    let mut s = String::from_str(base_uri);
    s.append("/devices");
    s
}

/// `GET {base}/devices/{id}/sensors` lists the sensors of a device.
pub fn sensors_uri(base_uri: &str, device_id: &str) -> (r: String)
    ensures
        r@ == base_uri@ + "/devices/"@ + device_id@ + "/sensors"@,
{
    let mut s = String::from_str(base_uri);
    s.append("/devices/");
    s.append(device_id);
    s.append("/sensors");
    s
}

/// The query for the newest `n_last` records of one sensor and capability, newest first.
pub open spec fn spec_records_uri(
    base_uri: Seq<char>,
    device_id: Seq<char>,
    sensor_no: nat,
    capability: SensorCapability,
    n_last: nat,
) -> Seq<char> {
    base_uri + "/devices/"@ + device_id + "/sensors/"@ + spec_decimal(sensor_no) + "/"@
        + capability.spec_name() + "?sort=timeRecorded,DESC&limit="@ + spec_decimal(n_last)
}

pub fn records_uri(
    base_uri: &str,
    device_id: &str,
    sensor_no: u32,
    capability: SensorCapability,
    n_last: usize,
) -> (r: String)
    ensures
        r@ == spec_records_uri(base_uri@, device_id@, sensor_no as nat, capability, n_last as nat),
{
    let mut s = String::from_str(base_uri);
    s.append("/devices/");
    s.append(device_id);
    s.append("/sensors/");
    let no = decimal_string(sensor_no as u64);
    s.append(no.as_str());
    s.append("/");
    s.append(capability.name());
    s.append("?sort=timeRecorded,DESC&limit=");
    let n = decimal_string(n_last as u64);
    s.append(n.as_str());
    s
}

/// The value of the `Authorization` header that carries `access_token`.
pub fn bearer_auth_value(access_token: &str) -> (r: String)
    ensures
        r@ == "Bearer "@ + access_token@,
{
    let mut s = String::from_str("Bearer ");
    s.append(access_token);
    s
}

/// The (sensor, capability) pairs of one sensor, in the order of its capabilities.
pub open spec fn sensor_fetches(d: SensorData) -> Seq<(u32, SensorCapability)> {
    d.capabilities@.map_values(|c: SensorCapability| (d.no, c))
}

/// The (sensor, capability) pairs of a sensor list, sensor by sensor.
pub open spec fn spec_fetch_plan(sensors: Seq<SensorData>) -> Seq<(u32, SensorCapability)>
    decreases sensors.len(),
{
    if sensors.len() == 0 {
        Seq::empty()
    } else {
        spec_fetch_plan(sensors.drop_last()) + sensor_fetches(sensors.last())
    }
}

/// The record queries of a device's bootstrap: one per sensor and
/// capability, in list order.
pub fn fetch_plan(sensors: &SensorList) -> (r: Vec<(u32, SensorCapability)>)
    ensures
        r@ == spec_fetch_plan(sensors.data@),
{
    let mut r: Vec<(u32, SensorCapability)> = Vec::new();
    let mut i: usize = 0;
    while i < sensors.data.len()
        invariant
            i <= sensors.data@.len(),
            r@ == spec_fetch_plan(sensors.data@.take(i as int)),
        decreases sensors.data@.len() - i,
    {
        let d = &sensors.data[i];
        let ghost before = r@;
        let mut j: usize = 0;
        while j < d.capabilities.len()
            invariant
                j <= d.capabilities@.len(),
                r@ == before + sensor_fetches(*d).take(j as int),
            decreases d.capabilities@.len() - j,
        {
            r.push((d.no, d.capabilities[j]));
            assert(r@ =~= before + sensor_fetches(*d).take(j + 1));
            j = j + 1;
        }
        assert(sensors.data@.take(i + 1).drop_last() =~= sensors.data@.take(i as int));
        assert(sensor_fetches(*d).take(j as int) =~= sensor_fetches(*d));
        i = i + 1;
    }
    assert(sensors.data@.take(i as int) =~= sensors.data@);
    r
}

} // verus!
