use vstd::prelude::*;
use std::collections::VecDeque;
use crate::capability::SensorCapability;
use crate::history::{
    contains_id, history_wf, keep_record, keep_records, kept_in, kept_in_all, lemma_kept_in_all_wf,
    lemma_kept_in_wf,
};
use crate::json::Json;
use crate::records::{Device, SensorRecord};
use vstd::string::StringExecFns;

verus! {

/// A payload that can be written as JSON.
pub trait PayloadJson {
    /// `v` is the JSON form of the payload. A type that states nothing holds
    /// it of every value.
    open spec fn is_json_of(&self, v: Json) -> bool {
        true
    }

    fn payload_json(&self) -> (r: Json)
        ensures
            self.is_json_of(r),
    ;
}

/// The payload type of each capability.
pub trait PayloadTypes {
    type Accelerometer: PayloadJson;
    type Anemometer: PayloadJson;
    type Cloudcover: PayloadJson;
    type Fire: PayloadJson;
    type Gas: PayloadJson;
    type Gps: PayloadJson;
    type Gyroscope: PayloadJson;
    type Image: PayloadJson;
    type Magnetometer: PayloadJson;
    type Orientation: PayloadJson;
    type Person: PayloadJson;
    type Power: PayloadJson;
    type Smoke: PayloadJson;
    type Thermometer: PayloadJson;
    type Valve: PayloadJson;
    type Voc: PayloadJson;
}

/// A record of any capability: the single update type that is handed to
/// subscribers.
#[derive(Debug, Clone)]
pub enum SentinelUpdate<P: PayloadTypes> {
    Accelerometer(SensorRecord<P::Accelerometer>),
    Anemometer(SensorRecord<P::Anemometer>),
    Cloudcover(SensorRecord<P::Cloudcover>),
    Fire(SensorRecord<P::Fire>),
    Gas(SensorRecord<P::Gas>),
    Gps(SensorRecord<P::Gps>),
    Gyroscope(SensorRecord<P::Gyroscope>),
    Image(SensorRecord<P::Image>),
    Magnetometer(SensorRecord<P::Magnetometer>),
    Orientation(SensorRecord<P::Orientation>),
    Person(SensorRecord<P::Person>),
    Power(SensorRecord<P::Power>),
    Smoke(SensorRecord<P::Smoke>),
    Thermometer(SensorRecord<P::Thermometer>),
    Valve(SensorRecord<P::Valve>),
    Voc(SensorRecord<P::Voc>),
}

/// A batch of records of one capability.
#[derive(Debug, Clone)]
pub enum RecordBatch<P: PayloadTypes> {
    Accelerometer(Vec<SensorRecord<P::Accelerometer>>),
    Anemometer(Vec<SensorRecord<P::Anemometer>>),
    Cloudcover(Vec<SensorRecord<P::Cloudcover>>),
    Fire(Vec<SensorRecord<P::Fire>>),
    Gas(Vec<SensorRecord<P::Gas>>),
    Gps(Vec<SensorRecord<P::Gps>>),
    Gyroscope(Vec<SensorRecord<P::Gyroscope>>),
    Image(Vec<SensorRecord<P::Image>>),
    Magnetometer(Vec<SensorRecord<P::Magnetometer>>),
    Orientation(Vec<SensorRecord<P::Orientation>>),
    Person(Vec<SensorRecord<P::Person>>),
    Power(Vec<SensorRecord<P::Power>>),
    Smoke(Vec<SensorRecord<P::Smoke>>),
    Thermometer(Vec<SensorRecord<P::Thermometer>>),
    Valve(Vec<SensorRecord<P::Valve>>),
    Voc(Vec<SensorRecord<P::Voc>>),
}

impl<P: PayloadTypes> SentinelUpdate<P> {
    pub open spec fn spec_capability(self) -> SensorCapability {
        match self {
            SentinelUpdate::Accelerometer(_) => SensorCapability::Accelerometer,
            SentinelUpdate::Anemometer(_) => SensorCapability::Anemometer,
            SentinelUpdate::Cloudcover(_) => SensorCapability::Cloudcover,
            SentinelUpdate::Fire(_) => SensorCapability::Fire,
            SentinelUpdate::Gas(_) => SensorCapability::Gas,
            SentinelUpdate::Gps(_) => SensorCapability::Gps,
            SentinelUpdate::Gyroscope(_) => SensorCapability::Gyroscope,
            SentinelUpdate::Image(_) => SensorCapability::Image,
            SentinelUpdate::Magnetometer(_) => SensorCapability::Magnetometer,
            SentinelUpdate::Orientation(_) => SensorCapability::Orientation,
            SentinelUpdate::Person(_) => SensorCapability::Person,
            SentinelUpdate::Power(_) => SensorCapability::Power,
            SentinelUpdate::Smoke(_) => SensorCapability::Smoke,
            SentinelUpdate::Thermometer(_) => SensorCapability::Thermometer,
            SentinelUpdate::Valve(_) => SensorCapability::Valve,
            SentinelUpdate::Voc(_) => SensorCapability::Voc,
        }
    }

    pub open spec fn spec_device_id(self) -> Seq<char> {
        match self {
            SentinelUpdate::Accelerometer(r) => r.device_id@,
            SentinelUpdate::Anemometer(r) => r.device_id@,
            SentinelUpdate::Cloudcover(r) => r.device_id@,
            SentinelUpdate::Fire(r) => r.device_id@,
            SentinelUpdate::Gas(r) => r.device_id@,
            SentinelUpdate::Gps(r) => r.device_id@,
            SentinelUpdate::Gyroscope(r) => r.device_id@,
            SentinelUpdate::Image(r) => r.device_id@,
            SentinelUpdate::Magnetometer(r) => r.device_id@,
            SentinelUpdate::Orientation(r) => r.device_id@,
            SentinelUpdate::Person(r) => r.device_id@,
            SentinelUpdate::Power(r) => r.device_id@,
            SentinelUpdate::Smoke(r) => r.device_id@,
            SentinelUpdate::Thermometer(r) => r.device_id@,
            SentinelUpdate::Valve(r) => r.device_id@,
            SentinelUpdate::Voc(r) => r.device_id@,
        }
    }

    /// The capability of the record.
    pub fn capability(&self) -> (r: SensorCapability)
        ensures
            r == self.spec_capability(),
    {
        match self {
            SentinelUpdate::Accelerometer(_) => SensorCapability::Accelerometer,
            SentinelUpdate::Anemometer(_) => SensorCapability::Anemometer,
            SentinelUpdate::Cloudcover(_) => SensorCapability::Cloudcover,
            SentinelUpdate::Fire(_) => SensorCapability::Fire,
            SentinelUpdate::Gas(_) => SensorCapability::Gas,
            SentinelUpdate::Gps(_) => SensorCapability::Gps,
            SentinelUpdate::Gyroscope(_) => SensorCapability::Gyroscope,
            SentinelUpdate::Image(_) => SensorCapability::Image,
            SentinelUpdate::Magnetometer(_) => SensorCapability::Magnetometer,
            SentinelUpdate::Orientation(_) => SensorCapability::Orientation,
            SentinelUpdate::Person(_) => SensorCapability::Person,
            SentinelUpdate::Power(_) => SensorCapability::Power,
            SentinelUpdate::Smoke(_) => SensorCapability::Smoke,
            SentinelUpdate::Thermometer(_) => SensorCapability::Thermometer,
            SentinelUpdate::Valve(_) => SensorCapability::Valve,
            SentinelUpdate::Voc(_) => SensorCapability::Voc,
        }
    }

    /// The device the record comes from.
    pub fn device_id(&self) -> (r: &String)
        ensures
            r@ == self.spec_device_id(),
    {
        match self {
            SentinelUpdate::Accelerometer(r) => &r.device_id,
            SentinelUpdate::Anemometer(r) => &r.device_id,
            SentinelUpdate::Cloudcover(r) => &r.device_id,
            SentinelUpdate::Fire(r) => &r.device_id,
            SentinelUpdate::Gas(r) => &r.device_id,
            SentinelUpdate::Gps(r) => &r.device_id,
            SentinelUpdate::Gyroscope(r) => &r.device_id,
            SentinelUpdate::Image(r) => &r.device_id,
            SentinelUpdate::Magnetometer(r) => &r.device_id,
            SentinelUpdate::Orientation(r) => &r.device_id,
            SentinelUpdate::Person(r) => &r.device_id,
            SentinelUpdate::Power(r) => &r.device_id,
            SentinelUpdate::Smoke(r) => &r.device_id,
            SentinelUpdate::Thermometer(r) => &r.device_id,
            SentinelUpdate::Valve(r) => &r.device_id,
            SentinelUpdate::Voc(r) => &r.device_id,
        }
    }
}

impl<P: PayloadTypes> RecordBatch<P> {
    pub open spec fn spec_capability(self) -> SensorCapability {
        match self {
            RecordBatch::Accelerometer(_) => SensorCapability::Accelerometer,
            RecordBatch::Anemometer(_) => SensorCapability::Anemometer,
            RecordBatch::Cloudcover(_) => SensorCapability::Cloudcover,
            RecordBatch::Fire(_) => SensorCapability::Fire,
            RecordBatch::Gas(_) => SensorCapability::Gas,
            RecordBatch::Gps(_) => SensorCapability::Gps,
            RecordBatch::Gyroscope(_) => SensorCapability::Gyroscope,
            RecordBatch::Image(_) => SensorCapability::Image,
            RecordBatch::Magnetometer(_) => SensorCapability::Magnetometer,
            RecordBatch::Orientation(_) => SensorCapability::Orientation,
            RecordBatch::Person(_) => SensorCapability::Person,
            RecordBatch::Power(_) => SensorCapability::Power,
            RecordBatch::Smoke(_) => SensorCapability::Smoke,
            RecordBatch::Thermometer(_) => SensorCapability::Thermometer,
            RecordBatch::Valve(_) => SensorCapability::Valve,
            RecordBatch::Voc(_) => SensorCapability::Voc,
        }
    }
}

/// The state of one device: the newest records of each capability, newest first.
#[derive(Debug)]
pub struct Sentinel<P: PayloadTypes> {
    pub device_id: String,
    pub device_name: String,
    /// time of the last update, in milliseconds since the Unix epoch
    pub date: Option<i64>,
    pub accel: VecDeque<SensorRecord<P::Accelerometer>>,
    pub anemo: VecDeque<SensorRecord<P::Anemometer>>,
    pub cloudcover: VecDeque<SensorRecord<P::Cloudcover>>,
    pub fire: VecDeque<SensorRecord<P::Fire>>,
    pub gas: VecDeque<SensorRecord<P::Gas>>,
    pub gps: VecDeque<SensorRecord<P::Gps>>,
    pub gyro: VecDeque<SensorRecord<P::Gyroscope>>,
    pub image: VecDeque<SensorRecord<P::Image>>,
    pub mag: VecDeque<SensorRecord<P::Magnetometer>>,
    pub orientation: VecDeque<SensorRecord<P::Orientation>>,
    pub person: VecDeque<SensorRecord<P::Person>>,
    pub power: VecDeque<SensorRecord<P::Power>>,
    pub smoke: VecDeque<SensorRecord<P::Smoke>>,
    pub thermo: VecDeque<SensorRecord<P::Thermometer>>,
    pub valve: VecDeque<SensorRecord<P::Valve>>,
    pub voc: VecDeque<SensorRecord<P::Voc>>,
}

impl<P: PayloadTypes> Sentinel<P> {
    /// Every capability history is well formed with bound `max_history`.
    pub open spec fn wf(&self, max_history: nat) -> bool {
        &&& history_wf(self.accel@, max_history)
        &&& history_wf(self.anemo@, max_history)
        &&& history_wf(self.cloudcover@, max_history)
        &&& history_wf(self.fire@, max_history)
        &&& history_wf(self.gas@, max_history)
        &&& history_wf(self.gps@, max_history)
        &&& history_wf(self.gyro@, max_history)
        &&& history_wf(self.image@, max_history)
        &&& history_wf(self.mag@, max_history)
        &&& history_wf(self.orientation@, max_history)
        &&& history_wf(self.person@, max_history)
        &&& history_wf(self.power@, max_history)
        &&& history_wf(self.smoke@, max_history)
        &&& history_wf(self.thermo@, max_history)
        &&& history_wf(self.valve@, max_history)
        &&& history_wf(self.voc@, max_history)
    }

    /// Every capability history is empty.
    pub open spec fn is_empty(&self) -> bool {
        &&& self.accel@.len() == 0
        &&& self.anemo@.len() == 0
        &&& self.cloudcover@.len() == 0
        &&& self.fire@.len() == 0
        &&& self.gas@.len() == 0
        &&& self.gps@.len() == 0
        &&& self.gyro@.len() == 0
        &&& self.image@.len() == 0
        &&& self.mag@.len() == 0
        &&& self.orientation@.len() == 0
        &&& self.person@.len() == 0
        &&& self.power@.len() == 0
        &&& self.smoke@.len() == 0
        &&& self.thermo@.len() == 0
        &&& self.valve@.len() == 0
        &&& self.voc@.len() == 0
    }

    /// `self` and `other` agree on everything but the history of `cap`.
    pub open spec fn same_except(&self, other: &Self, cap: SensorCapability) -> bool {
        &&& self.device_id@ == other.device_id@
        &&& self.device_name@ == other.device_name@
        &&& self.date == other.date
        &&& (cap != SensorCapability::Accelerometer ==> self.accel@ == other.accel@)
        &&& (cap != SensorCapability::Anemometer ==> self.anemo@ == other.anemo@)
        &&& (cap != SensorCapability::Cloudcover ==> self.cloudcover@ == other.cloudcover@)
        &&& (cap != SensorCapability::Fire ==> self.fire@ == other.fire@)
        &&& (cap != SensorCapability::Gas ==> self.gas@ == other.gas@)
        &&& (cap != SensorCapability::Gps ==> self.gps@ == other.gps@)
        &&& (cap != SensorCapability::Gyroscope ==> self.gyro@ == other.gyro@)
        &&& (cap != SensorCapability::Image ==> self.image@ == other.image@)
        &&& (cap != SensorCapability::Magnetometer ==> self.mag@ == other.mag@)
        &&& (cap != SensorCapability::Orientation ==> self.orientation@ == other.orientation@)
        &&& (cap != SensorCapability::Person ==> self.person@ == other.person@)
        &&& (cap != SensorCapability::Power ==> self.power@ == other.power@)
        &&& (cap != SensorCapability::Smoke ==> self.smoke@ == other.smoke@)
        &&& (cap != SensorCapability::Thermometer ==> self.thermo@ == other.thermo@)
        &&& (cap != SensorCapability::Valve ==> self.valve@ == other.valve@)
        &&& (cap != SensorCapability::Voc ==> self.voc@ == other.voc@)
    }

    /// `new` is `self` after `u` was kept in the history of its capability.
    pub open spec fn kept_update(&self, new: &Self, u: SentinelUpdate<P>, max_history: nat) -> bool {
        &&& new.same_except(self, u.spec_capability())
        &&& match u {
            SentinelUpdate::Accelerometer(r) => new.accel@ == kept_in(self.accel@, r, max_history),
            SentinelUpdate::Anemometer(r) => new.anemo@ == kept_in(self.anemo@, r, max_history),
            SentinelUpdate::Cloudcover(r) => new.cloudcover@ == kept_in(self.cloudcover@, r, max_history),
            SentinelUpdate::Fire(r) => new.fire@ == kept_in(self.fire@, r, max_history),
            SentinelUpdate::Gas(r) => new.gas@ == kept_in(self.gas@, r, max_history),
            SentinelUpdate::Gps(r) => new.gps@ == kept_in(self.gps@, r, max_history),
            SentinelUpdate::Gyroscope(r) => new.gyro@ == kept_in(self.gyro@, r, max_history),
            SentinelUpdate::Image(r) => new.image@ == kept_in(self.image@, r, max_history),
            SentinelUpdate::Magnetometer(r) => new.mag@ == kept_in(self.mag@, r, max_history),
            SentinelUpdate::Orientation(r) => new.orientation@ == kept_in(self.orientation@, r, max_history),
            SentinelUpdate::Person(r) => new.person@ == kept_in(self.person@, r, max_history),
            SentinelUpdate::Power(r) => new.power@ == kept_in(self.power@, r, max_history),
            SentinelUpdate::Smoke(r) => new.smoke@ == kept_in(self.smoke@, r, max_history),
            SentinelUpdate::Thermometer(r) => new.thermo@ == kept_in(self.thermo@, r, max_history),
            SentinelUpdate::Valve(r) => new.valve@ == kept_in(self.valve@, r, max_history),
            SentinelUpdate::Voc(r) => new.voc@ == kept_in(self.voc@, r, max_history),
        }
    }

    /// Whether the history of the capability of `u` holds a record with the id of `u`.
    pub open spec fn holds(&self, u: SentinelUpdate<P>) -> bool {
        match u {
            SentinelUpdate::Accelerometer(r) => contains_id(self.accel@, r.id@),
            SentinelUpdate::Anemometer(r) => contains_id(self.anemo@, r.id@),
            SentinelUpdate::Cloudcover(r) => contains_id(self.cloudcover@, r.id@),
            SentinelUpdate::Fire(r) => contains_id(self.fire@, r.id@),
            SentinelUpdate::Gas(r) => contains_id(self.gas@, r.id@),
            SentinelUpdate::Gps(r) => contains_id(self.gps@, r.id@),
            SentinelUpdate::Gyroscope(r) => contains_id(self.gyro@, r.id@),
            SentinelUpdate::Image(r) => contains_id(self.image@, r.id@),
            SentinelUpdate::Magnetometer(r) => contains_id(self.mag@, r.id@),
            SentinelUpdate::Orientation(r) => contains_id(self.orientation@, r.id@),
            SentinelUpdate::Person(r) => contains_id(self.person@, r.id@),
            SentinelUpdate::Power(r) => contains_id(self.power@, r.id@),
            SentinelUpdate::Smoke(r) => contains_id(self.smoke@, r.id@),
            SentinelUpdate::Thermometer(r) => contains_id(self.thermo@, r.id@),
            SentinelUpdate::Valve(r) => contains_id(self.valve@, r.id@),
            SentinelUpdate::Voc(r) => contains_id(self.voc@, r.id@),
        }
    }

    /// `new` is `self` after each record of `b` was kept in the history of its capability.
    pub open spec fn kept_batch(&self, new: &Self, b: RecordBatch<P>, max_history: nat) -> bool {
        &&& new.same_except(self, b.spec_capability())
        &&& match b {
            RecordBatch::Accelerometer(v) => new.accel@ == kept_in_all(self.accel@, v@, max_history),
            RecordBatch::Anemometer(v) => new.anemo@ == kept_in_all(self.anemo@, v@, max_history),
            RecordBatch::Cloudcover(v) => new.cloudcover@ == kept_in_all(self.cloudcover@, v@, max_history),
            RecordBatch::Fire(v) => new.fire@ == kept_in_all(self.fire@, v@, max_history),
            RecordBatch::Gas(v) => new.gas@ == kept_in_all(self.gas@, v@, max_history),
            RecordBatch::Gps(v) => new.gps@ == kept_in_all(self.gps@, v@, max_history),
            RecordBatch::Gyroscope(v) => new.gyro@ == kept_in_all(self.gyro@, v@, max_history),
            RecordBatch::Image(v) => new.image@ == kept_in_all(self.image@, v@, max_history),
            RecordBatch::Magnetometer(v) => new.mag@ == kept_in_all(self.mag@, v@, max_history),
            RecordBatch::Orientation(v) => new.orientation@ == kept_in_all(self.orientation@, v@, max_history),
            RecordBatch::Person(v) => new.person@ == kept_in_all(self.person@, v@, max_history),
            RecordBatch::Power(v) => new.power@ == kept_in_all(self.power@, v@, max_history),
            RecordBatch::Smoke(v) => new.smoke@ == kept_in_all(self.smoke@, v@, max_history),
            RecordBatch::Thermometer(v) => new.thermo@ == kept_in_all(self.thermo@, v@, max_history),
            RecordBatch::Valve(v) => new.valve@ == kept_in_all(self.valve@, v@, max_history),
            RecordBatch::Voc(v) => new.voc@ == kept_in_all(self.voc@, v@, max_history),
        }
    }

    /// A sentinel without records.
    pub fn new(device_id: String, device_name: String) -> (r: Self)
        ensures
            r.device_id == device_id,
            r.device_name == device_name,
            r.date is None,
            r.is_empty(),
    {
        Sentinel {
            device_id,
            device_name,
            date: None,
            accel: VecDeque::new(),
            anemo: VecDeque::new(),
            cloudcover: VecDeque::new(),
            fire: VecDeque::new(),
            gas: VecDeque::new(),
            gps: VecDeque::new(),
            gyro: VecDeque::new(),
            image: VecDeque::new(),
            mag: VecDeque::new(),
            orientation: VecDeque::new(),
            person: VecDeque::new(),
            power: VecDeque::new(),
            smoke: VecDeque::new(),
            thermo: VecDeque::new(),
            valve: VecDeque::new(),
            voc: VecDeque::new(),
        }
    }

    /// A sentinel without records for a listed device, named after the
    /// device's info, or "unknown" if it has none.
    pub fn for_device(device: &Device) -> (r: Self)
        ensures
            r.device_id@ == device.id@,
            r.device_name@ == (match device.info {
                Some(info) => info@,
                None => "unknown"@,
            }),
            r.date is None,
            r.is_empty(),
    {
        let device_name = match &device.info {
            Some(info) => info.clone(),
            None => String::from_str("unknown"),
        };
        Sentinel::new(device.id.clone(), device_name)
    }

    /// Keeps the record of `u` in the history of its capability. Returns
    /// whether that history holds the record afterwards.
    pub fn keep_update(&mut self, u: SentinelUpdate<P>, max_history: usize) -> (r: bool)
        ensures
            old(self).kept_update(final(self), u, max_history as nat),
            r == final(self).holds(u),
            old(self).wf(max_history as nat) ==> final(self).wf(max_history as nat),
    {
        let ghost u0 = u;
        let r = match u {
            SentinelUpdate::Accelerometer(rec) => keep_record(&mut self.accel, rec, max_history),
            SentinelUpdate::Anemometer(rec) => keep_record(&mut self.anemo, rec, max_history),
            SentinelUpdate::Cloudcover(rec) => keep_record(&mut self.cloudcover, rec, max_history),
            SentinelUpdate::Fire(rec) => keep_record(&mut self.fire, rec, max_history),
            SentinelUpdate::Gas(rec) => keep_record(&mut self.gas, rec, max_history),
            SentinelUpdate::Gps(rec) => keep_record(&mut self.gps, rec, max_history),
            SentinelUpdate::Gyroscope(rec) => keep_record(&mut self.gyro, rec, max_history),
            SentinelUpdate::Image(rec) => keep_record(&mut self.image, rec, max_history),
            SentinelUpdate::Magnetometer(rec) => keep_record(&mut self.mag, rec, max_history),
            SentinelUpdate::Orientation(rec) => keep_record(&mut self.orientation, rec, max_history),
            SentinelUpdate::Person(rec) => keep_record(&mut self.person, rec, max_history),
            SentinelUpdate::Power(rec) => keep_record(&mut self.power, rec, max_history),
            SentinelUpdate::Smoke(rec) => keep_record(&mut self.smoke, rec, max_history),
            SentinelUpdate::Thermometer(rec) => keep_record(&mut self.thermo, rec, max_history),
            SentinelUpdate::Valve(rec) => keep_record(&mut self.valve, rec, max_history),
            SentinelUpdate::Voc(rec) => keep_record(&mut self.voc, rec, max_history),
        };
        proof {
            match u0 {
                SentinelUpdate::Accelerometer(rec) => if old(self).wf(max_history as nat) { lemma_kept_in_wf(old(self).accel@, rec, max_history as nat); },
                SentinelUpdate::Anemometer(rec) => if old(self).wf(max_history as nat) { lemma_kept_in_wf(old(self).anemo@, rec, max_history as nat); },
                SentinelUpdate::Cloudcover(rec) => if old(self).wf(max_history as nat) { lemma_kept_in_wf(old(self).cloudcover@, rec, max_history as nat); },
                SentinelUpdate::Fire(rec) => if old(self).wf(max_history as nat) { lemma_kept_in_wf(old(self).fire@, rec, max_history as nat); },
                SentinelUpdate::Gas(rec) => if old(self).wf(max_history as nat) { lemma_kept_in_wf(old(self).gas@, rec, max_history as nat); },
                SentinelUpdate::Gps(rec) => if old(self).wf(max_history as nat) { lemma_kept_in_wf(old(self).gps@, rec, max_history as nat); },
                SentinelUpdate::Gyroscope(rec) => if old(self).wf(max_history as nat) { lemma_kept_in_wf(old(self).gyro@, rec, max_history as nat); },
                SentinelUpdate::Image(rec) => if old(self).wf(max_history as nat) { lemma_kept_in_wf(old(self).image@, rec, max_history as nat); },
                SentinelUpdate::Magnetometer(rec) => if old(self).wf(max_history as nat) { lemma_kept_in_wf(old(self).mag@, rec, max_history as nat); },
                SentinelUpdate::Orientation(rec) => if old(self).wf(max_history as nat) { lemma_kept_in_wf(old(self).orientation@, rec, max_history as nat); },
                SentinelUpdate::Person(rec) => if old(self).wf(max_history as nat) { lemma_kept_in_wf(old(self).person@, rec, max_history as nat); },
                SentinelUpdate::Power(rec) => if old(self).wf(max_history as nat) { lemma_kept_in_wf(old(self).power@, rec, max_history as nat); },
                SentinelUpdate::Smoke(rec) => if old(self).wf(max_history as nat) { lemma_kept_in_wf(old(self).smoke@, rec, max_history as nat); },
                SentinelUpdate::Thermometer(rec) => if old(self).wf(max_history as nat) { lemma_kept_in_wf(old(self).thermo@, rec, max_history as nat); },
                SentinelUpdate::Valve(rec) => if old(self).wf(max_history as nat) { lemma_kept_in_wf(old(self).valve@, rec, max_history as nat); },
                SentinelUpdate::Voc(rec) => if old(self).wf(max_history as nat) { lemma_kept_in_wf(old(self).voc@, rec, max_history as nat); },
            }
        }
        r
    }

    /// Keeps each record of `b`, in order, in the history of its capability.
    pub fn keep_batch(&mut self, b: RecordBatch<P>, max_history: usize)
        ensures
            old(self).kept_batch(final(self), b, max_history as nat),
            old(self).wf(max_history as nat) ==> final(self).wf(max_history as nat),
    {
        let ghost b0 = b;
        match b {
            RecordBatch::Accelerometer(recs) => keep_records(&mut self.accel, recs, max_history),
            RecordBatch::Anemometer(recs) => keep_records(&mut self.anemo, recs, max_history),
            RecordBatch::Cloudcover(recs) => keep_records(&mut self.cloudcover, recs, max_history),
            RecordBatch::Fire(recs) => keep_records(&mut self.fire, recs, max_history),
            RecordBatch::Gas(recs) => keep_records(&mut self.gas, recs, max_history),
            RecordBatch::Gps(recs) => keep_records(&mut self.gps, recs, max_history),
            RecordBatch::Gyroscope(recs) => keep_records(&mut self.gyro, recs, max_history),
            RecordBatch::Image(recs) => keep_records(&mut self.image, recs, max_history),
            RecordBatch::Magnetometer(recs) => keep_records(&mut self.mag, recs, max_history),
            RecordBatch::Orientation(recs) => keep_records(&mut self.orientation, recs, max_history),
            RecordBatch::Person(recs) => keep_records(&mut self.person, recs, max_history),
            RecordBatch::Power(recs) => keep_records(&mut self.power, recs, max_history),
            RecordBatch::Smoke(recs) => keep_records(&mut self.smoke, recs, max_history),
            RecordBatch::Thermometer(recs) => keep_records(&mut self.thermo, recs, max_history),
            RecordBatch::Valve(recs) => keep_records(&mut self.valve, recs, max_history),
            RecordBatch::Voc(recs) => keep_records(&mut self.voc, recs, max_history),
        }
        proof {
            match b0 {
                RecordBatch::Accelerometer(recs) => if old(self).wf(max_history as nat) { lemma_kept_in_all_wf(old(self).accel@, recs@, max_history as nat); },
                RecordBatch::Anemometer(recs) => if old(self).wf(max_history as nat) { lemma_kept_in_all_wf(old(self).anemo@, recs@, max_history as nat); },
                RecordBatch::Cloudcover(recs) => if old(self).wf(max_history as nat) { lemma_kept_in_all_wf(old(self).cloudcover@, recs@, max_history as nat); },
                RecordBatch::Fire(recs) => if old(self).wf(max_history as nat) { lemma_kept_in_all_wf(old(self).fire@, recs@, max_history as nat); },
                RecordBatch::Gas(recs) => if old(self).wf(max_history as nat) { lemma_kept_in_all_wf(old(self).gas@, recs@, max_history as nat); },
                RecordBatch::Gps(recs) => if old(self).wf(max_history as nat) { lemma_kept_in_all_wf(old(self).gps@, recs@, max_history as nat); },
                RecordBatch::Gyroscope(recs) => if old(self).wf(max_history as nat) { lemma_kept_in_all_wf(old(self).gyro@, recs@, max_history as nat); },
                RecordBatch::Image(recs) => if old(self).wf(max_history as nat) { lemma_kept_in_all_wf(old(self).image@, recs@, max_history as nat); },
                RecordBatch::Magnetometer(recs) => if old(self).wf(max_history as nat) { lemma_kept_in_all_wf(old(self).mag@, recs@, max_history as nat); },
                RecordBatch::Orientation(recs) => if old(self).wf(max_history as nat) { lemma_kept_in_all_wf(old(self).orientation@, recs@, max_history as nat); },
                RecordBatch::Person(recs) => if old(self).wf(max_history as nat) { lemma_kept_in_all_wf(old(self).person@, recs@, max_history as nat); },
                RecordBatch::Power(recs) => if old(self).wf(max_history as nat) { lemma_kept_in_all_wf(old(self).power@, recs@, max_history as nat); },
                RecordBatch::Smoke(recs) => if old(self).wf(max_history as nat) { lemma_kept_in_all_wf(old(self).smoke@, recs@, max_history as nat); },
                RecordBatch::Thermometer(recs) => if old(self).wf(max_history as nat) { lemma_kept_in_all_wf(old(self).thermo@, recs@, max_history as nat); },
                RecordBatch::Valve(recs) => if old(self).wf(max_history as nat) { lemma_kept_in_all_wf(old(self).valve@, recs@, max_history as nat); },
                RecordBatch::Voc(recs) => if old(self).wf(max_history as nat) { lemma_kept_in_all_wf(old(self).voc@, recs@, max_history as nat); },
            }
        }
    }
}

} // verus!
