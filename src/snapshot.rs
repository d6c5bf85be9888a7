use vstd::prelude::*;
use std::collections::VecDeque;
use crate::capability::SensorCapability;
use crate::codec::{encode_record, encodes_fields, format_time, ids_view, time_text};
use crate::history::history_wf;
use crate::json::{Json, JsonItems, JsonMembers};
use crate::records::{ImageData, RecordId, SensorRecord, ValveData, VocData};
use crate::sentinel::{PayloadJson, PayloadTypes, Sentinel};
use crate::store::SentinelStore;
use crate::text::{decimal_string, spec_decimal};
use vstd::string::StringExecFns;

verus! {

/// A copy of a list of record references.
fn copy_ids(v: &Vec<RecordId>) -> (r: Vec<RecordId>)
    ensures
        ids_view(r@) == ids_view(v@),
{
    let mut r: Vec<RecordId> = Vec::new();
    let mut i: usize = 0;
    while i < v.len()
        invariant
            i <= v@.len(),
            r@.len() == i,
            forall|k: int| 0 <= k < i ==> #[trigger] r@[k].id@ == v@[k].id@,
        decreases v@.len() - i,
    {
        r.push(RecordId { id: v[i].id.clone() });
        i = i + 1;
    }
    assert(ids_view(r@) =~= ids_view(v@));
    r
}

/// `v` is the object of `r`: every field, and the payload in its JSON form
/// under the name of `cap`.
pub open spec fn record_encoded<T: PayloadJson>(r: SensorRecord<T>, cap: SensorCapability, v: Json) -> bool {
    &&& encodes_fields(r, cap, v)
    &&& v->Object_0.spec_get(cap.spec_name()) matches Some(p) && r.data.is_json_of(p)
}

/// The object of a record with its payload written as JSON.
pub fn record_json<T: PayloadJson>(r: &SensorRecord<T>, cap: SensorCapability) -> (res: Option<Json>)
    ensures
        match res {
            Some(v) => record_encoded(*r, cap, v),
            None => time_text(r.time_recorded) is None,
        },
{
    let rec = SensorRecord {
        id: r.id.clone(),
        time_recorded: r.time_recorded,
        sensor_no: r.sensor_no,
        device_id: r.device_id.clone(),
        evidences: copy_ids(&r.evidences),
        claims: copy_ids(&r.claims),
        data: r.data.payload_json(),
    };
    encode_record(rec, cap)
}

/// `v` is the array of the objects of the records of `s`, in order.
pub open spec fn history_encoded<T: PayloadJson>(s: Seq<SensorRecord<T>>, cap: SensorCapability, v: Json) -> bool {
    &&& v is Array
    &&& v->Array_0.spec_seq().len() == s.len()
    &&& forall|k: int| 0 <= k < s.len() ==> record_encoded(s[k], cap, #[trigger] v->Array_0.spec_seq()[k])
}

/// Every record time of `s` can be written.
pub open spec fn times_writable<T>(s: Seq<SensorRecord<T>>) -> bool {
    forall|k: int| 0 <= k < s.len() ==> (#[trigger] time_text(s[k].time_recorded)) is Some
}

/// The array of the objects of a history's records, in history order.
pub fn history_json<T: PayloadJson>(h: &VecDeque<SensorRecord<T>>, cap: SensorCapability) -> (res: Option<Json>)
    ensures
        match res {
            Some(v) => history_encoded(h@, cap, v),
            None => !times_writable(h@),
        },
{
    let mut items = JsonItems::Nil;
    let mut i: usize = h.len();
    while i > 0
        invariant
            i <= h@.len(),
            items.spec_seq().len() == h@.len() - i,
            forall|k: int| 0 <= k < h@.len() - i ==> record_encoded(h@[i + k], cap, #[trigger] items.spec_seq()[k]),
        decreases i,
    {
        i = i - 1;
        let j = match record_json(&h[i], cap) {
            Some(j) => j,
            None => return None,
        };
        let ghost rest = items.spec_seq();
        items = JsonItems::Cons(j, Box::new(items));
        assert(items.spec_seq() =~= seq![j] + rest);
        assert forall|k: int| 0 <= k < h@.len() - i implies record_encoded(h@[i + k], cap, #[trigger] items.spec_seq()[k]) by {
            if k > 0 {
                assert(items.spec_seq()[k] == rest[k - 1]);
            }
        }
    }
    let v = Json::Array(Box::new(items));
    assert(v->Array_0.spec_seq() == items.spec_seq());
    Some(v)
}

/// In the array of a well-formed history, each record's object carries the
/// text of its time, and those times do not increase along the array.
pub proof fn lemma_history_array_newest_first<T: PayloadJson>(
    s: Seq<SensorRecord<T>>,
    cap: SensorCapability,
    v: Json,
    max_history: nat,
)
    requires
        history_wf(s, max_history),
        history_encoded(s, cap, v),
    ensures
        forall|k: int|
            0 <= k < s.len() ==> crate::codec::str_member(
                *(#[trigger] v->Array_0.spec_seq()[k])->Object_0,
                "timeRecorded"@,
            ) == time_text(s[k].time_recorded),
        forall|k: int| 0 <= k < s.len() - 1 ==> #[trigger] s[k].time_recorded >= s[k + 1].time_recorded,
{
    assert forall|k: int| 0 <= k < s.len() - 1 implies #[trigger] s[k].time_recorded >= s[k + 1].time_recorded by {
        assert(s[k].time_recorded >= s[k + 1].time_recorded);
    }
}

/// The members of an object, from a list of names and values.
fn members_from(v: Vec<(String, Json)>) -> (r: JsonMembers)
    ensures
        r.spec_pairs() == v@.map_values(|p: (String, Json)| (p.0@, p.1)),
{
    let ghost all = v@.map_values(|p: (String, Json)| (p.0@, p.1));
    let mut v = v;
    let mut r = JsonMembers::Nil;
    while v.len() > 0
        invariant
            v@.len() <= all.len(),
            all == v@.map_values(|p: (String, Json)| (p.0@, p.1)) + r.spec_pairs(),
        decreases v@.len(),
    {
        let ghost before = v@;
        let (k, j) = v.pop().unwrap();
        let ghost rest = r.spec_pairs();
        r = JsonMembers::Cons(k, j, Box::new(r));
        assert(before.map_values(|p: (String, Json)| (p.0@, p.1)) =~= v@.map_values(
            |p: (String, Json)| (p.0@, p.1),
        ).push((k@, j)));
        assert(r.spec_pairs() =~= seq![(k@, j)] + rest);
    }
    assert(v@.map_values(|p: (String, Json)| (p.0@, p.1)) =~= Seq::<(Seq<char>, Json)>::empty());
    assert(all =~= r.spec_pairs());
    r
}

impl<P: PayloadTypes> Sentinel<P> {
    /// The snapshot member names, in order.
    pub open spec fn snapshot_keys() -> Seq<Seq<char>> {
        seq![
            "deviceId"@,
            "deviceName"@,
            "date"@,
            "accel"@,
            "anemo"@,
            "cloudcover"@,
            "fire"@,
            "gas"@,
            "gps"@,
            "gyro"@,
            "image"@,
            "mag"@,
            "orientation"@,
            "person"@,
            "power"@,
            "smoke"@,
            "thermo"@,
            "valve"@,
            "voc"@,
        ]
    }

    /// Every time of the sentinel can be written.
    pub open spec fn times_writable(&self) -> bool {
        &&& (self.date matches Some(d) ==> time_text(d) is Some)
        &&& times_writable(self.accel@)
        &&& times_writable(self.anemo@)
        &&& times_writable(self.cloudcover@)
        &&& times_writable(self.fire@)
        &&& times_writable(self.gas@)
        &&& times_writable(self.gps@)
        &&& times_writable(self.gyro@)
        &&& times_writable(self.image@)
        &&& times_writable(self.mag@)
        &&& times_writable(self.orientation@)
        &&& times_writable(self.person@)
        &&& times_writable(self.power@)
        &&& times_writable(self.smoke@)
        &&& times_writable(self.thermo@)
        &&& times_writable(self.valve@)
        &&& times_writable(self.voc@)
    }

    /// `v` is the snapshot of the sentinel: an object with the device id, the
    /// name, the date and each capability history, newest first.
    pub open spec fn snapshot_of(&self, v: Json) -> bool {
        &&& v is Object
        &&& v->Object_0.spec_pairs().map_values(|p: (Seq<char>, Json)| p.0) == Self::snapshot_keys()
        &&& v->Object_0.spec_pairs()[0].1 matches Json::Str(id) && id@ == self.device_id@
        &&& v->Object_0.spec_pairs()[1].1 matches Json::Str(name) && name@ == self.device_name@
        &&& match self.date {
            None => v->Object_0.spec_pairs()[2].1 is Null,
            Some(d) => v->Object_0.spec_pairs()[2].1 matches Json::Str(t) && time_text(d) == Some(t@),
        }
        &&& history_encoded(self.accel@, SensorCapability::Accelerometer, v->Object_0.spec_pairs()[3].1)
        &&& history_encoded(self.anemo@, SensorCapability::Anemometer, v->Object_0.spec_pairs()[4].1)
        &&& history_encoded(self.cloudcover@, SensorCapability::Cloudcover, v->Object_0.spec_pairs()[5].1)
        &&& history_encoded(self.fire@, SensorCapability::Fire, v->Object_0.spec_pairs()[6].1)
        &&& history_encoded(self.gas@, SensorCapability::Gas, v->Object_0.spec_pairs()[7].1)
        &&& history_encoded(self.gps@, SensorCapability::Gps, v->Object_0.spec_pairs()[8].1)
        &&& history_encoded(self.gyro@, SensorCapability::Gyroscope, v->Object_0.spec_pairs()[9].1)
        &&& history_encoded(self.image@, SensorCapability::Image, v->Object_0.spec_pairs()[10].1)
        &&& history_encoded(self.mag@, SensorCapability::Magnetometer, v->Object_0.spec_pairs()[11].1)
        &&& history_encoded(self.orientation@, SensorCapability::Orientation, v->Object_0.spec_pairs()[12].1)
        &&& history_encoded(self.person@, SensorCapability::Person, v->Object_0.spec_pairs()[13].1)
        &&& history_encoded(self.power@, SensorCapability::Power, v->Object_0.spec_pairs()[14].1)
        &&& history_encoded(self.smoke@, SensorCapability::Smoke, v->Object_0.spec_pairs()[15].1)
        &&& history_encoded(self.thermo@, SensorCapability::Thermometer, v->Object_0.spec_pairs()[16].1)
        &&& history_encoded(self.valve@, SensorCapability::Valve, v->Object_0.spec_pairs()[17].1)
        &&& history_encoded(self.voc@, SensorCapability::Voc, v->Object_0.spec_pairs()[18].1)
    }

    /// The snapshot of the sentinel; `None` if one of its times cannot be written.
    pub fn to_json(&self) -> (res: Option<Json>)
        ensures
            match res {
                Some(v) => self.snapshot_of(v),
                None => !self.times_writable(),
            },
    {
        let mut v: Vec<(String, Json)> = Vec::new();
        v.push((String::from_str("deviceId"), Json::Str(self.device_id.clone())));
        v.push((String::from_str("deviceName"), Json::Str(self.device_name.clone())));
        let date = match self.date {
            None => Json::Null,
            Some(d) => match format_time(d) {
                Some(t) => Json::Str(t),
                None => return None,
            },
        };
        v.push((String::from_str("date"), date));
        match history_json(&self.accel, SensorCapability::Accelerometer) {
            Some(j) => v.push((String::from_str("accel"), j)),
            None => return None,
        }
        match history_json(&self.anemo, SensorCapability::Anemometer) {
            Some(j) => v.push((String::from_str("anemo"), j)),
            None => return None,
        }
        match history_json(&self.cloudcover, SensorCapability::Cloudcover) {
            Some(j) => v.push((String::from_str("cloudcover"), j)),
            None => return None,
        }
        match history_json(&self.fire, SensorCapability::Fire) {
            Some(j) => v.push((String::from_str("fire"), j)),
            None => return None,
        }
        match history_json(&self.gas, SensorCapability::Gas) {
            Some(j) => v.push((String::from_str("gas"), j)),
            None => return None,
        }
        match history_json(&self.gps, SensorCapability::Gps) {
            Some(j) => v.push((String::from_str("gps"), j)),
            None => return None,
        }
        match history_json(&self.gyro, SensorCapability::Gyroscope) {
            Some(j) => v.push((String::from_str("gyro"), j)),
            None => return None,
        }
        match history_json(&self.image, SensorCapability::Image) {
            Some(j) => v.push((String::from_str("image"), j)),
            None => return None,
        }
        match history_json(&self.mag, SensorCapability::Magnetometer) {
            Some(j) => v.push((String::from_str("mag"), j)),
            None => return None,
        }
        match history_json(&self.orientation, SensorCapability::Orientation) {
            Some(j) => v.push((String::from_str("orientation"), j)),
            None => return None,
        }
        match history_json(&self.person, SensorCapability::Person) {
            Some(j) => v.push((String::from_str("person"), j)),
            None => return None,
        }
        match history_json(&self.power, SensorCapability::Power) {
            Some(j) => v.push((String::from_str("power"), j)),
            None => return None,
        }
        match history_json(&self.smoke, SensorCapability::Smoke) {
            Some(j) => v.push((String::from_str("smoke"), j)),
            None => return None,
        }
        match history_json(&self.thermo, SensorCapability::Thermometer) {
            Some(j) => v.push((String::from_str("thermo"), j)),
            None => return None,
        }
        match history_json(&self.valve, SensorCapability::Valve) {
            Some(j) => v.push((String::from_str("valve"), j)),
            None => return None,
        }
        match history_json(&self.voc, SensorCapability::Voc) {
            Some(j) => v.push((String::from_str("voc"), j)),
            None => return None,
        }
        proof {
            reveal_strlit("deviceId");
            reveal_strlit("deviceName");
            reveal_strlit("date");
            reveal_strlit("accel");
            reveal_strlit("anemo");
            reveal_strlit("cloudcover");
            reveal_strlit("fire");
            reveal_strlit("gas");
            reveal_strlit("gps");
            reveal_strlit("gyro");
            reveal_strlit("image");
            reveal_strlit("mag");
            reveal_strlit("orientation");
            reveal_strlit("person");
            reveal_strlit("power");
            reveal_strlit("smoke");
            reveal_strlit("thermo");
            reveal_strlit("valve");
            reveal_strlit("voc");
        }
        let ghost pairs = v@.map_values(|p: (String, Json)| (p.0@, p.1));
        let members = members_from(v);
        let r = Json::Object(Box::new(members));
        assert(r->Object_0.spec_pairs().map_values(|p: (Seq<char>, Json)| p.0) =~= Self::snapshot_keys());
        Some(r)
    }
}

impl<P: PayloadTypes> SentinelStore<P> {
    /// Every time of every sentinel can be written.
    pub open spec fn times_writable(&self) -> bool {
        forall|i: int| 0 <= i < self@.len() ==> (#[trigger] self@[i]).1.times_writable()
    }

    /// `v` is the snapshot of the store: `{"sentinels": [...]}` with one
    /// sentinel snapshot per device, in insertion order.
    pub open spec fn snapshot_of(&self, v: Json) -> bool {
        &&& v is Object
        &&& v->Object_0.spec_pairs().len() == 1
        &&& v->Object_0.spec_pairs()[0].0 == "sentinels"@
        &&& v->Object_0.spec_pairs()[0].1 is Array
        &&& v->Object_0.spec_pairs()[0].1->Array_0.spec_seq().len() == self@.len()
        &&& forall|i: int|
            0 <= i < self@.len() ==> self@[i].1.snapshot_of(
                #[trigger] v->Object_0.spec_pairs()[0].1->Array_0.spec_seq()[i],
            )
    }

    /// The snapshot of the store; `None` if one of its times cannot be written.
    pub fn to_json(&self) -> (res: Option<Json>)
        ensures
            match res {
                Some(v) => self.snapshot_of(v),
                None => !self.times_writable(),
            },
    {
        let sentinels = self.values();
        let mut items = JsonItems::Nil;
        let mut i: usize = sentinels.len();
        while i > 0
            invariant
                i <= sentinels@.len(),
                sentinels@.len() == self@.len(),
                forall|j: int| 0 <= j < sentinels@.len() ==> *#[trigger] sentinels@[j] == self@[j].1,
                items.spec_seq().len() == self@.len() - i,
                forall|k: int| 0 <= k < self@.len() - i ==> self@[i + k].1.snapshot_of(#[trigger] items.spec_seq()[k]),
            decreases i,
        {
            i = i - 1;
            let j = match sentinels[i].to_json() {
                Some(j) => j,
                None => return None,
            };
            let ghost rest = items.spec_seq();
            items = JsonItems::Cons(j, Box::new(items));
            assert(items.spec_seq() =~= seq![j] + rest);
            assert forall|k: int| 0 <= k < self@.len() - i implies self@[i + k].1.snapshot_of(#[trigger] items.spec_seq()[k]) by {
                if k > 0 {
                    assert(items.spec_seq()[k] == rest[k - 1]);
                }
            }
        }
        proof { reveal_strlit("sentinels"); }
        let mut v: Vec<(String, Json)> = Vec::new();
        v.push((String::from_str("sentinels"), Json::Array(Box::new(items))));
        let members = members_from(v);
        Some(Json::Object(Box::new(members)))
    }
}

/// The JSON number text of an `i32`.
pub open spec fn spec_int_text(n: i32) -> Seq<char> {
    if n < 0 {
        seq!['-'] + spec_decimal((-(n as int)) as nat)
    } else {
        spec_decimal(n as nat)
    }
}

fn int_text(n: i32) -> (r: String)
    ensures
        r@ == spec_int_text(n),
{
    if n < 0 {
        let mut s = String::from_str("-");
        let magnitude: u64 = (0i64 - n as i64) as u64;
        let digits = decimal_string(magnitude);
        s.append(digits.as_str());
        proof { reveal_strlit("-"); }
        assert(s@ =~= spec_int_text(n));
        s
    } else {
        decimal_string(n as u64)
    }
}

fn bool_json(b: bool) -> (r: Json)
    ensures
        r == Json::Bool(b),
{
    Json::Bool(b)
}

impl PayloadJson for VocData {
    /// `{"tvoc": .., "e_co2": ..}`
    open spec fn is_json_of(&self, v: Json) -> bool {
        &&& v is Object
        &&& v->Object_0.spec_pairs().len() == 2
        &&& v->Object_0.spec_pairs()[0].0 == "tvoc"@
        &&& v->Object_0.spec_pairs()[0].1 matches Json::Number(t) && t@ == spec_int_text(self.tvoc)
        &&& v->Object_0.spec_pairs()[1].0 == "e_co2"@
        &&& v->Object_0.spec_pairs()[1].1 matches Json::Number(t) && t@ == spec_int_text(self.e_co2)
    }

    fn payload_json(&self) -> (r: Json) {
        let mut v: Vec<(String, Json)> = Vec::new();
        v.push((String::from_str("tvoc"), Json::Number(int_text(self.tvoc))));
        v.push((String::from_str("e_co2"), Json::Number(int_text(self.e_co2))));
        Json::Object(Box::new(members_from(v)))
    }
}

impl PayloadJson for ValveData {
    /// `{"valveOpen": .., "externalLightOn": .., "internalLightOn": ..}`
    open spec fn is_json_of(&self, v: Json) -> bool {
        &&& v is Object
        &&& v->Object_0.spec_pairs() == seq![
            ("valveOpen"@, Json::Bool(self.valve_open)),
            ("externalLightOn"@, Json::Bool(self.external_light_on)),
            ("internalLightOn"@, Json::Bool(self.internal_light_on)),
        ]
    }

    fn payload_json(&self) -> (r: Json) {
        let mut v: Vec<(String, Json)> = Vec::new();
        v.push((String::from_str("valveOpen"), bool_json(self.valve_open)));
        v.push((String::from_str("externalLightOn"), bool_json(self.external_light_on)));
        v.push((String::from_str("internalLightOn"), bool_json(self.internal_light_on)));
        let members = members_from(v);
        assert(members.spec_pairs() =~= seq![
            ("valveOpen"@, Json::Bool(self.valve_open)),
            ("externalLightOn"@, Json::Bool(self.external_light_on)),
            ("internalLightOn"@, Json::Bool(self.internal_light_on)),
        ]);
        Json::Object(Box::new(members))
    }
}

impl PayloadJson for ImageData {
    /// `{"filename": .., "isInfrared": .., "orientationRecord": null or {"id": ..}}`
    open spec fn is_json_of(&self, v: Json) -> bool {
        &&& v is Object
        &&& v->Object_0.spec_pairs().len() == 3
        &&& v->Object_0.spec_pairs()[0].0 == "filename"@
        &&& v->Object_0.spec_pairs()[0].1 matches Json::Str(f) && f@ == self.filename@
        &&& v->Object_0.spec_pairs()[1] == ("isInfrared"@, Json::Bool(self.is_infrared))
        &&& v->Object_0.spec_pairs()[2].0 == "orientationRecord"@
        &&& match self.orientation_record {
            None => v->Object_0.spec_pairs()[2].1 is Null,
            Some(r) => {
                &&& v->Object_0.spec_pairs()[2].1 is Object
                &&& v->Object_0.spec_pairs()[2].1->Object_0.spec_pairs().len() == 1
                &&& v->Object_0.spec_pairs()[2].1->Object_0.spec_pairs()[0].0 == "id"@
                &&& v->Object_0.spec_pairs()[2].1->Object_0.spec_pairs()[0].1 matches Json::Str(i) && i@
                    == r.id@
            },
        }
    }

    fn payload_json(&self) -> (r: Json) {
        let orientation = match &self.orientation_record {
            None => Json::Null,
            Some(r) => {
                let mut m: Vec<(String, Json)> = Vec::new();
                m.push((String::from_str("id"), Json::Str(r.id.clone())));
                Json::Object(Box::new(members_from(m)))
            },
        };
        let mut v: Vec<(String, Json)> = Vec::new();
        v.push((String::from_str("filename"), Json::Str(self.filename.clone())));
        v.push((String::from_str("isInfrared"), bool_json(self.is_infrared)));
        v.push((String::from_str("orientationRecord"), orientation));
        Json::Object(Box::new(members_from(v)))
    }
}

} // verus!
