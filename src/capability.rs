use vstd::prelude::*;
use vstd::string::StringExecFns;

verus! {

/// The closed set of reading kinds a sensor can produce.
///
/// The wire form of each tag is its lowercase name.
#[derive(Debug, Clone, Copy, PartialEq, Eq, Structural)]
pub enum SensorCapability {
    Accelerometer,
    Anemometer,
    Cloudcover,
    Fire,
    Gas,
    Gps,
    Gyroscope,
    Image,
    Magnetometer,
    Orientation,
    Person,
    Power,
    Smoke,
    Thermometer,
    Valve,
    Voc,
}

/// A payload type that belongs to one capability.
pub trait CapabilityProvider {
    fn capability() -> SensorCapability;
}

impl SensorCapability {
    /// The wire name of the capability.
    pub open spec fn spec_name(self) -> Seq<char> {
        match self {
            SensorCapability::Accelerometer => "accelerometer"@,
            SensorCapability::Anemometer => "anemometer"@,
            SensorCapability::Cloudcover => "cloudcover"@,
            SensorCapability::Fire => "fire"@,
            SensorCapability::Gas => "gas"@,
            SensorCapability::Gps => "gps"@,
            SensorCapability::Gyroscope => "gyroscope"@,
            SensorCapability::Image => "image"@,
            SensorCapability::Magnetometer => "magnetometer"@,
            SensorCapability::Orientation => "orientation"@,
            SensorCapability::Person => "person"@,
            SensorCapability::Power => "power"@,
            SensorCapability::Smoke => "smoke"@,
            SensorCapability::Thermometer => "thermometer"@,
            SensorCapability::Valve => "valve"@,
            SensorCapability::Voc => "voc"@,
        }
    }

    /// The capability whose wire name is `s`, if any.
    pub open spec fn spec_from_name(s: Seq<char>) -> Option<SensorCapability> {
        if exists|c: SensorCapability| c.spec_name() == s {
            Some(choose|c: SensorCapability| c.spec_name() == s)
        } else {
            None
        }
    }

    /// All capabilities, in declaration order.
    pub open spec fn spec_all() -> Seq<SensorCapability> {
        seq![
            SensorCapability::Accelerometer,
            SensorCapability::Anemometer,
            SensorCapability::Cloudcover,
            SensorCapability::Fire,
            SensorCapability::Gas,
            SensorCapability::Gps,
            SensorCapability::Gyroscope,
            SensorCapability::Image,
            SensorCapability::Magnetometer,
            SensorCapability::Orientation,
            SensorCapability::Person,
            SensorCapability::Power,
            SensorCapability::Smoke,
            SensorCapability::Thermometer,
            SensorCapability::Valve,
            SensorCapability::Voc,
        ]
    }

    pub fn name(&self) -> (r: &'static str)
        ensures
            r@ == self.spec_name(),
    {
        match self {
            SensorCapability::Accelerometer => "accelerometer",
            SensorCapability::Anemometer => "anemometer",
            SensorCapability::Cloudcover => "cloudcover",
            SensorCapability::Fire => "fire",
            SensorCapability::Gas => "gas",
            SensorCapability::Gps => "gps",
            SensorCapability::Gyroscope => "gyroscope",
            SensorCapability::Image => "image",
            SensorCapability::Magnetometer => "magnetometer",
            SensorCapability::Orientation => "orientation",
            SensorCapability::Person => "person",
            SensorCapability::Power => "power",
            SensorCapability::Smoke => "smoke",
            SensorCapability::Thermometer => "thermometer",
            SensorCapability::Valve => "valve",
            SensorCapability::Voc => "voc",
        }
    }

    /// The capability whose wire name is `s`.
    pub fn from_name(s: &String) -> (r: Option<SensorCapability>)
        ensures
            r == Self::spec_from_name(s@),
    {
        proof { lemma_all_names_revealed(); }
        if *s == String::from_str("accelerometer") {
            proof { lemma_name_round_trip(SensorCapability::Accelerometer); }
            Some(SensorCapability::Accelerometer)
        } else if *s == String::from_str("anemometer") {
            proof { lemma_name_round_trip(SensorCapability::Anemometer); }
            Some(SensorCapability::Anemometer)
        } else if *s == String::from_str("cloudcover") {
            proof { lemma_name_round_trip(SensorCapability::Cloudcover); }
            Some(SensorCapability::Cloudcover)
        } else if *s == String::from_str("fire") {
            proof { lemma_name_round_trip(SensorCapability::Fire); }
            Some(SensorCapability::Fire)
        } else if *s == String::from_str("gas") {
            proof { lemma_name_round_trip(SensorCapability::Gas); }
            Some(SensorCapability::Gas)
        } else if *s == String::from_str("gps") {
            proof { lemma_name_round_trip(SensorCapability::Gps); }
            Some(SensorCapability::Gps)
        } else if *s == String::from_str("gyroscope") {
            proof { lemma_name_round_trip(SensorCapability::Gyroscope); }
            Some(SensorCapability::Gyroscope)
        } else if *s == String::from_str("image") {
            proof { lemma_name_round_trip(SensorCapability::Image); }
            Some(SensorCapability::Image)
        } else if *s == String::from_str("magnetometer") {
            proof { lemma_name_round_trip(SensorCapability::Magnetometer); }
            Some(SensorCapability::Magnetometer)
        } else if *s == String::from_str("orientation") {
            proof { lemma_name_round_trip(SensorCapability::Orientation); }
            Some(SensorCapability::Orientation)
        } else if *s == String::from_str("person") {
            proof { lemma_name_round_trip(SensorCapability::Person); }
            Some(SensorCapability::Person)
        } else if *s == String::from_str("power") {
            proof { lemma_name_round_trip(SensorCapability::Power); }
            Some(SensorCapability::Power)
        } else if *s == String::from_str("smoke") {
            proof { lemma_name_round_trip(SensorCapability::Smoke); }
            Some(SensorCapability::Smoke)
        } else if *s == String::from_str("thermometer") {
            proof { lemma_name_round_trip(SensorCapability::Thermometer); }
            Some(SensorCapability::Thermometer)
        } else if *s == String::from_str("valve") {
            proof { lemma_name_round_trip(SensorCapability::Valve); }
            Some(SensorCapability::Valve)
        } else if *s == String::from_str("voc") {
            proof { lemma_name_round_trip(SensorCapability::Voc); }
            Some(SensorCapability::Voc)
        } else {
            proof {
                assert forall|c: SensorCapability| c.spec_name() != s@ by {
                    match c {
                        SensorCapability::Accelerometer => {},
                        SensorCapability::Anemometer => {},
                        SensorCapability::Cloudcover => {},
                        SensorCapability::Fire => {},
                        SensorCapability::Gas => {},
                        SensorCapability::Gps => {},
                        SensorCapability::Gyroscope => {},
                        SensorCapability::Image => {},
                        SensorCapability::Magnetometer => {},
                        SensorCapability::Orientation => {},
                        SensorCapability::Person => {},
                        SensorCapability::Power => {},
                        SensorCapability::Smoke => {},
                        SensorCapability::Thermometer => {},
                        SensorCapability::Valve => {},
                        SensorCapability::Voc => {},
                    }
                }
            }
            None
        }
    }

    pub fn all() -> (r: Vec<SensorCapability>)
        ensures
            r@ == Self::spec_all(),
    {
        let r = vec![
            SensorCapability::Accelerometer,
            SensorCapability::Anemometer,
            SensorCapability::Cloudcover,
            SensorCapability::Fire,
            SensorCapability::Gas,
            SensorCapability::Gps,
            SensorCapability::Gyroscope,
            SensorCapability::Image,
            SensorCapability::Magnetometer,
            SensorCapability::Orientation,
            SensorCapability::Person,
            SensorCapability::Power,
            SensorCapability::Smoke,
            SensorCapability::Thermometer,
            SensorCapability::Valve,
            SensorCapability::Voc,
        ];
        assert(r@ =~= Self::spec_all());
        r
    }
}

pub proof fn lemma_all_names_revealed()
    ensures
        "accelerometer"@ == SensorCapability::Accelerometer.spec_name(),
        "anemometer"@ == SensorCapability::Anemometer.spec_name(),
        "cloudcover"@ == SensorCapability::Cloudcover.spec_name(),
        "fire"@ == SensorCapability::Fire.spec_name(),
        "gas"@ == SensorCapability::Gas.spec_name(),
        "gps"@ == SensorCapability::Gps.spec_name(),
        "gyroscope"@ == SensorCapability::Gyroscope.spec_name(),
        "image"@ == SensorCapability::Image.spec_name(),
        "magnetometer"@ == SensorCapability::Magnetometer.spec_name(),
        "orientation"@ == SensorCapability::Orientation.spec_name(),
        "person"@ == SensorCapability::Person.spec_name(),
        "power"@ == SensorCapability::Power.spec_name(),
        "smoke"@ == SensorCapability::Smoke.spec_name(),
        "thermometer"@ == SensorCapability::Thermometer.spec_name(),
        "valve"@ == SensorCapability::Valve.spec_name(),
        "voc"@ == SensorCapability::Voc.spec_name(),
{
}

/// Distinct capabilities have distinct wire names.
pub proof fn lemma_names_distinct(a: SensorCapability, b: SensorCapability)
    ensures
        a.spec_name() == b.spec_name() ==> a == b,
{
    reveal_strlit("accelerometer");
    reveal_strlit("anemometer");
    reveal_strlit("cloudcover");
    reveal_strlit("fire");
    reveal_strlit("gas");
    reveal_strlit("gps");
    reveal_strlit("gyroscope");
    reveal_strlit("image");
    reveal_strlit("magnetometer");
    reveal_strlit("orientation");
    reveal_strlit("person");
    reveal_strlit("power");
    reveal_strlit("smoke");
    reveal_strlit("thermometer");
    reveal_strlit("valve");
    reveal_strlit("voc");
    if a.spec_name() == b.spec_name() && a != b {
        assert(a.spec_name().len() == b.spec_name().len());
        assert(a.spec_name()[0] == b.spec_name()[0]);
        assert(a.spec_name()[1] == b.spec_name()[1]);
        assert(a.spec_name()[2] == b.spec_name()[2]);
    }
}

/// Reading a capability back from its wire name gives the capability.
pub proof fn lemma_name_round_trip(c: SensorCapability)
    ensures
        SensorCapability::spec_from_name(c.spec_name()) == Some(c),
{
    let d = choose|d: SensorCapability| d.spec_name() == c.spec_name();
    lemma_names_distinct(c, d);
}

} // verus!
