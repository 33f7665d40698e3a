//! The fixed set of broker signals that one telemetry sample fans out to.
use vstd::prelude::*;

verus! {

/// A signal path of the broker that receives one value of each sample.
#[derive(Clone, Copy, Debug, PartialEq, Eq, Structural)]
pub enum Signal {
    ExteriorHumidity,
    Speed,
    Latitude,
    Longitude,
    Altitude,
}

/// Scalar type a signal is published as.
#[derive(Clone, Copy, Debug, PartialEq, Eq, Structural)]
pub enum ValueKind {
    /// Single precision.
    Float,
    /// Double precision.
    Double,
}

impl Signal {
    pub open spec fn path_spec(self) -> Seq<char> {
        match self {
            Signal::ExteriorHumidity => "Vehicle.Exterior.Humidity"@,
            Signal::Speed => "Vehicle.Speed"@,
            Signal::Latitude => "Vehicle.CurrentLocation.Latitude"@,
            Signal::Longitude => "Vehicle.CurrentLocation.Longitude"@,
            Signal::Altitude => "Vehicle.CurrentLocation.Altitude"@,
        }
    }

    pub open spec fn kind_spec(self) -> ValueKind {
        match self {
            Signal::ExteriorHumidity | Signal::Speed => ValueKind::Float,
            _ => ValueKind::Double,
        }
    }

    /// Path of the signal in the broker's vehicle signal tree.
    pub fn path(&self) -> (r: &'static str)
        ensures
            r@ == self.path_spec(),
    {
        match self {
            Signal::ExteriorHumidity => "Vehicle.Exterior.Humidity",
            Signal::Speed => "Vehicle.Speed",
            Signal::Latitude => "Vehicle.CurrentLocation.Latitude",
            Signal::Longitude => "Vehicle.CurrentLocation.Longitude",
            Signal::Altitude => "Vehicle.CurrentLocation.Altitude",
        }
    }

    /// Humidity and speed go out in single precision, the position in double.
    pub fn kind(&self) -> (r: ValueKind)
        ensures
            r == self.kind_spec(),
    {
        match self {
            Signal::ExteriorHumidity | Signal::Speed => ValueKind::Float,
            _ => ValueKind::Double,
        }
    }
}

/// The signals one sample is published to, one publish operation each.
pub open spec fn fanout_spec() -> Seq<Signal> {
    seq![
        Signal::ExteriorHumidity,
        Signal::Speed,
        Signal::Latitude,
        Signal::Longitude,
        Signal::Altitude,
    ]
}

/// The signals of one fan-out, in the order the publish operations are
/// started (which says nothing of the order they complete in).
pub fn fanout_signals() -> (r: Vec<Signal>)
    ensures
        r@ == fanout_spec(),
{
    vec![
        Signal::ExteriorHumidity,
        Signal::Speed,
        Signal::Latitude,
        Signal::Longitude,
        Signal::Altitude,
    ]
}

/// A fan-out covers every signal, and each one exactly once.
pub proof fn lemma_fanout_each_signal_once(sig: Signal)
    ensures
        fanout_spec().contains(sig),
        fanout_spec().no_duplicates(),
        fanout_spec().len() == 5,
{
    let f = fanout_spec();
    match sig {
        Signal::ExteriorHumidity => assert(f[0] == sig),
        Signal::Speed => assert(f[1] == sig),
        Signal::Latitude => assert(f[2] == sig),
        Signal::Longitude => assert(f[3] == sig),
        Signal::Altitude => assert(f[4] == sig),
    }
}

} // verus!
