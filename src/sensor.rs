//! The latest reading of an asynchronous sensor feed: a single-slot,
//! last-write-wins register. The value type is left to the caller (for a
//! position fix, a latitude, longitude and altitude triple). Sharing between
//! the listener and the tick loop wraps it in one mutual-exclusion guard, so
//! each write and each read is one whole-value operation.
use vstd::prelude::*;

verus! {

/// Effect of one callback of the sensor feed: a decoded reading replaces the
/// value, a malformed one (`None`) is dropped.
pub open spec fn apply_reading<T>(current: T, reading: Option<T>) -> T {
    match reading {
        Some(v) => v,
        None => current,
    }
}

/// Value after a series of callbacks, in order.
pub open spec fn after_readings<T>(init: T, readings: Seq<Option<T>>) -> T
    decreases readings.len(),
{
    if readings.len() == 0 {
        init
    } else {
        apply_reading(after_readings(init, readings.drop_last()), readings.last())
    }
}

/// Register holding the most recent sensor value.
pub struct SensorState<T> {
    latest: T,
}

impl<T: Copy> SensorState<T> {
    pub closed spec fn view(&self) -> T {
        self.latest
    }

    /// A register holding `initial` (the zero reading) until the first write.
    pub fn new(initial: T) -> (r: Self)
        ensures
            r.view() == initial,
    {
        SensorState { latest: initial }
    }

    /// Replaces the whole value.
    pub fn write(&mut self, value: T)
        ensures
            final(self).view() == value,
    {
        self.latest = value;
    }

    /// The most recently written value, or the initial one if none was.
    pub fn read(&self) -> (r: T)
        ensures
            r == self.view(),
    {
        self.latest
    }

    /// Listener entry: stores a decoded reading, drops a malformed one.
    /// Never fails.
    pub fn on_reading(&mut self, reading: Option<T>)
        ensures
            final(self).view() == apply_reading(old(self).view(), reading),
    {
        match reading {
            Some(v) => self.write(v),
            None => {},
        }
    }
}

/// A read right after a write returns exactly the written value.
pub proof fn lemma_read_after_write<T>(current: T, value: T)
    ensures
        apply_reading(current, Some(value)) == value,
{
}

/// After any series of callbacks the register holds one whole value: the
/// last decoded reading if there was one, else the initial value. Values of
/// different readings are never mixed.
pub proof fn lemma_last_write_wins<T>(init: T, readings: Seq<Option<T>>)
    ensures
        (forall|i: int| 0 <= i < readings.len() ==> (#[trigger] readings[i]) is None)
            ==> after_readings(init, readings) == init,
        forall|j: int|
            0 <= j < readings.len() && (#[trigger] readings[j]) is Some && (forall|k: int|
                j < k < readings.len() ==> (#[trigger] readings[k]) is None) ==> after_readings(
                init,
                readings,
            ) == readings[j]->0,
    decreases readings.len(),
{
    if readings.len() > 0 {
        let prev = readings.drop_last();
        lemma_last_write_wins(init, prev);
        let n = readings.len() - 1;
        assert(readings.last() == readings[n]);
        assert forall|i: int| 0 <= i < prev.len() implies prev[i] == readings[i] by {}
        if readings[n] is None {
            assert forall|j: int|
                0 <= j < readings.len() && (#[trigger] readings[j]) is Some && (forall|k: int|
                    j < k < readings.len() ==> (#[trigger] readings[k]) is None) implies after_readings(
                init,
                readings,
            ) == readings[j]->0 by {
                assert(j < n);
                assert forall|k: int| j < k < prev.len() implies (#[trigger] prev[k]) is None by {
                    assert(readings[k] is None);
                }
                assert(prev[j] == readings[j]);
            }
        }
    }
}

} // verus!
