//! Per-device readings: the slot array that the acquisition engine fills and
//! that publishers read, with a sentinel for slots never measured.
use vstd::prelude::*;
use vstd::string::StringExecFns;

verus! {

/// Temperature of a slot that holds no measurement, in milli-degrees
/// Celsius (-1000 °C, below any real reading).
pub const NO_TEMP: i32 = -1_000_000;

/// One reading: the bus it came from, the device address, and the
/// temperature in milli-degrees Celsius (`NO_TEMP` when none).
#[derive(Debug)]
pub struct TempData {
    pub iopin: String,
    pub sensor: String,
    pub value: i32,
}

impl TempData {
    /// The placeholder that a slot holds before its first measurement.
    pub fn unmeasured() -> (r: TempData)
        ensures
            r.iopin@ == "N/A"@,
            r.sensor@ == "N/A"@,
            r.value == NO_TEMP,
    {
        TempData { iopin: String::from_str("N/A"), sensor: String::from_str("N/A"), value: NO_TEMP }
    }

    /// Whether the reading holds a measurement.
    pub open spec fn spec_is_valid(&self) -> bool {
        self.value > NO_TEMP
    }

    /// Whether the reading holds a measurement.
    pub fn is_valid(&self) -> (r: bool)
        ensures
            r == self.spec_is_valid(),
    {
        self.value > NO_TEMP
    }
}

impl Clone for TempData {
    fn clone(&self) -> (r: TempData)
        ensures
            r == *self,
    {
        TempData { iopin: self.iopin.clone(), sensor: self.sensor.clone(), value: self.value }
    }
}

/// Whether a reading holds a measurement.
pub open spec fn valid_reading(t: TempData) -> bool {
    t.value > NO_TEMP
}

/// The readings of all discovered devices, in discovery order.
#[derive(Debug)]
pub struct TempValues {
    pub temperatures: Vec<TempData>,
}

impl TempValues {
    pub fn new() -> (r: TempValues)
        ensures
            r.temperatures@.len() == 0,
    {
        TempValues { temperatures: Vec::new() }
    }

    pub fn with_capacity(c: usize) -> (r: TempValues)
        ensures
            r.temperatures@.len() == 0,
    {
        TempValues { temperatures: Vec::with_capacity(c) }
    }

    /// `n` slots, none measured yet.
    pub fn unmeasured(n: usize) -> (r: TempValues)
        ensures
            r.temperatures@.len() == n,
            forall|i: int|
                0 <= i < n ==> {
                    &&& #[trigger] r.temperatures@[i].value == NO_TEMP
                    &&& r.temperatures@[i].iopin@ == "N/A"@
                    &&& r.temperatures@[i].sensor@ == "N/A"@
                },
    {
        let mut v: Vec<TempData> = Vec::with_capacity(n);
        let mut i: usize = 0;
        while i < n
            invariant
                i <= n,
                v@.len() == i,
                forall|j: int|
                    0 <= j < i ==> {
                        &&& #[trigger] v@[j].value == NO_TEMP
                        &&& v@[j].iopin@ == "N/A"@
                        &&& v@[j].sensor@ == "N/A"@
                    },
            decreases n - i,
        {
            v.push(TempData::unmeasured());
            i += 1;
        }
        TempValues { temperatures: v }
    }

    /// The readings that hold a measurement, in order; placeholders are
    /// left out.
    pub fn valid(&self) -> (r: TempValues)
        ensures
            r.temperatures@ == self.temperatures@.filter(|t: TempData| valid_reading(t)),
    {
        let ghost f = |t: TempData| valid_reading(t);
        let mut out: Vec<TempData> = Vec::with_capacity(self.temperatures.len());
        let mut i: usize = 0;
        while i < self.temperatures.len()
            invariant
                i <= self.temperatures@.len(),
                f == (|t: TempData| valid_reading(t)),
                out@ == self.temperatures@.subrange(0, i as int).filter(f),
            decreases self.temperatures@.len() - i,
        {
            let t = &self.temperatures[i];
            proof {
                let pre = self.temperatures@.subrange(0, i as int);
                let next = self.temperatures@.subrange(0, i + 1);
                assert(next.drop_last() =~= pre);
                reveal(Seq::filter);
                assert(next.filter(f) == if f(next.last()) {
                    pre.filter(f).push(next.last())
                } else {
                    pre.filter(f)
                });
            }
            if t.is_valid() {
                out.push(t.clone());
            }
            i += 1;
        }
        assert(self.temperatures@.subrange(0, self.temperatures@.len() as int)
            =~= self.temperatures@);
        TempValues { temperatures: out }
    }
}

impl Default for TempValues {
    fn default() -> (r: TempValues)
        ensures
            r.temperatures@.len() == 0,
    {
        TempValues::new()
    }
}

} // verus!
