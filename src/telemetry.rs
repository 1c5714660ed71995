//! What the telemetry publisher sends after a fresh acquisition cycle: one
//! message per measured device under `{base_topic}/{device}`, and the uptime
//! under `{base_topic}/uptime`.
use vstd::prelude::*;
use vstd::string::StringExecFns;
use crate::readings::{valid_reading, TempData, TempValues};

verus! {

/// A temperature to publish, in milli-degrees Celsius, and its topic.
#[derive(Debug)]
pub struct Publication {
    pub topic: String,
    pub value: i32,
}

/// The topic of a device's readings.
pub open spec fn spec_sensor_topic(base: Seq<char>, sensor: Seq<char>) -> Seq<char> {
    base + "/"@ + sensor
}

/// `{base}/{sensor}`.
pub fn sensor_topic(base: &String, sensor: &String) -> (r: String)
    ensures
        r@ == spec_sensor_topic(base@, sensor@),
{
    let s = base.clone().concat("/");
    s.concat(sensor.as_str())
}

/// `{base}/uptime`.
pub fn uptime_topic(base: &String) -> (r: String)
    ensures
        r@ == base@ + "/uptime"@,
{
    base.clone().concat("/uptime")
}

/// One publication per measured reading, in order; placeholders are never
/// published.
pub fn publications(base: &String, data: &TempValues) -> (r: Vec<Publication>)
    ensures
        ({
            let v = data.temperatures@.filter(|t: TempData| valid_reading(t));
            &&& r@.len() == v.len()
            &&& forall|i: int|
                0 <= i < v.len() ==> {
                    &&& (#[trigger] r@[i]).topic@ == spec_sensor_topic(base@, v[i].sensor@)
                    &&& r@[i].value == v[i].value
                }
        }),
{
    let valid = data.valid();
    let ghost v = valid.temperatures@;
    let mut out: Vec<Publication> = Vec::with_capacity(valid.temperatures.len());
    let mut i: usize = 0;
    while i < valid.temperatures.len()
        invariant
            v == valid.temperatures@,
            i <= v.len(),
            out@.len() == i,
            forall|j: int|
                0 <= j < i ==> {
                    &&& (#[trigger] out@[j]).topic@ == spec_sensor_topic(base@, v[j].sensor@)
                    &&& out@[j].value == v[j].value
                },
        decreases v.len() - i,
    {
        let t = &valid.temperatures[i];
        out.push(Publication { topic: sensor_topic(base, &t.sensor), value: t.value });
        i += 1;
    }
    out
}

} // verus!
