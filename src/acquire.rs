//! The sensor acquisition engine. Buses are scanned once at boot; each
//! polling cycle then walks every channel's devices in discovery order,
//! retrying a failed read up to the configured budget. A device that
//! exhausts its budget is left with its previous reading and the rest of its
//! channel is skipped for this cycle. Every device owns a fixed slot, so a
//! skipped channel never shifts the slots of the channels after it.
//!
//! The engine makes no I/O: it hands out which device to read next and takes
//! back what the read gave.
use vstd::prelude::*;
use vstd::pervasive::VecAdditionalExecFns;
use crate::ident::{address_label, device_label};
use crate::readings::{TempData, TempValues, NO_TEMP};

verus! {

/// A bus and the addresses that its boot scan found, in scan order.
#[derive(Debug)]
pub struct SensorChannel {
    pub name: String,
    pub ids: Vec<u64>,
}

impl SensorChannel {
    /// Whether the scan found a device on this bus.
    pub fn is_found(&self) -> (r: bool)
        ensures
            r == (self.ids@.len() > 0),
    {
        self.ids.len() > 0
    }
}

/// Where a cycle stands: the device being read, the failed attempts on it so
/// far, and the first slot of its channel.
#[derive(Debug, Clone, Copy, PartialEq, Eq, Structural)]
pub struct Cursor {
    pub active: bool,
    pub channel: usize,
    pub device: usize,
    pub failures: u32,
    pub base: usize,
}

/// What the engine asks for next.
#[derive(Debug, Clone, Copy, PartialEq, Eq, Structural)]
pub enum Step {
    /// Read device `device` of channel `channel`, at address `addr`.
    Read { channel: usize, device: usize, addr: u64 },
    /// The cycle is over.
    Finished,
}

/// Number of devices on the channels before channel `c`.
pub open spec fn devices_before(chs: Seq<SensorChannel>, c: int) -> int
    decreases c,
{
    if c <= 0 {
        0
    } else {
        devices_before(chs, c - 1) + chs[c - 1].ids@.len()
    }
}

/// Number of devices on all channels.
pub open spec fn total_devices(chs: Seq<SensorChannel>) -> int {
    devices_before(chs, chs.len() as int)
}

/// Whether a scan found something on the channel.
pub open spec fn found(ch: SensorChannel) -> bool {
    ch.ids@.len() > 0
}

/// The cursor once the whole channel under it is done or abandoned.
pub open spec fn past_channel(chs: Seq<SensorChannel>, c: Cursor) -> Cursor {
    Cursor {
        active: c.channel + 1 < chs.len(),
        channel: (c.channel + 1) as usize,
        device: 0,
        failures: 0,
        base: (c.base + chs[c.channel as int].ids@.len()) as usize,
    }
}

/// The cursor once the device under it is measured.
pub open spec fn past_device(chs: Seq<SensorChannel>, c: Cursor) -> Cursor {
    if c.device + 1 < chs[c.channel as int].ids@.len() {
        Cursor { device: (c.device + 1) as usize, failures: 0, ..c }
    } else {
        past_channel(chs, c)
    }
}

/// The cursor after a failed read: the same device again while the retry
/// budget lasts, else past the whole channel.
pub open spec fn after_failure(chs: Seq<SensorChannel>, max_retry: u32, c: Cursor) -> Cursor {
    if c.failures < max_retry {
        Cursor { failures: (c.failures + 1) as u32, ..c }
    } else {
        past_channel(chs, c)
    }
}

/// The request that a cursor stands for.
pub open spec fn step_at(chs: Seq<SensorChannel>, c: Cursor) -> Step {
    if c.active {
        Step::Read {
            channel: c.channel,
            device: c.device,
            addr: chs[c.channel as int].ids@[c.device as int],
        }
    } else {
        Step::Finished
    }
}

/// The cursor at the start of a cycle.
pub open spec fn cycle_start(chs: Seq<SensorChannel>) -> Cursor {
    Cursor { active: chs.len() > 0, channel: 0, device: 0, failures: 0, base: 0 }
}

/// Whether a cursor designates a device of the channels, with a failure count
/// within the budget.
pub open spec fn cursor_ok(chs: Seq<SensorChannel>, max_retry: u32, c: Cursor) -> bool {
    c.active ==> {
        &&& c.channel < chs.len()
        &&& c.device < chs[c.channel as int].ids@.len()
        &&& c.failures <= max_retry
        &&& c.base == devices_before(chs, c.channel as int)
    }
}

/// The slot that the device under a cursor owns.
pub open spec fn slot_of(c: Cursor) -> int {
    c.base + c.device
}

proof fn lemma_devices_before_mono(chs: Seq<SensorChannel>, a: int, b: int)
    requires
        0 <= a <= b <= chs.len(),
    ensures
        devices_before(chs, a) <= devices_before(chs, b),
    decreases b - a,
{
    if a < b {
        lemma_devices_before_mono(chs, a, b - 1);
    }
}

/// The cursor after `k` failed reads in a row.
pub open spec fn after_failures(chs: Seq<SensorChannel>, max_retry: u32, c: Cursor, k: nat) -> Cursor
    decreases k,
{
    if k == 0 {
        c
    } else {
        after_failure(chs, max_retry, after_failures(chs, max_retry, c, (k - 1) as nat))
    }
}

/// With a budget of `max_retry` retries, a device is read again after each
/// of its first `max_retry` failures; its failure on the last of the
/// `max_retry + 1` attempts abandons its channel: the cursor moves to the
/// first device of the next channel, whose slots start right after those of
/// the abandoned one. A failed read never changes the readings (see
/// `Acquisition::record`), so the device and the rest of its channel keep
/// their previous values.
pub proof fn lemma_exhausted_retries_abandon_channel(
    chs: Seq<SensorChannel>,
    max_retry: u32,
    c: Cursor,
    k: nat,
)
    requires
        chs.len() <= usize::MAX,
        total_devices(chs) <= usize::MAX,
        cursor_ok(chs, max_retry, c),
        c.active,
        c.failures == 0,
        k <= max_retry + 1,
    ensures
        k <= max_retry ==> after_failures(chs, max_retry, c, k) == (Cursor {
            failures: k as u32,
            ..c
        }),
        k == max_retry + 1 ==> after_failures(chs, max_retry, c, k) == past_channel(chs, c),
        past_channel(chs, c).channel == c.channel + 1,
        past_channel(chs, c).device == 0,
        past_channel(chs, c).base == devices_before(chs, c.channel + 1),
    decreases k,
{
    lemma_devices_before_mono(chs, c.channel + 1, chs.len() as int);
    if k > 0 {
        lemma_exhausted_retries_abandon_channel(chs, max_retry, c, (k - 1) as nat);
    }
}

/// The acquisition engine: the channels found at boot, one reading slot per
/// device, the retry budget, the freshly-updated flag and the cycle cursor.
#[derive(Debug)]
pub struct Acquisition {
    pub channels: Vec<SensorChannel>,
    pub data: TempValues,
    pub max_retry: u32,
    pub fresh: bool,
    pub cursor: Cursor,
}

impl Acquisition {
    /// Every channel holds a device, there is one slot per device, and the
    /// cursor designates a device or is idle.
    pub open spec fn wf(&self) -> bool {
        &&& forall|i: int| 0 <= i < self.channels@.len() ==> found(#[trigger] self.channels@[i])
        &&& self.data.temperatures@.len() == total_devices(self.channels@)
        &&& cursor_ok(self.channels@, self.max_retry, self.cursor)
    }

    /// The engine after the boot scan: channels where nothing was found are
    /// dropped, the others kept in order, and every device gets an
    /// unmeasured slot, for the life of the process.
    pub fn new(scanned: Vec<SensorChannel>, max_retry: u32) -> (r: Acquisition)
        ensures
            r.wf(),
            r.channels@ == scanned@.filter(|ch: SensorChannel| found(ch)),
            forall|i: int|
                0 <= i < r.data.temperatures@.len() ==> {
                    &&& (#[trigger] r.data.temperatures@[i]).value == NO_TEMP
                    &&& r.data.temperatures@[i].iopin@ == "N/A"@
                    &&& r.data.temperatures@[i].sensor@ == "N/A"@
                },
            r.max_retry == max_retry,
            !r.fresh,
            !r.cursor.active,
    {
        let ghost f = |ch: SensorChannel| found(ch);
        let ghost orig = scanned@;
        let n0 = scanned.len();
        let mut rest = scanned;
        let mut kept: Vec<SensorChannel> = Vec::new();
        let mut taken: usize = 0;
        while rest.len() > 0
            invariant
                f == (|ch: SensorChannel| found(ch)),
                taken <= orig.len(),
                orig.len() == n0,
                rest@ == orig.subrange(taken as int, orig.len() as int),
                kept@ == orig.subrange(0, taken as int).filter(f),
            decreases rest@.len(),
        {
            assert(taken < orig.len());
            let ch = rest.remove(0);
            proof {
                let pre = orig.subrange(0, taken as int);
                let next = orig.subrange(0, taken + 1);
                assert(next.drop_last() =~= pre);
                assert(next.last() == ch);
                reveal(Seq::filter);
                assert(next.filter(f) == if f(ch) {
                    pre.filter(f).push(ch)
                } else {
                    pre.filter(f)
                });
            }
            if ch.is_found() {
                kept.push(ch);
            }
            taken += 1;
            assert(rest@ =~= orig.subrange(taken as int, orig.len() as int));
        }
        assert(orig.subrange(0, taken as int) =~= orig);
        proof {
            assert forall|i: int| 0 <= i < kept@.len() implies found(#[trigger] kept@[i]) by {
                orig.lemma_filter_pred(f, i);
            }
        }
        let mut temps: Vec<TempData> = Vec::new();
        let mut c: usize = 0;
        while c < kept.len()
            invariant
                c <= kept@.len(),
                temps@.len() == devices_before(kept@, c as int),
                forall|i: int|
                    0 <= i < temps@.len() ==> {
                        &&& (#[trigger] temps@[i]).value == NO_TEMP
                        &&& temps@[i].iopin@ == "N/A"@
                        &&& temps@[i].sensor@ == "N/A"@
                    },
            decreases kept@.len() - c,
        {
            let n = kept[c].ids.len();
            let mut d: usize = 0;
            while d < n
                invariant
                    c < kept@.len(),
                    n == kept@[c as int].ids@.len(),
                    d <= n,
                    temps@.len() == devices_before(kept@, c as int) + d,
                    forall|i: int|
                        0 <= i < temps@.len() ==> {
                            &&& (#[trigger] temps@[i]).value == NO_TEMP
                            &&& temps@[i].iopin@ == "N/A"@
                            &&& temps@[i].sensor@ == "N/A"@
                        },
                decreases n - d,
            {
                temps.push(TempData::unmeasured());
                d += 1;
            }
            c += 1;
        }
        Acquisition {
            channels: kept,
            data: TempValues { temperatures: temps },
            max_retry,
            fresh: false,
            cursor: Cursor { active: false, channel: 0, device: 0, failures: 0, base: 0 },
        }
    }

    /// The request that the cursor stands for.
    fn current(&self) -> (r: Step)
        requires
            self.wf(),
        ensures
            r == step_at(self.channels@, self.cursor),
    {
        if self.cursor.active {
            let addr = self.channels[self.cursor.channel].ids[self.cursor.device];
            Step::Read { channel: self.cursor.channel, device: self.cursor.device, addr }
        } else {
            Step::Finished
        }
    }

    /// Moves the cursor past the channel under it; marks the data fresh when
    /// that ends the cycle.
    fn skip_channel(&mut self)
        requires
            old(self).wf(),
            old(self).cursor.active,
        ensures
            final(self).wf(),
            final(self).cursor == past_channel(old(self).channels@, old(self).cursor),
            final(self).fresh == (old(self).fresh || !final(self).cursor.active),
            final(self).channels == old(self).channels,
            final(self).data == old(self).data,
            final(self).max_retry == old(self).max_retry,
    {
        let ghost chs = self.channels@;
        let c = self.cursor.channel;
        proof {
            lemma_devices_before_mono(chs, c + 1, chs.len() as int);
        }
        let total = self.data.temperatures.len();
        let nch = self.channels.len();
        assert(self.cursor.base + chs[c as int].ids@.len() == devices_before(chs, c + 1));
        let next_base = self.cursor.base + self.channels[c].ids.len();
        let active = c + 1 < nch;
        self.cursor = Cursor { active, channel: c + 1, device: 0, failures: 0, base: next_base };
        if !active {
            self.fresh = true;
        }
    }

    /// Starts a polling cycle at the first device of the first channel.
    pub fn begin_cycle(&mut self) -> (r: Step)
        requires
            old(self).wf(),
        ensures
            final(self).wf(),
            final(self).cursor == cycle_start(old(self).channels@),
            r == step_at(final(self).channels@, final(self).cursor),
            final(self).fresh == (old(self).fresh || old(self).channels@.len() == 0),
            final(self).channels == old(self).channels,
            final(self).data == old(self).data,
            final(self).max_retry == old(self).max_retry,
    {
        let active = self.channels.len() > 0;
        self.cursor = Cursor { active, channel: 0, device: 0, failures: 0, base: 0 };
        if !active {
            self.fresh = true;
        }
        self.current()
    }

    /// Takes the outcome of the read that the last step asked for: a
    /// temperature in milli-degrees Celsius, or `None` when the read failed.
    /// A measurement overwrites the device's slot and moves on; a failure is
    /// retried while the budget lasts, and then abandons the rest of the
    /// channel, leaving its slots as they were.
    pub fn record(&mut self, reading: Option<i32>) -> (r: Step)
        requires
            old(self).wf(),
            old(self).cursor.active,
        ensures
            final(self).wf(),
            final(self).channels == old(self).channels,
            final(self).max_retry == old(self).max_retry,
            final(self).data.temperatures@.len() == old(self).data.temperatures@.len(),
            r == step_at(final(self).channels@, final(self).cursor),
            final(self).fresh == (old(self).fresh || !final(self).cursor.active),
            match reading {
                Some(v) => {
                    let c = old(self).cursor;
                    let ch = old(self).channels@[c.channel as int];
                    let t = final(self).data.temperatures@[slot_of(c)];
                    &&& final(self).cursor == past_device(old(self).channels@, c)
                    &&& t.value == v
                    &&& t.iopin@ == ch.name@
                    &&& t.sensor@ == address_label(ch.ids@[c.device as int])
                    &&& forall|j: int|
                        0 <= j < old(self).data.temperatures@.len() && j != slot_of(c)
                            ==> #[trigger] final(self).data.temperatures@[j]
                            == old(self).data.temperatures@[j]
                },
                None => {
                    &&& final(self).cursor == after_failure(
                        old(self).channels@,
                        old(self).max_retry,
                        old(self).cursor,
                    )
                    &&& final(self).data == old(self).data
                },
            },
    {
        let ghost chs = self.channels@;
        let c = self.cursor;
        match reading {
            Some(v) => {
                proof {
                    lemma_devices_before_mono(chs, c.channel + 1, chs.len() as int);
                }
                let total = self.data.temperatures.len();
                assert(c.base + chs[c.channel as int].ids@.len() == devices_before(
                    chs,
                    c.channel + 1,
                ));
                let slot = c.base + c.device;
                let ch = &self.channels[c.channel];
                let t = TempData {
                    iopin: ch.name.clone(),
                    sensor: device_label(ch.ids[c.device]),
                    value: v,
                };
                self.data.temperatures.set(slot, t);
                if c.device + 1 < self.channels[c.channel].ids.len() {
                    self.cursor = Cursor { device: c.device + 1, failures: 0, ..c };
                } else {
                    self.skip_channel();
                }
            },
            None => {
                if c.failures < self.max_retry {
                    self.cursor = Cursor { failures: c.failures + 1, ..c };
                } else {
                    self.skip_channel();
                }
            },
        }
        self.current()
    }

    /// Reads and clears the freshly-updated flag.
    pub fn take_fresh(&mut self) -> (r: bool)
        ensures
            r == old(self).fresh,
            !final(self).fresh,
            final(self).channels == old(self).channels,
            final(self).data == old(self).data,
            final(self).max_retry == old(self).max_retry,
            final(self).cursor == old(self).cursor,
    {
        let r = self.fresh;
        self.fresh = false;
        r
    }

    /// The readings that hold a measurement.
    pub fn valid_readings(&self) -> (r: TempValues)
        ensures
            r.temperatures@ == self.data.temperatures@.filter(
                |t: TempData| crate::readings::valid_reading(t),
            ),
    {
        self.data.valid()
    }
}

} // verus!
