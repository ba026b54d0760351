use vstd::prelude::*;

verus! {

/// Bytes in one mebibyte; the driver reports memory in bytes, the display in MB.
pub const BYTES_PER_MIB: u64 = 1048576;

/// `bytes` in whole mebibytes, rounded down.
pub open spec fn mib_of(bytes: int) -> int {
    bytes / (BYTES_PER_MIB as int)
}

/// Converts a byte count to whole mebibytes, rounding down.
pub fn bytes_to_mib(bytes: u64) -> (r: u64)
    ensures
        r as int == mib_of(bytes as int),
{
    bytes / 1024 / 1024
}

/// One reading of a device's changing telemetry.
#[derive(Clone, Copy, Debug, PartialEq, Eq, Structural)]
pub struct Stat {
    /// Memory in use, in MB.
    pub memory_used: u64,
    /// Core temperature, in degrees Celsius.
    pub temperature: u32,
    /// Encoder utilisation, in percent.
    pub utilization: u32,
    /// Speed of the first fan, in percent of its maximum.
    pub fan_speed: u32,
}

/// The reading shown before any has arrived: every field zero.
pub open spec fn zero_stat() -> Stat {
    Stat { memory_used: 0, temperature: 0, utilization: 0, fan_speed: 0 }
}

impl Default for Stat {
    fn default() -> (r: Stat)
        ensures
            r == zero_stat(),
    {
        Stat { memory_used: 0, temperature: 0, utilization: 0, fan_speed: 0 }
    }
}

impl Stat {
    /// Builds a reading from the driver's raw values: memory in bytes is
    /// converted to MB, and a fan speed that could not be read counts as 0.
    pub fn from_readings(
        memory_used_bytes: u64,
        temperature: u32,
        utilization: u32,
        fan_speed: Option<u32>,
    ) -> (r: Stat)
        ensures
            r.memory_used as int == mib_of(memory_used_bytes as int),
            r.temperature == temperature,
            r.utilization == utilization,
            r.fan_speed == match fan_speed {
                Some(s) => s,
                None => 0,
            },
    {
        let fan: u32 = match fan_speed {
            Some(s) => s,
            None => 0,
        };
        Stat {
            memory_used: bytes_to_mib(memory_used_bytes),
            temperature,
            utilization,
            fan_speed: fan,
        }
    }
}

/// Memory utilisation in hundredths of a percent, `used / total * 100`
/// rounded to the nearest hundredth, halves rounding up.
pub open spec fn utilization_hundredths(used: int, total: int) -> int {
    (2 * 10000 * used + total) / (2 * total)
}

/// Memory utilisation of `used` out of `total`, in hundredths of a percent,
/// rounded to the nearest; `None` when `total` is zero.
pub fn memory_utilization(used: u64, total: u64) -> (r: Option<u128>)
    ensures
        total == 0 <==> r is None,
        total > 0 ==> r == Some(utilization_hundredths(used as int, total as int) as u128),
{
    if total == 0 {
        None
    } else {
        let u: u128 = used as u128;
        let t: u128 = total as u128;
        assert(2 * 10000 * u + t <= u128::MAX) by (nonlinear_arith)
            requires
                u <= u64::MAX,
                t <= u64::MAX,
        ;
        let q: u128 = (2 * 10000 * u + t) / (2 * t);
        assert(0 <= (2 * 10000 * u + t) / (2 * t) <= 2 * 10000 * u + t) by (nonlinear_arith)
            requires
                t > 0,
                u >= 0,
        ;
        Some(q)
    }
}

/// A device's fixed description together with the readings kept for it.
#[derive(Clone, Debug)]
pub struct GpuData {
    /// The device's name, as the driver reports it.
    pub name: String,
    /// Total memory, in MB.
    pub memory_total: u64,
    /// Readings, oldest first.
    pub history: Vec<Stat>,
    /// Number of fans the device has.
    pub num_fans: u32,
}

impl GpuData {
    /// A device with no readings yet; memory total is given in bytes and
    /// kept in MB.
    pub fn new(name: String, memory_total_bytes: u64, num_fans: u32) -> (r: GpuData)
        ensures
            r.name@ == name@,
            r.memory_total as int == mib_of(memory_total_bytes as int),
            r.history@ == Seq::<Stat>::empty(),
            r.num_fans == num_fans,
    {
        GpuData {
            name,
            memory_total: bytes_to_mib(memory_total_bytes),
            history: Vec::new(),
            num_fans,
        }
    }

    /// The latest reading, or the all-zero one when none has arrived.
    pub fn last_stat(&self) -> (r: Stat)
        ensures
            r == latest_of(self.history@),
    {
        if self.history.len() == 0 {
            Stat::default()
        } else {
            self.history[self.history.len() - 1]
        }
    }

    /// Appends a reading as the newest.
    pub fn record(&mut self, stat: Stat)
        ensures
            final(self).history@ == old(self).history@.push(stat),
            final(self).name == old(self).name,
            final(self).memory_total == old(self).memory_total,
            final(self).num_fans == old(self).num_fans,
    {
        self.history.push(stat);
    }

    /// Drops the oldest readings until at most `limit` are left.
    pub fn trim_history(&mut self, limit: usize)
        ensures
            final(self).history@ == newest(old(self).history@, limit as int),
            final(self).name == old(self).name,
            final(self).memory_total == old(self).memory_total,
            final(self).num_fans == old(self).num_fans,
    {
        while self.history.len() > limit
            invariant
                self.history@ == newest(old(self).history@, self.history@.len() as int),
                self.history@.len() >= limit || self.history@ == old(self).history@,
                self.name == old(self).name,
                self.memory_total == old(self).memory_total,
                self.num_fans == old(self).num_fans,
            decreases self.history.len(),
        {
            self.history.remove(0);
        }
    }
}

/// The latest of `history`, or the all-zero reading when it is empty.
pub open spec fn latest_of(history: Seq<Stat>) -> Stat {
    if history.len() == 0 {
        zero_stat()
    } else {
        history.last()
    }
}

/// The newest `n` entries of `history` (all of it when it is shorter).
pub open spec fn newest(history: Seq<Stat>, n: int) -> Seq<Stat> {
    if history.len() <= n {
        history
    } else {
        history.subrange(history.len() - n, history.len() as int)
    }
}

} // verus!
