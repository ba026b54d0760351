use vstd::prelude::*;

use crate::stats::{latest_of, memory_utilization, newest, utilization_hundredths, zero_stat, GpuData, Stat};
use crate::temperature::{other_unit, shown_in, TemperatureUnit};

verus! {

/// How often the driver is polled, in milliseconds.
pub const POLL_INTERVAL_MS: u64 = 500;

/// How many readings per device are kept at start.
pub const DEFAULT_DATAPOINTS: usize = 10;

/// The fewest readings per device that can be kept.
pub const MIN_DATAPOINTS: usize = 1;

/// The most readings per device that can be kept.
pub const MAX_DATAPOINTS: usize = 100;

/// `n` brought into the range of allowed history lengths.
pub open spec fn clamp_datapoints(n: int) -> int {
    if n < MIN_DATAPOINTS as int {
        MIN_DATAPOINTS as int
    } else if n > MAX_DATAPOINTS as int {
        MAX_DATAPOINTS as int
    } else {
        n
    }
}

/// Everything the display remembers between frames: the devices with their
/// readings, and the user's choices.
pub struct GpuMonitor {
    /// One entry per device, in the driver's order.
    pub gpu_data: Vec<GpuData>,
    /// The device whose readings are shown.
    pub device_idx: usize,
    /// The fan picked for the selected device.
    pub fan_idx: usize,
    /// How many readings of the selected device are kept.
    pub number_of_datapoints: usize,
    /// The unit temperatures are shown in.
    pub unit: TemperatureUnit,
    /// The latest temperature, as shown in `unit`.
    pub special_temp: u64,
    /// Whether the memory bar is animated (it is while hovered).
    pub animate_memory_bar: bool,
    /// Whether the thermometer bar is animated.
    pub animate_thermometer_bar: bool,
}

/// `after` holds the same devices as `before`, each with only its newest
/// `limit` readings.
pub open spec fn trimmed_to(after: Seq<GpuData>, before: Seq<GpuData>, limit: int) -> bool {
    &&& after.len() == before.len()
    &&& forall|i: int|
        0 <= i < before.len() ==> {
            &&& (#[trigger] after[i]).name == before[i].name
            &&& after[i].memory_total == before[i].memory_total
            &&& after[i].num_fans == before[i].num_fans
            &&& after[i].history@ == newest(before[i].history@, limit)
        }
}

/// Keeps only the newest `limit` readings of every device.
fn trim_all(devices: &mut Vec<GpuData>, limit: usize)
    ensures
        trimmed_to(final(devices)@, old(devices)@, limit as int),
{
    let mut idx: usize = 0;
    while idx < devices.len()
        invariant
            idx <= devices@.len() == old(devices)@.len(),
            forall|i: int|
                0 <= i < devices@.len() ==> {
                    &&& (#[trigger] devices@[i]).name == old(devices)@[i].name
                    &&& devices@[i].memory_total == old(devices)@[i].memory_total
                    &&& devices@[i].num_fans == old(devices)@[i].num_fans
                    &&& devices@[i].history@ == if i < idx {
                        newest(old(devices)@[i].history@, limit as int)
                    } else {
                        old(devices)@[i].history@
                    }
                },
        decreases devices@.len() - idx,
    {
        devices[idx].trim_history(limit);
        idx = idx + 1;
    }
}

impl GpuMonitor {
    /// The selected device exists whenever there is any device, the history
    /// length lies in its allowed range, and no device holds more readings
    /// than that.
    pub open spec fn wf(&self) -> bool {
        &&& (self.gpu_data@.len() == 0 ==> self.device_idx == 0)
        &&& (self.gpu_data@.len() > 0 ==> self.device_idx < self.gpu_data@.len())
        &&& MIN_DATAPOINTS <= self.number_of_datapoints <= MAX_DATAPOINTS
        &&& forall|i: int|
            0 <= i < self.gpu_data@.len() ==> (#[trigger] self.gpu_data@[i]).history@.len()
                <= self.number_of_datapoints
    }

    /// The latest reading of the selected device; all zero when there is
    /// no device or no reading yet.
    pub open spec fn spec_last_stat(&self) -> Stat {
        if self.gpu_data@.len() == 0 {
            zero_stat()
        } else {
            latest_of(self.gpu_data@[self.device_idx as int].history@)
        }
    }

    /// `self` and `other` differ at most in the devices' histories: the
    /// devices' names, memory and fans, and the user's choices, are the same.
    pub open spec fn same_but_history(&self, other: &GpuMonitor) -> bool {
        &&& self.gpu_data@.len() == other.gpu_data@.len()
        &&& forall|i: int|
            0 <= i < self.gpu_data@.len() ==> {
                &&& (#[trigger] self.gpu_data@[i]).name == other.gpu_data@[i].name
                &&& self.gpu_data@[i].memory_total == other.gpu_data@[i].memory_total
                &&& self.gpu_data@[i].num_fans == other.gpu_data@[i].num_fans
            }
        &&& self.device_idx == other.device_idx
        &&& self.fan_idx == other.fan_idx
        &&& self.number_of_datapoints == other.number_of_datapoints
        &&& self.unit == other.unit
        &&& self.special_temp == other.special_temp
        &&& self.animate_memory_bar == other.animate_memory_bar
        &&& self.animate_thermometer_bar == other.animate_thermometer_bar
    }

    /// A fresh state over `gpu_data`: the first device and fan selected,
    /// ten readings kept (older ones are dropped), temperatures in Celsius,
    /// no animation.
    pub fn new(gpu_data: Vec<GpuData>) -> (r: GpuMonitor)
        ensures
            r.wf(),
            trimmed_to(r.gpu_data@, gpu_data@, DEFAULT_DATAPOINTS as int),
            r.device_idx == 0,
            r.fan_idx == 0,
            r.number_of_datapoints == DEFAULT_DATAPOINTS,
            r.unit == TemperatureUnit::Celsius,
            r.special_temp == 0,
            !r.animate_memory_bar,
            !r.animate_thermometer_bar,
    {
        let mut gpu_data = gpu_data;
        trim_all(&mut gpu_data, DEFAULT_DATAPOINTS);
        GpuMonitor {
            gpu_data,
            device_idx: 0,
            fan_idx: 0,
            number_of_datapoints: DEFAULT_DATAPOINTS,
            unit: TemperatureUnit::Celsius,
            special_temp: 0,
            animate_memory_bar: false,
            animate_thermometer_bar: false,
        }
    }

    /// Takes in one poll's readings: the `i`-th reading is appended to the
    /// history of the `i`-th device, whose oldest reading is dropped when it
    /// would otherwise hold more than `number_of_datapoints`.
    pub fn receive(&mut self, stats: Vec<Stat>)
        requires
            old(self).wf(),
            stats@.len() <= old(self).gpu_data@.len(),
        ensures
            final(self).wf(),
            final(self).same_but_history(old(self)),
            forall|i: int|
                0 <= i < old(self).gpu_data@.len() ==> (#[trigger] final(self).gpu_data@[i]).history@
                    == if i < stats@.len() {
                    newest(
                        old(self).gpu_data@[i].history@.push(stats@[i]),
                        old(self).number_of_datapoints as int,
                    )
                } else {
                    old(self).gpu_data@[i].history@
                },
    {
        let limit = self.number_of_datapoints;
        let mut idx: usize = 0;
        while idx < stats.len()
            invariant
                idx <= stats@.len() <= old(self).gpu_data@.len(),
                limit == old(self).number_of_datapoints,
                self.wf(),
                self.same_but_history(old(self)),
                forall|i: int|
                    0 <= i < old(self).gpu_data@.len() ==> (#[trigger] self.gpu_data@[i]).history@
                        == if i < idx {
                        newest(old(self).gpu_data@[i].history@.push(stats@[i]), limit as int)
                    } else {
                        old(self).gpu_data@[i].history@
                    },
            decreases stats@.len() - idx,
        {
            self.gpu_data[idx].record(stats[idx]);
            self.gpu_data[idx].trim_history(limit);
            idx = idx + 1;
        }
    }

    /// The latest reading of the selected device, all zero when there is
    /// none.
    pub fn last_stat(&self) -> (r: Stat)
        requires
            self.wf(),
        ensures
            r == self.spec_last_stat(),
    {
        if self.gpu_data.len() == 0 {
            Stat::default()
        } else {
            self.gpu_data[self.device_idx].last_stat()
        }
    }

    /// Memory utilisation of the selected device's latest reading, in
    /// hundredths of a percent; `None` when there is no device or its total
    /// memory is zero.
    pub fn memory_utilization(&self) -> (r: Option<u128>)
        requires
            self.wf(),
        ensures
            r is None <==> self.gpu_data@.len() == 0 || self.gpu_data@[self.device_idx as int].memory_total
                == 0,
            r is Some ==> r == Some(
                utilization_hundredths(
                    self.spec_last_stat().memory_used as int,
                    self.gpu_data@[self.device_idx as int].memory_total as int,
                ) as u128,
            ),
    {
        if self.gpu_data.len() == 0 {
            None
        } else {
            let last = self.last_stat();
            memory_utilization(last.memory_used, self.gpu_data[self.device_idx].memory_total)
        }
    }

    /// Switches the unit temperatures are shown in.
    pub fn toggle_unit(&mut self)
        requires
            old(self).wf(),
        ensures
            final(self).wf(),
            final(self).unit == other_unit(old(self).unit),
            final(self).gpu_data == old(self).gpu_data,
            final(self).device_idx == old(self).device_idx,
            final(self).fan_idx == old(self).fan_idx,
            final(self).number_of_datapoints == old(self).number_of_datapoints,
            final(self).special_temp == old(self).special_temp,
            final(self).animate_memory_bar == old(self).animate_memory_bar,
            final(self).animate_thermometer_bar == old(self).animate_thermometer_bar,
    {
        self.unit = self.unit.toggled();
    }

    /// Sets the shown temperature to the selected device's latest
    /// temperature in the current unit.
    pub fn refresh_special_temp(&mut self)
        requires
            old(self).wf(),
        ensures
            final(self).wf(),
            final(self).special_temp as int == shown_in(
                old(self).spec_last_stat().temperature as int,
                old(self).unit,
            ),
            final(self).gpu_data == old(self).gpu_data,
            final(self).device_idx == old(self).device_idx,
            final(self).fan_idx == old(self).fan_idx,
            final(self).number_of_datapoints == old(self).number_of_datapoints,
            final(self).unit == old(self).unit,
            final(self).animate_memory_bar == old(self).animate_memory_bar,
            final(self).animate_thermometer_bar == old(self).animate_thermometer_bar,
    {
        let last = self.last_stat();
        self.special_temp = self.unit.show(last.temperature);
    }

    /// Selects device `idx`.
    pub fn select_device(&mut self, idx: usize)
        requires
            old(self).wf(),
            idx < old(self).gpu_data@.len(),
        ensures
            final(self).wf(),
            final(self).device_idx == idx,
            final(self).gpu_data == old(self).gpu_data,
            final(self).fan_idx == old(self).fan_idx,
            final(self).number_of_datapoints == old(self).number_of_datapoints,
            final(self).unit == old(self).unit,
            final(self).special_temp == old(self).special_temp,
            final(self).animate_memory_bar == old(self).animate_memory_bar,
            final(self).animate_thermometer_bar == old(self).animate_thermometer_bar,
    {
        self.device_idx = idx;
    }

    /// Selects fan `idx` of the selected device.
    pub fn select_fan(&mut self, idx: usize)
        requires
            old(self).wf(),
            old(self).gpu_data@.len() > 0,
            idx < old(self).gpu_data@[old(self).device_idx as int].num_fans,
        ensures
            final(self).wf(),
            final(self).fan_idx == idx,
            final(self).gpu_data == old(self).gpu_data,
            final(self).device_idx == old(self).device_idx,
            final(self).number_of_datapoints == old(self).number_of_datapoints,
            final(self).unit == old(self).unit,
            final(self).special_temp == old(self).special_temp,
            final(self).animate_memory_bar == old(self).animate_memory_bar,
            final(self).animate_thermometer_bar == old(self).animate_thermometer_bar,
    {
        self.fan_idx = idx;
    }

    /// Sets how many readings are kept, brought into the allowed range, and
    /// drops every device's readings beyond that many, oldest first.
    pub fn set_number_of_datapoints(&mut self, n: usize)
        requires
            old(self).wf(),
        ensures
            final(self).wf(),
            final(self).number_of_datapoints as int == clamp_datapoints(n as int),
            trimmed_to(final(self).gpu_data@, old(self).gpu_data@, clamp_datapoints(n as int)),
            final(self).device_idx == old(self).device_idx,
            final(self).fan_idx == old(self).fan_idx,
            final(self).unit == old(self).unit,
            final(self).special_temp == old(self).special_temp,
            final(self).animate_memory_bar == old(self).animate_memory_bar,
            final(self).animate_thermometer_bar == old(self).animate_thermometer_bar,
    {
        let limit: usize = if n < MIN_DATAPOINTS {
            MIN_DATAPOINTS
        } else if n > MAX_DATAPOINTS {
            MAX_DATAPOINTS
        } else {
            n
        };
        self.number_of_datapoints = limit;
        trim_all(&mut self.gpu_data, limit);
    }
}

} // verus!
