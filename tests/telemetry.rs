use gpu_stats::color::{color_gradient, Rgb};
use gpu_stats::monitor::{GpuMonitor, DEFAULT_DATAPOINTS, MAX_DATAPOINTS, MIN_DATAPOINTS};
use gpu_stats::stats::{bytes_to_mib, memory_utilization, GpuData, Stat};
use gpu_stats::temperature::{celsius_to_fahrenheit, TemperatureUnit};

fn rgb(red: u8, green: u8, blue: u8) -> Rgb {
    Rgb { red, green, blue }
}

fn stat(memory_used: u64, temperature: u32) -> Stat {
    Stat { memory_used, temperature, utilization: 0, fan_speed: 0 }
}

fn two_devices() -> GpuMonitor {
    GpuMonitor::new(vec![
        GpuData::new("First".to_string(), 8 * 1024 * 1024 * 1024, 2),
        GpuData::new("Second".to_string(), 4 * 1024 * 1024 * 1024, 1),
    ])
}

#[test]
fn gradient_is_blue_when_cold() {
    assert_eq!(color_gradient(0), rgb(88, 0, 211));
}

#[test]
fn gradient_midway() {
    assert_eq!(color_gradient(50), rgb(188, 0, 111));
}

#[test]
fn gradient_red_saturates_at_84() {
    assert_eq!(color_gradient(83), rgb(254, 0, 45));
    assert_eq!(color_gradient(84), rgb(255, 0, 43));
}

#[test]
fn gradient_blue_reaches_zero_at_106() {
    assert_eq!(color_gradient(105), rgb(255, 0, 1));
    assert_eq!(color_gradient(106), rgb(255, 0, 0));
    assert_eq!(color_gradient(u32::MAX), rgb(255, 0, 0));
}

#[test]
fn fahrenheit_of_fixed_points() {
    assert_eq!(celsius_to_fahrenheit(0), 32);
    assert_eq!(celsius_to_fahrenheit(100), 212);
    assert_eq!(celsius_to_fahrenheit(37), 98);
}

#[test]
fn fahrenheit_of_largest_reading() {
    assert_eq!(celsius_to_fahrenheit(u32::MAX), 7730941163);
}

#[test]
fn unit_toggles_and_shows() {
    let c = TemperatureUnit::Celsius;
    assert_eq!(c.toggled(), TemperatureUnit::Fahrenheit);
    assert_eq!(c.toggled().toggled(), c);
    assert_eq!(c.suffix(), "°C");
    assert_eq!(c.toggled().suffix(), "°F");
    assert_eq!(c.show(70), 70);
    assert_eq!(TemperatureUnit::Fahrenheit.show(70), 158);
}

#[test]
fn bytes_round_down_to_mib() {
    assert_eq!(bytes_to_mib(0), 0);
    assert_eq!(bytes_to_mib(1048575), 0);
    assert_eq!(bytes_to_mib(1048576), 1);
    assert_eq!(bytes_to_mib(8 * 1024 * 1024 * 1024), 8192);
}

#[test]
fn utilization_rounds_to_hundredths() {
    assert_eq!(memory_utilization(1, 3), Some(3333));
    assert_eq!(memory_utilization(2, 3), Some(6667));
    assert_eq!(memory_utilization(1, 8), Some(1250));
    assert_eq!(memory_utilization(1, 20000), Some(1));
    assert_eq!(memory_utilization(1, 40000), Some(0));
    assert_eq!(memory_utilization(u64::MAX, u64::MAX), Some(10000));
}

#[test]
fn utilization_of_zero_total_is_none() {
    assert_eq!(memory_utilization(0, 0), None);
    assert_eq!(memory_utilization(5, 0), None);
}

#[test]
fn readings_are_converted() {
    let s = Stat::from_readings(3 * 1048576 + 5, 70, 12, None);
    assert_eq!(s, Stat { memory_used: 3, temperature: 70, utilization: 12, fan_speed: 0 });
    let t = Stat::from_readings(0, 40, 0, Some(55));
    assert_eq!(t.fan_speed, 55);
}

#[test]
fn device_history_keeps_newest() {
    let mut d = GpuData::new("Card".to_string(), 2 * 1048576, 1);
    assert_eq!(d.memory_total, 2);
    assert_eq!(d.last_stat(), Stat::default());
    for i in 0..5u64 {
        d.record(stat(i, 40));
    }
    assert_eq!(d.last_stat(), stat(4, 40));
    d.trim_history(3);
    assert_eq!(d.history, vec![stat(2, 40), stat(3, 40), stat(4, 40)]);
    d.trim_history(10);
    assert_eq!(d.history.len(), 3);
}

#[test]
fn monitor_starts_with_defaults() {
    let m = two_devices();
    assert_eq!(m.device_idx, 0);
    assert_eq!(m.fan_idx, 0);
    assert_eq!(m.number_of_datapoints, DEFAULT_DATAPOINTS);
    assert_eq!(m.unit, TemperatureUnit::Celsius);
    assert_eq!(m.special_temp, 0);
    assert_eq!(m.last_stat(), Stat::default());
    assert_eq!(m.memory_utilization(), Some(0));
}

#[test]
fn monitor_receives_one_reading_per_device() {
    let mut m = two_devices();
    m.receive(vec![stat(2048, 60), stat(1024, 50)]);
    m.receive(vec![stat(4096, 61)]);
    assert_eq!(m.gpu_data[0].history.len(), 2);
    assert_eq!(m.gpu_data[1].history.len(), 1);
    assert_eq!(m.last_stat(), stat(4096, 61));
    assert_eq!(m.memory_utilization(), Some(5000));
    m.select_device(1);
    assert_eq!(m.last_stat(), stat(1024, 50));
    assert_eq!(m.memory_utilization(), Some(2500));
}

#[test]
fn monitor_shows_temperature_in_unit() {
    let mut m = two_devices();
    m.receive(vec![stat(0, 70), stat(0, 30)]);
    m.refresh_special_temp();
    assert_eq!(m.special_temp, 70);
    m.toggle_unit();
    assert_eq!(m.unit, TemperatureUnit::Fahrenheit);
    m.refresh_special_temp();
    assert_eq!(m.special_temp, 158);
    m.toggle_unit();
    m.refresh_special_temp();
    assert_eq!(m.special_temp, 70);
}

#[test]
fn datapoints_are_clamped() {
    let mut m = two_devices();
    m.set_number_of_datapoints(0);
    assert_eq!(m.number_of_datapoints, MIN_DATAPOINTS);
    m.set_number_of_datapoints(500);
    assert_eq!(m.number_of_datapoints, MAX_DATAPOINTS);
    m.set_number_of_datapoints(37);
    assert_eq!(m.number_of_datapoints, 37);
}

#[test]
fn shrinking_datapoints_trims_every_device() {
    let mut m = two_devices();
    for i in 0..4u64 {
        m.receive(vec![stat(i, 40), stat(i, 41)]);
    }
    m.set_number_of_datapoints(2);
    assert_eq!(m.gpu_data[0].history, vec![stat(2, 40), stat(3, 40)]);
    assert_eq!(m.gpu_data[1].history, vec![stat(2, 41), stat(3, 41)]);
}

#[test]
fn receiving_keeps_every_device_bounded() {
    let mut m = two_devices();
    m.set_number_of_datapoints(3);
    for i in 0..6u64 {
        m.receive(vec![stat(i, 40), stat(i, 41)]);
    }
    assert_eq!(m.gpu_data[0].history, vec![stat(3, 40), stat(4, 40), stat(5, 40)]);
    assert_eq!(m.gpu_data[1].history, vec![stat(3, 41), stat(4, 41), stat(5, 41)]);
    m.select_device(1);
    m.receive(vec![stat(6, 40), stat(6, 41)]);
    assert_eq!(m.gpu_data[0].history, vec![stat(4, 40), stat(5, 40), stat(6, 40)]);
    assert_eq!(m.gpu_data[1].history.len(), 3);
}

#[test]
fn new_monitor_drops_readings_beyond_default() {
    let mut d = GpuData::new("Card".to_string(), 0, 0);
    for i in 0..15u64 {
        d.record(stat(i, 40));
    }
    let m = GpuMonitor::new(vec![d]);
    assert_eq!(m.gpu_data[0].history.len(), DEFAULT_DATAPOINTS);
    assert_eq!(m.gpu_data[0].history[0], stat(5, 40));
    assert_eq!(m.last_stat(), stat(14, 40));
}

#[test]
fn fan_selection() {
    let mut m = two_devices();
    m.select_fan(1);
    assert_eq!(m.fan_idx, 1);
}

#[test]
fn monitor_without_devices() {
    let mut m = GpuMonitor::new(vec![]);
    assert_eq!(m.last_stat(), Stat::default());
    assert_eq!(m.memory_utilization(), None);
    m.receive(vec![]);
    m.set_number_of_datapoints(5);
    m.refresh_special_temp();
    assert_eq!(m.special_temp, 0);
}
