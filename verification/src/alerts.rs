//! Alerts derived from a state sample.
use vstd::prelude::*;

use crate::clock::{has_elapsed, monotonic_elapsed};
use crate::model::{above, at_least, AlertSeverity, Level, Reading, SystemAlert};
use crate::text::push_str;

verus! {

/// A storage volume by its free space in percent (`100 - used`).
#[derive(Debug, Clone)]
pub struct VolumeReading {
    pub name: String,
    pub free_percent: Reading,
}

/// The battery charge in percent and whether mains power is connected.
#[derive(Debug, Clone)]
pub struct BatteryReading {
    pub percent: Reading,
    pub on_ac_power: bool,
}

/// The readings that the threshold alerts are computed from.
#[derive(Debug, Clone)]
pub struct AlertInputs {
    pub cpu_percent: Reading,
    pub memory_percent: Reading,
    pub volumes: Vec<VolumeReading>,
    pub battery: Option<BatteryReading>,
}

/// The `[policy]` thresholds, in percent.
#[derive(Debug, Clone, Copy)]
pub struct AlertThresholds {
    pub notify_on_cpu_above: Level,
    pub notify_on_memory_above: Level,
    pub notify_on_disk_below: Level,
    pub notify_on_battery_below: Level,
}

/// An alert as plain values: severity, code, message.
pub open spec fn alert_view(a: SystemAlert) -> (AlertSeverity, Seq<char>, Seq<char>) {
    (a.severity, a.code@, a.message@)
}

/// The alerts as plain values, in order.
pub open spec fn alerts_view(s: Seq<SystemAlert>) -> Seq<(AlertSeverity, Seq<char>, Seq<char>)> {
    s.map_values(|a: SystemAlert| alert_view(a))
}

/// The low-disk alerts, one per volume at or below the threshold, in volume order.
pub open spec fn disk_alerts(volumes: Seq<VolumeReading>, below: Level) -> Seq<(AlertSeverity, Seq<char>, Seq<char>)>
    decreases volumes.len(),
{
    if volumes.len() == 0 {
        seq![]
    } else {
        let v = volumes.last();
        disk_alerts(volumes.drop_last(), below) + if at_least(below, v.free_percent.level) {
            seq![
                (
                    AlertSeverity::Warning,
                    "disk.low"@,
                    v.name@ + " has only "@ + v.free_percent.text@ + "% free space remaining"@,
                ),
            ]
        } else {
            seq![]
        }
    }
}

/// The threshold alerts of a sample: high CPU, high memory, each low disk, then a low
/// battery that is not charging (the only critical one).
pub open spec fn threshold_alerts(i: AlertInputs, t: AlertThresholds) -> Seq<(AlertSeverity, Seq<char>, Seq<char>)> {
    let cpu = if at_least(i.cpu_percent.level, t.notify_on_cpu_above) {
        seq![(AlertSeverity::Warning, "cpu.high"@, "CPU usage is "@ + i.cpu_percent.text@ + "%"@)]
    } else {
        seq![]
    };
    let memory = if at_least(i.memory_percent.level, t.notify_on_memory_above) {
        seq![(AlertSeverity::Warning, "memory.high"@, "Memory usage is "@ + i.memory_percent.text@ + "%"@)]
    } else {
        seq![]
    };
    let battery = match i.battery {
        Some(b) => if !b.on_ac_power && at_least(t.notify_on_battery_below, b.percent.level) {
            seq![(AlertSeverity::Critical, "battery.low"@, "Battery is at "@ + b.percent.text@ + "%"@)]
        } else {
            seq![]
        },
        None => seq![],
    };
    cpu + memory + disk_alerts(i.volumes@, t.notify_on_disk_below) + battery
}

/// Whether one of the alerts carries `code`.
pub open spec fn has_code(alerts: Seq<(AlertSeverity, Seq<char>, Seq<char>)>, code: Seq<char>) -> bool {
    exists|k: int| 0 <= k < alerts.len() && #[trigger] alerts[k].1 == code
}

proof fn lemma_disk_alert_codes(volumes: Seq<VolumeReading>, below: Level)
    ensures
        forall|k: int|
            #![trigger disk_alerts(volumes, below)[k]]
            0 <= k < disk_alerts(volumes, below).len() ==> disk_alerts(volumes, below)[k].1 == "disk.low"@
                && disk_alerts(volumes, below)[k].0 == AlertSeverity::Warning,
    decreases volumes.len(),
{
    if volumes.len() > 0 {
        let prev = disk_alerts(volumes.drop_last(), below);
        lemma_disk_alert_codes(volumes.drop_last(), below);
        assert forall|k: int| 0 <= k < disk_alerts(volumes, below).len() implies #[trigger] disk_alerts(volumes, below)[k].1
            == "disk.low"@ && disk_alerts(volumes, below)[k].0 == AlertSeverity::Warning by {
            if k < prev.len() {
                assert(disk_alerts(volumes, below)[k] == prev[k]);
            }
        }
    }
}

/// Which threshold alerts a sample raises, by code: `cpu.high` exactly when CPU usage is at
/// or above its threshold, `memory.high` exactly when memory usage is, and `battery.low`
/// exactly when there is a battery, it is not on mains power, and its charge is at or
/// below its threshold (a charge above the threshold never raises it). The battery alert
/// is the only critical one.
pub proof fn law_threshold_alert_codes(i: AlertInputs, t: AlertThresholds)
    ensures
        has_code(threshold_alerts(i, t), "cpu.high"@) <==> at_least(i.cpu_percent.level, t.notify_on_cpu_above),
        has_code(threshold_alerts(i, t), "memory.high"@) <==> at_least(i.memory_percent.level, t.notify_on_memory_above),
        has_code(threshold_alerts(i, t), "battery.low"@) <==> (i.battery matches Some(b) && !b.on_ac_power && at_least(
            t.notify_on_battery_below,
            b.percent.level,
        )),
        forall|k: int|
            0 <= k < threshold_alerts(i, t).len() && #[trigger] threshold_alerts(i, t)[k].0 == AlertSeverity::Critical
                ==> threshold_alerts(i, t)[k].1 == "battery.low"@,
{
    reveal_strlit("cpu.high");
    reveal_strlit("memory.high");
    reveal_strlit("battery.low");
    reveal_strlit("disk.low");
    let a = threshold_alerts(i, t);
    let d = disk_alerts(i.volumes@, t.notify_on_disk_below);
    lemma_disk_alert_codes(i.volumes@, t.notify_on_disk_below);
    let cpu = if at_least(i.cpu_percent.level, t.notify_on_cpu_above) {
        seq![(AlertSeverity::Warning, "cpu.high"@, "CPU usage is "@ + i.cpu_percent.text@ + "%"@)]
    } else {
        seq![]
    };
    let memory = if at_least(i.memory_percent.level, t.notify_on_memory_above) {
        seq![(AlertSeverity::Warning, "memory.high"@, "Memory usage is "@ + i.memory_percent.text@ + "%"@)]
    } else {
        seq![]
    };
    let battery = match i.battery {
        Some(bat) => if !bat.on_ac_power && at_least(t.notify_on_battery_below, bat.percent.level) {
            seq![(AlertSeverity::Critical, "battery.low"@, "Battery is at "@ + bat.percent.text@ + "%"@)]
        } else {
            seq![]
        },
        None => seq![],
    };
    assert(a == cpu + memory + d + battery);
    assert("cpu.high"@[0] == 'c' && "memory.high"@[0] == 'm' && "battery.low"@[0] == 'b' && "disk.low"@[0] == 'd');
    assert("cpu.high"@ != "battery.low"@ && "memory.high"@ != "battery.low"@ && "disk.low"@ != "battery.low"@);
    assert("cpu.high"@ != "memory.high"@ && "disk.low"@ != "memory.high"@ && "disk.low"@ != "cpu.high"@);
    assert forall|k: int| 0 <= k < a.len() implies {
        &&& (a[k].1 == "cpu.high"@ ==> k < cpu.len())
        &&& (a[k].1 == "memory.high"@ ==> cpu.len() <= k < cpu.len() + memory.len())
        &&& (a[k].1 == "battery.low"@ ==> k >= cpu.len() + memory.len() + d.len())
        &&& (a[k].0 == AlertSeverity::Critical ==> k >= cpu.len() + memory.len() + d.len())
    } by {
        if k < cpu.len() {
            assert(a[k] == cpu[k]);
            assert(cpu[k].1 == "cpu.high"@ && cpu[k].0 == AlertSeverity::Warning);
        } else if k < cpu.len() + memory.len() {
            assert(a[k] == memory[k - cpu.len()]);
            assert(memory[k - cpu.len()].1 == "memory.high"@ && memory[k - cpu.len()].0 == AlertSeverity::Warning);
        } else if k < cpu.len() + memory.len() + d.len() {
            let j = k - cpu.len() - memory.len();
            assert(a[k] == d[j]);
            assert(d[j].1 == "disk.low"@ && d[j].0 == AlertSeverity::Warning);
        } else {
            assert(a[k] == battery[k - cpu.len() - memory.len() - d.len()]);
        }
    }
    if at_least(i.cpu_percent.level, t.notify_on_cpu_above) {
        assert(a[0] == cpu[0]);
    }
    if at_least(i.memory_percent.level, t.notify_on_memory_above) {
        assert(a[cpu.len() as int] == memory[0]);
    }
    if battery.len() > 0 {
        assert(a[(cpu.len() + memory.len() + d.len()) as int] == battery[0]);
    }
}

fn alert(severity: AlertSeverity, code: &str, parts: &Vec<&str>) -> (a: SystemAlert)
    ensures
        a.severity == severity,
        a.code@ == code@,
        a.message@ == parts@.fold_left(Seq::<char>::empty(), |acc: Seq<char>, p: &str| acc + p@),
{
    let mut message = String::new();
    let mut k: usize = 0;
    while k < parts.len()
        invariant
            0 <= k <= parts.len(),
            message@ == parts@.take(k as int).fold_left(Seq::<char>::empty(), |acc: Seq<char>, p: &str| acc + p@),
        decreases parts.len() - k,
    {
        push_str(&mut message, parts[k]);
        assert(parts@.take(k + 1).drop_last() =~= parts@.take(k as int));
        k = k + 1;
    }
    assert(parts@.take(parts.len() as int) =~= parts@);
    SystemAlert { severity, code: String::from_str(code), message }
}

/// The threshold alerts of a sample.
pub fn evaluate_alerts(inputs: &AlertInputs, thresholds: &AlertThresholds) -> (r: Vec<SystemAlert>)
    ensures
        alerts_view(r@) == threshold_alerts(*inputs, *thresholds),
{
    let mut alerts: Vec<SystemAlert> = Vec::new();
    let ghost mut expected: Seq<(AlertSeverity, Seq<char>, Seq<char>)> = seq![];

    if inputs.cpu_percent.level.at_least(&thresholds.notify_on_cpu_above) {
        let a = alert(AlertSeverity::Warning, "cpu.high", &vec!["CPU usage is ", inputs.cpu_percent.text.as_str(), "%"]);
        alerts.push(a);
    }
    let ghost cpu_part = alerts_view(alerts@);
    assert(cpu_part =~= (if at_least(inputs.cpu_percent.level, thresholds.notify_on_cpu_above) {
        seq![(AlertSeverity::Warning, "cpu.high"@, "CPU usage is "@ + inputs.cpu_percent.text@ + "%"@)]
    } else {
        seq![]
    })) by {
        reveal_with_fuel(Seq::fold_left, 4);
    }

    if inputs.memory_percent.level.at_least(&thresholds.notify_on_memory_above) {
        let a = alert(AlertSeverity::Warning, "memory.high", &vec!["Memory usage is ", inputs.memory_percent.text.as_str(), "%"]);
        alerts.push(a);
    }
    let ghost mem_part = alerts_view(alerts@);
    assert(mem_part =~= cpu_part + (if at_least(inputs.memory_percent.level, thresholds.notify_on_memory_above) {
        seq![(AlertSeverity::Warning, "memory.high"@, "Memory usage is "@ + inputs.memory_percent.text@ + "%"@)]
    } else {
        seq![]
    })) by {
        reveal_with_fuel(Seq::fold_left, 4);
    }

    let mut k: usize = 0;
    while k < inputs.volumes.len()
        invariant
            0 <= k <= inputs.volumes.len(),
            alerts_view(alerts@) == mem_part + disk_alerts(inputs.volumes@.take(k as int), thresholds.notify_on_disk_below),
        decreases inputs.volumes.len() - k,
    {
        let v = &inputs.volumes[k];
        let ghost before = alerts@;
        let ghost piece: Seq<(AlertSeverity, Seq<char>, Seq<char>)> = if at_least(thresholds.notify_on_disk_below, v.free_percent.level) {
            seq![
                (
                    AlertSeverity::Warning,
                    "disk.low"@,
                    v.name@ + " has only "@ + v.free_percent.text@ + "% free space remaining"@,
                ),
            ]
        } else {
            seq![]
        };
        if thresholds.notify_on_disk_below.at_least(&v.free_percent.level) {
            let a = alert(
                AlertSeverity::Warning,
                "disk.low",
                &vec![v.name.as_str(), " has only ", v.free_percent.text.as_str(), "% free space remaining"],
            );
            alerts.push(a);
            proof {
                reveal_with_fuel(Seq::fold_left, 5);
                assert(alert_view(a) == piece[0]);
                assert(alerts@ == before.push(a));
                assert(alerts_view(alerts@) =~= alerts_view(before) + piece);
            }
        } else {
            assert(alerts_view(alerts@) =~= alerts_view(before) + piece);
        }
        let ghost t1 = inputs.volumes@.take(k + 1);
        assert(t1.drop_last() =~= inputs.volumes@.take(k as int));
        assert(t1.last() == inputs.volumes@[k as int]);
        assert(disk_alerts(t1, thresholds.notify_on_disk_below) == disk_alerts(inputs.volumes@.take(k as int), thresholds.notify_on_disk_below) + piece);
        assert(alerts_view(alerts@) =~= mem_part + disk_alerts(inputs.volumes@.take(k + 1), thresholds.notify_on_disk_below));
        k = k + 1;
    }
    assert(inputs.volumes@.take(inputs.volumes.len() as int) =~= inputs.volumes@);
    let ghost disk_part = alerts_view(alerts@);

    if let Some(b) = &inputs.battery {
        if !b.on_ac_power && thresholds.notify_on_battery_below.at_least(&b.percent.level) {
            let a = alert(AlertSeverity::Critical, "battery.low", &vec!["Battery is at ", b.percent.text.as_str(), "%"]);
            alerts.push(a);
            proof {
                reveal_with_fuel(Seq::fold_left, 4);
            }
        }
    }
    assert(alerts_view(alerts@) =~= threshold_alerts(*inputs, *thresholds));
    alerts
}

} // verus!

verus! {

/// The order key of `90.0f32` (its bit pattern `0x42B4_0000`): GPU usage above it is high.
pub const GPU_HIGH_KEY: i32 = 1119092736;

/// The level above which GPU usage raises an alert.
pub open spec fn gpu_high_level() -> Level {
    Level { key: Some(GPU_HIGH_KEY) }
}

/// The alerts the platform adapter's readings raise: a thermal state other than
/// `Nominal` or `Fair`, then GPU usage above 90 percent.
pub open spec fn platform_alerts(thermal: Option<String>, gpu: Option<Reading>) -> Seq<(AlertSeverity, Seq<char>, Seq<char>)> {
    let t = match thermal {
        Some(t) => if t@ != "Nominal"@ && t@ != "Fair"@ {
            seq![(AlertSeverity::Warning, "THERMAL_PRESSURE"@, "System thermal state is "@ + t@)]
        } else {
            seq![]
        },
        None => seq![],
    };
    let g = match gpu {
        Some(g) => if above(g.level, gpu_high_level()) {
            seq![(AlertSeverity::Warning, "HIGH_GPU_USAGE"@, "GPU usage is at "@ + g.text@ + "%"@)]
        } else {
            seq![]
        },
        None => seq![],
    };
    t + g
}

/// The alerts raised by the platform adapter's readings.
pub fn collect_platform_alerts(thermal: &Option<String>, gpu: &Option<Reading>) -> (r: Vec<SystemAlert>)
    ensures
        alerts_view(r@) == platform_alerts(*thermal, *gpu),
{
    let mut alerts: Vec<SystemAlert> = Vec::new();
    if let Some(t) = thermal {
        let nominal = String::from_str("Nominal");
        let fair = String::from_str("Fair");
        if !(*t == nominal) && !(*t == fair) {
            let a = alert(AlertSeverity::Warning, "THERMAL_PRESSURE", &vec!["System thermal state is ", t.as_str()]);
            alerts.push(a);
            proof {
                reveal_with_fuel(Seq::fold_left, 3);
            }
        }
    }
    let ghost first = alerts@;
    let gpu_high = Level { key: Some(GPU_HIGH_KEY) };
    if let Some(g) = gpu {
        if g.level.above(&gpu_high) {
            let a = alert(AlertSeverity::Warning, "HIGH_GPU_USAGE", &vec!["GPU usage is at ", g.text.as_str(), "%"]);
            alerts.push(a);
            proof {
                reveal_with_fuel(Seq::fold_left, 4);
            }
        }
    }
    assert(alerts_view(alerts@) =~= platform_alerts(*thermal, *gpu));
    alerts
}

/// When the full telemetry was last collected (monotonic nanoseconds).
#[derive(Debug, Clone, Copy)]
pub struct TelemetrySchedule {
    pub last_full_sample: Option<u64>,
}

impl TelemetrySchedule {
    /// No full sample taken yet.
    pub fn new() -> (s: TelemetrySchedule)
        ensures
            s.last_full_sample is None,
    {
        TelemetrySchedule { last_full_sample: None }
    }

    /// Whether a full telemetry sample is due at `now`; when it is, `now` is recorded.
    pub fn full_sample_due(&mut self, now: u64, interval_secs: u64) -> (due: bool)
        ensures
            due == match old(self).last_full_sample {
                None => true,
                Some(last) => monotonic_elapsed(now, last, interval_secs),
            },
            due ==> final(self).last_full_sample == Some(now),
            !due ==> *final(self) == *old(self),
    {
        let due = match self.last_full_sample {
            None => true,
            Some(last) => has_elapsed(now, last, interval_secs),
        };
        if due {
            self.last_full_sample = Some(now);
        }
        due
    }
}

} // verus!
