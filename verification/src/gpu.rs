//! GPU sampler: best-effort telemetry over the vendor management library.
//!
//! Every stage degrades on its own: a missing library leaves an empty device
//! list and a false availability flag; a failed device lookup skips that
//! device only; a failed field query falls back to a defined default for
//! that field only. Nothing here is ever fatal.

use vstd::prelude::*;

use crate::text::{dec_str, push_dec};
use nvml_wrapper::enum_wrappers::device::TemperatureSensor;
use nvml_wrapper::Device;
use nvml_wrapper::Nvml;

verus! {

#[verifier::external_type_specification]
#[verifier::external_body]
pub struct ExNvml(Nvml);

#[verifier::external_type_specification]
#[verifier::external_body]
pub struct ExDevice<'a>(Device<'a>);

/// Relies on nvml_wrapper::Nvml::init: succeeds only where the management
/// library can be loaded and initialized; what it returns is up to the host.
#[verifier::external_body]
fn nvml_init() -> Option<Nvml> {
    Nvml::init().ok()
}

/// Relies on nvml_wrapper::Nvml::device_count.
#[verifier::external_body]
fn nvml_device_count(nvml: &Nvml) -> Option<u32> {
    nvml.device_count().ok()
}

/// Relies on nvml_wrapper::Nvml::device_by_index: the basic per-device
/// lookup; any error means the device is not enumerable this refresh.
#[verifier::external_body]
fn nvml_device_by_index<'a>(nvml: &'a Nvml, index: u32) -> Option<Device<'a>> {
    nvml.device_by_index(index).ok()
}

/// Relies on nvml_wrapper::Device::name.
#[verifier::external_body]
fn device_name(device: &Device<'_>) -> Option<String> {
    device.name().ok()
}

/// Relies on nvml_wrapper::Device::utilization_rates; hands out only the
/// GPU utilization percentage of the sample.
#[verifier::external_body]
fn device_utilization(device: &Device<'_>) -> Option<u32> {
    device.utilization_rates().ok().map(|u| u.gpu)
}

/// Relies on nvml_wrapper::Device::memory_info; hands out the used and
/// total byte counts of the sample.
#[verifier::external_body]
fn device_memory_info(device: &Device<'_>) -> Option<(u64, u64)> {
    device.memory_info().ok().map(|m| (m.used, m.total))
}

/// Relies on nvml_wrapper::Device::temperature for the on-die GPU sensor;
/// an unsupported or failing sensor reads as absent.
#[verifier::external_body]
fn device_temperature(device: &Device<'_>) -> Option<u32> {
    device.temperature(TemperatureSensor::Gpu).ok()
}

/// Snapshot of one device that answered its basic lookup this refresh.
/// Fields a sub-query could not fill hold their defined fallback instead:
/// a placeholder name, zero utilization, zero memory, absent temperature.
#[derive(Debug, Clone)]
pub struct GpuStats {
    /// Enumeration-order index, not a persistent device id.
    pub index: u32,
    pub name: String,
    /// Utilization percentage as the device reported it.
    pub utilization: u32,
    pub memory_used: u64,
    pub memory_total: u64,
    /// Absent — not zero — when the sensor query fails or is unsupported.
    pub temperature: Option<u32>,
}

/// The label a device without a readable name gets: `GPU ` and its index.
pub open spec fn placeholder_name(index: nat) -> Seq<char> {
    seq!['G', 'P', 'U', ' '] + dec_str(index)
}

/// Build the placeholder label for a nameless device.
pub fn placeholder_name_of(index: u32) -> (r: String)
    ensures
        r@ == placeholder_name(index as nat),
{
    let mut s = String::new();
    s.append("GPU ");
    push_dec(&mut s, index as u64);
    proof {
        reveal_strlit("GPU ");
        assert(s@ =~= placeholder_name(index as nat));
    }
    s
}

/// Assemble one device entry from whatever its sub-queries returned. Each
/// absent piece falls back independently: placeholder name, utilization 0,
/// memory (0, 0); an absent temperature stays absent, so a dead sensor is
/// distinguishable from a 0°C reading.
pub fn assemble_device_stats(
    index: u32,
    name: Option<String>,
    utilization: Option<u32>,
    memory: Option<(u64, u64)>,
    temperature: Option<u32>,
) -> (g: GpuStats)
    ensures
        g.index == index,
        g.name@ == match name {
            Some(n) => n@,
            None => placeholder_name(index as nat),
        },
        g.utilization == match utilization {
            Some(u) => u,
            None => 0u32,
        },
        g.memory_used == match memory {
            Some(m) => m.0,
            None => 0u64,
        },
        g.memory_total == match memory {
            Some(m) => m.1,
            None => 0u64,
        },
        g.temperature == temperature,
{
    let name = match name {
        Some(n) => n,
        None => placeholder_name_of(index),
    };
    let utilization = match utilization {
        Some(u) => u,
        None => 0,
    };
    let (memory_used, memory_total) = match memory {
        Some(m) => m,
        None => (0, 0),
    };
    GpuStats { index, name, utilization, memory_used, memory_total, temperature }
}

/// The GPU sampler: an optional library handle and the latest device list.
pub struct GpuMonitor {
    nvml: Option<Nvml>,
    stats: Vec<GpuStats>,
}

impl GpuMonitor {
    /// Whether the management library initialized successfully — distinct
    /// from "initialized but found zero devices".
    pub closed spec fn available_view(&self) -> bool {
        self.nvml is Some
    }

    /// The latest device snapshot list.
    pub closed spec fn stats_view(&self) -> Seq<GpuStats> {
        self.stats@
    }

    /// The sampler invariant: an unavailable library shows an empty device
    /// list, and devices are listed in strictly increasing enumeration
    /// order (failed lookups are skipped, never represented).
    pub open spec fn wf(&self) -> bool {
        (!self.available_view() ==> self.stats_view().len() == 0) && (forall|a: int, b: int|
            0 <= a < b < self.stats_view().len() ==> self.stats_view()[a].index
                < self.stats_view()[b].index)
    }

    /// Build the sampler: try to initialize the library (failure is not
    /// fatal) and take the first snapshot at once.
    pub fn new() -> (m: GpuMonitor)
        ensures
            m.wf(),
    {
        let nvml = nvml_init();
        let mut monitor = GpuMonitor { nvml, stats: Vec::new() };
        monitor.refresh();
        monitor
    }

    /// Rebuild the device list from scratch and replace it atomically.
    /// A handle is (re-)acquired if none is held — supporting a driver
    /// that appears after startup; if none can be, or the device count
    /// cannot be read, the list is cleared for this tick. Each enumerable
    /// device contributes one entry with per-field fallbacks; devices that
    /// fail the basic lookup are skipped. A handle once held is kept for
    /// the next attempt, never discarded.
    pub fn refresh(&mut self)
        ensures
            final(self).wf(),
            old(self).available_view() ==> final(self).available_view(),
    {
        if self.nvml.is_none() {
            match nvml_init() {
                Some(handle) => {
                    self.nvml = Some(handle);
                },
                None => {
                    self.stats = Vec::new();
                    return ;
                },
            }
        }
        let nvml = match &self.nvml {
            Some(handle) => handle,
            None => {
                self.stats = Vec::new();
                return ;
            },
        };
        let count = match nvml_device_count(nvml) {
            Some(c) => c,
            None => {
                self.stats = Vec::new();
                return ;
            },
        };
        let mut stats: Vec<GpuStats> = Vec::new();
        let mut i: u32 = 0;
        while i < count
            invariant
                i <= count,
                forall|j: int| 0 <= j < stats@.len() ==> stats@[j].index < i,
                forall|a: int, b: int|
                    0 <= a < b < stats@.len() ==> stats@[a].index < stats@[b].index,
            decreases count - i,
        {
            match nvml_device_by_index(nvml, i) {
                Some(device) => {
                    let name = device_name(&device);
                    let utilization = device_utilization(&device);
                    let memory = device_memory_info(&device);
                    let temperature = device_temperature(&device);
                    let entry = assemble_device_stats(i, name, utilization, memory, temperature);
                    stats.push(entry);
                },
                None => {},
            }
            i = i + 1;
        }
        self.stats = stats;
    }

    /// The latest device list, read-only.
    pub fn stats(&self) -> (r: &Vec<GpuStats>)
        ensures
            r@ == self.stats_view(),
    {
        &self.stats
    }

    /// The availability flag: true while a library handle is held.
    pub fn nvml_available(&self) -> (r: bool)
        ensures
            r == self.available_view(),
    {
        self.nvml.is_some()
    }
}

/// Degradation law: while the management library is unavailable the device
/// list is empty, so an unavailable subsystem is never mistaken for an
/// available one that found zero devices — the flag tells them apart.
pub proof fn lemma_unavailable_empty(m: &GpuMonitor)
    requires
        m.wf(),
        !m.available_view(),
    ensures
        m.stats_view().len() == 0,
{
}

} // verus!
