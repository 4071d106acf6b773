//! The data model: what is read from the device once, what is sampled on
//! every probe, and the snapshot that holds both.

use vstd::prelude::*;

verus! {

/// A complete, point-in-time copy of the device's state, with the active fan
/// curve in order of rising temperature.
#[derive(Debug, Clone)]
pub struct GpuState {
    pub runtime: RuntimeGpuParams,
    pub persistent: PersistentGpuParams,
    pub fan_curve: Vec<(u8, u8)>,
}

/// The moment of a probe: seconds since the Unix epoch, the nanoseconds
/// beyond them, and the local offset from UTC in seconds.
#[derive(Debug, Clone, Copy, PartialEq, Eq, Structural)]
pub struct ProbeTime {
    pub unix_secs: i64,
    pub subsec_nanos: u32,
    pub utc_offset_secs: i32,
}

/// What is sampled anew on every probe. The power draw is in milliwatts.
#[derive(Debug, Clone)]
pub struct RuntimeGpuParams {
    pub probe_time: ProbeTime,
    pub current_pcie_link: PCIeLink,
    pub memory_info: GpuMemStats,
    pub power_usage_mw: u32,
    pub device_temperature: u32,
    pub fan_states: Vec<FanState>,
    pub clock_speeds: ClockSpeeds,
}

/// What stays fixed for the life of a session.
#[derive(Debug, Clone)]
pub struct PersistentGpuParams {
    pub sys_info: SysInfo,
    pub device_name: String,
    pub architecture: GpuArchitecture,
    pub num_cores: u32,
    pub num_fans: usize,
    pub max_pcie_link: PCIeLink,
    pub temp_thresholds: GpuTemperatureThresholds,
    pub minmax_fan_speeds: MinMaxFanSpeeds,
}

#[derive(Debug, Clone)]
pub struct SysInfo {
    pub cuda_version: CudaVersion,
    pub driver_version: String,
    pub cuda_capability: CudaComputeCapability,
    pub nvml_version: String,
}

#[derive(Debug, Clone, Copy, PartialEq, Eq, Structural)]
pub struct GpuTemperatureThresholds {
    pub shutdown: u32,
    pub slowdown: u32,
    pub gpumax: u32,
}

/// A PCIe link: generation, width in lanes, and speed in transfers per second.
#[derive(Debug, Clone, Copy, PartialEq, Eq, Structural)]
pub struct PCIeLink {
    pub gen: u32,
    pub width: u32,
    pub speed: u64,
}

/// Clock speeds in MHz.
#[derive(Debug, Clone, Copy, PartialEq, Eq, Structural)]
pub struct ClockSpeeds {
    pub memory: u32,
    pub graphics: u32,
    pub video: u32,
    pub streaming_multiprocessor: u32,
}

#[derive(Debug, Clone, Copy, PartialEq, Eq, Structural)]
pub struct CudaVersion {
    pub major: i32,
    pub minor: i32,
}

#[derive(Debug, Clone, Copy, PartialEq, Eq, Structural)]
pub struct FanState {
    pub index: usize,
    /// The speed that the fan was measured at, in percent.
    pub speed: u32,
    /// The speed that the fan is set to, in percent.
    pub duty: u32,
    pub control_policy: FanControlPolicy,
}

#[derive(Debug, Clone, Copy, PartialEq, Eq, Structural)]
pub enum FanControlPolicy {
    Automatic,
    Manual,
    Unknown,
}

#[derive(Debug, Clone, Copy, PartialEq, Eq, Structural)]
pub struct MinMaxFanSpeeds {
    pub min: u32,
    pub max: u32,
}

/// Device memory in bytes.
#[derive(Debug, Clone, Copy, PartialEq, Eq, Structural)]
pub struct GpuMemStats {
    pub free: u64,
    pub total: u64,
    pub used: u64,
}

#[derive(Debug, Clone, Copy, PartialEq, Eq, Structural)]
pub enum GpuArchitecture {
    Kepler,
    Maxwell,
    Pascal,
    Volta,
    Turing,
    Ampere,
    Ada,
    Hopper,
    Blackwell,
    Unknown,
}

#[derive(Debug, Clone, Copy, PartialEq, Eq, Structural)]
pub struct CudaComputeCapability {
    pub major: i32,
    pub minor: i32,
}

impl From<u32> for FanControlPolicy {
    /// The device reports 0 for the automatic policy and 1 for the manual one.
    fn from(value: u32) -> (policy: Self) {
        match value {
            0 => FanControlPolicy::Automatic,
            1 => FanControlPolicy::Manual,
            _ => FanControlPolicy::Unknown,
        }
    }
}

impl vstd::std_specs::convert::FromSpecImpl<u32> for FanControlPolicy {
    open spec fn obeys_from_spec() -> bool {
        true
    }

    open spec fn from_spec(value: u32) -> Self {
        if value == 0 {
            FanControlPolicy::Automatic
        } else if value == 1 {
            FanControlPolicy::Manual
        } else {
            FanControlPolicy::Unknown
        }
    }
}

impl FanControlPolicy {
    /// The policy's name, as it is shown.
    pub fn name(&self) -> (text: &'static str)
        ensures
            text@ == match *self {
                FanControlPolicy::Automatic => "Automatic"@,
                FanControlPolicy::Manual => "Manual"@,
                FanControlPolicy::Unknown => "Unknown"@,
            },
    {
        match self {
            FanControlPolicy::Automatic => "Automatic",
            FanControlPolicy::Manual => "Manual",
            FanControlPolicy::Unknown => "Unknown",
        }
    }
}

impl PCIeLink {
    /// A link of the given generation and width whose speed the device
    /// reports in millions of transfers per second.
    pub fn from_megatransfers(gen: u32, width: u32, megatransfers: u32) -> (link: Self)
        ensures
            link.gen == gen,
            link.width == width,
            link.speed == megatransfers as int * 1_000_000,
    {
        let wide: u64 = megatransfers as u64;
        PCIeLink { gen, width, speed: wide * 1_000_000 }
    }
}

} // verus!
