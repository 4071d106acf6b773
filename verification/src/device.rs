//! The calls into NVML and the clock. Nothing here is proved: each function
//! hands one call on and converts its result. What the device answers depends
//! on the machine, so these contracts promise nothing about the values.

use crate::types::{
    CudaComputeCapability, GpuArchitecture, GpuMemStats, MinMaxFanSpeeds, ProbeTime,
};
use chrono::Local;
use nvml_wrapper::enum_wrappers::device::{Clock, TemperatureSensor, TemperatureThreshold};
use nvml_wrapper::enums::device::DeviceArchitecture;
use nvml_wrapper::error::NvmlError;
use nvml_wrapper::{Device, Nvml};
use vstd::prelude::*;

verus! {

/// The loaded NVML library; opaque.
#[verifier::external_type_specification]
#[verifier::external_body]
pub struct ExNvml(nvml_wrapper::Nvml);

/// A handle to one device of the library; opaque.
#[verifier::external_type_specification]
#[verifier::external_body]
pub struct ExDevice<'nvml>(nvml_wrapper::Device<'nvml>);

/// The error of any NVML call; opaque.
#[verifier::external_type_specification]
#[verifier::external_body]
pub struct ExNvmlError(nvml_wrapper::error::NvmlError);

/// Which temperature threshold is asked for.
#[derive(Debug, Clone, Copy, PartialEq, Eq, Structural)]
pub enum ThresholdKind {
    Shutdown,
    Slowdown,
    GpuMax,
}

/// Which clock is asked for.
#[derive(Debug, Clone, Copy, PartialEq, Eq, Structural)]
pub enum ClockKind {
    Memory,
    Graphics,
    Video,
    StreamingMultiprocessor,
}

/// `a / b` for a positive `b` as Rust computes it on integers: rounded
/// toward zero.
pub open spec fn quotient_toward_zero(a: int, b: int) -> int {
    if a >= 0 {
        a / b
    } else {
        -((-a) / b)
    }
}

/// `a % b` for a positive `b` as Rust computes it on integers: what is left
/// of `a` beside the quotient rounded toward zero.
pub open spec fn remainder_toward_zero(a: int, b: int) -> int {
    a - quotient_toward_zero(a, b) * b
}

/// The major part of a CUDA driver version number: its thousands.
pub open spec fn cuda_major(version: i32) -> int {
    quotient_toward_zero(version as int, 1000)
}

/// The minor part of a CUDA driver version number: the tens of what is
/// left beside the thousands.
pub open spec fn cuda_minor(version: i32) -> int {
    quotient_toward_zero(remainder_toward_zero(version as int, 1000), 10)
}

/// `nvml_wrapper::cuda_driver_version_major`, which is `version / 1000`.
pub assume_specification[ nvml_wrapper::cuda_driver_version_major ](version: i32) -> (major: i32)
    ensures
        major == cuda_major(version),
;

/// `nvml_wrapper::cuda_driver_version_minor`, which is `(version % 1000) / 10`.
pub assume_specification[ nvml_wrapper::cuda_driver_version_minor ](version: i32) -> (minor: i32)
    ensures
        minor == cuda_minor(version),
;

/// Trusted: `Nvml::init`, which loads `libnvidia-ml.so.1` and initialises it.
#[verifier::external_body]
pub(crate) fn open_library() -> Result<Nvml, NvmlError> {
    Nvml::init()
}

/// Trusted: `Nvml::device_count`.
#[verifier::external_body]
pub(crate) fn device_count(nvml: &Nvml) -> Result<u32, NvmlError> {
    nvml.device_count()
}

/// Trusted: `Nvml::device_by_index`.
#[verifier::external_body]
pub(crate) fn device_by_index<'nvml>(nvml: &'nvml Nvml, index: u32) -> Result<
    Device<'nvml>,
    NvmlError,
> {
    nvml.device_by_index(index)
}

/// Trusted: `Nvml::sys_driver_version`.
#[verifier::external_body]
pub(crate) fn sys_driver_version(nvml: &Nvml) -> Result<String, NvmlError> {
    nvml.sys_driver_version()
}

/// Trusted: `Nvml::sys_nvml_version`.
#[verifier::external_body]
pub(crate) fn sys_nvml_version(nvml: &Nvml) -> Result<String, NvmlError> {
    nvml.sys_nvml_version()
}

/// Trusted: `Nvml::sys_cuda_driver_version`.
#[verifier::external_body]
pub(crate) fn sys_cuda_driver_version(nvml: &Nvml) -> Result<i32, NvmlError> {
    nvml.sys_cuda_driver_version()
}

/// Trusted: `Device::cuda_compute_capability`, its two fields moved over.
#[verifier::external_body]
pub(crate) fn cuda_compute_capability(device: &Device<'_>) -> Result<
    CudaComputeCapability,
    NvmlError,
> {
    let capability = device.cuda_compute_capability()?;
    Ok(CudaComputeCapability { major: capability.major, minor: capability.minor })
}

/// Trusted: `Device::name`.
#[verifier::external_body]
pub(crate) fn device_name(device: &Device<'_>) -> Result<String, NvmlError> {
    device.name()
}

/// Trusted: `Device::architecture`, each variant mapped to the one of the same name.
#[verifier::external_body]
pub(crate) fn device_architecture(device: &Device<'_>) -> Result<GpuArchitecture, NvmlError> {
    Ok(match device.architecture()? {
        DeviceArchitecture::Kepler => GpuArchitecture::Kepler,
        DeviceArchitecture::Maxwell => GpuArchitecture::Maxwell,
        DeviceArchitecture::Pascal => GpuArchitecture::Pascal,
        DeviceArchitecture::Volta => GpuArchitecture::Volta,
        DeviceArchitecture::Turing => GpuArchitecture::Turing,
        DeviceArchitecture::Ampere => GpuArchitecture::Ampere,
        DeviceArchitecture::Ada => GpuArchitecture::Ada,
        DeviceArchitecture::Hopper => GpuArchitecture::Hopper,
        DeviceArchitecture::Blackwell => GpuArchitecture::Blackwell,
        DeviceArchitecture::Unknown => GpuArchitecture::Unknown,
    })
}

/// Trusted: `Device::num_cores`.
#[verifier::external_body]
pub(crate) fn num_cores(device: &Device<'_>) -> Result<u32, NvmlError> {
    device.num_cores()
}

/// Trusted: `Device::num_fans`.
#[verifier::external_body]
pub(crate) fn num_fans(device: &Device<'_>) -> Result<u32, NvmlError> {
    device.num_fans()
}

/// Trusted: `Device::max_pcie_link_gen`.
#[verifier::external_body]
pub(crate) fn max_pcie_link_gen(device: &Device<'_>) -> Result<u32, NvmlError> {
    device.max_pcie_link_gen()
}

/// Trusted: `Device::max_pcie_link_width`.
#[verifier::external_body]
pub(crate) fn max_pcie_link_width(device: &Device<'_>) -> Result<u32, NvmlError> {
    device.max_pcie_link_width()
}

/// Trusted: `Device::max_pcie_link_speed` and `PcieLinkMaxSpeed::as_integer`:
/// millions of transfers per second, or `None` where the device reports an
/// invalid speed.
#[verifier::external_body]
pub(crate) fn max_pcie_link_speed(device: &Device<'_>) -> Result<Option<u32>, NvmlError> {
    Ok(device.max_pcie_link_speed()?.as_integer())
}

/// Trusted: `Device::current_pcie_link_gen`.
#[verifier::external_body]
pub(crate) fn current_pcie_link_gen(device: &Device<'_>) -> Result<u32, NvmlError> {
    device.current_pcie_link_gen()
}

/// Trusted: `Device::current_pcie_link_width`.
#[verifier::external_body]
pub(crate) fn current_pcie_link_width(device: &Device<'_>) -> Result<u32, NvmlError> {
    device.current_pcie_link_width()
}

/// Trusted: `Device::pcie_link_speed`, in millions of transfers per second.
#[verifier::external_body]
pub(crate) fn pcie_link_speed(device: &Device<'_>) -> Result<u32, NvmlError> {
    device.pcie_link_speed()
}

/// Trusted: `Device::temperature_threshold` for the threshold asked for.
#[verifier::external_body]
pub(crate) fn temperature_threshold(device: &Device<'_>, kind: ThresholdKind) -> Result<
    u32,
    NvmlError,
> {
    device.temperature_threshold(
        match kind {
            ThresholdKind::Shutdown => TemperatureThreshold::Shutdown,
            ThresholdKind::Slowdown => TemperatureThreshold::Slowdown,
            ThresholdKind::GpuMax => TemperatureThreshold::GpuMax,
        },
    )
}

/// Trusted: `Device::min_max_fan_speed`, the pair moved into a struct.
#[verifier::external_body]
pub(crate) fn min_max_fan_speed(device: &Device<'_>) -> Result<MinMaxFanSpeeds, NvmlError> {
    let (min, max) = device.min_max_fan_speed()?;
    Ok(MinMaxFanSpeeds { min, max })
}

/// Trusted: `Device::memory_info`, three of its fields moved over.
#[verifier::external_body]
pub(crate) fn memory_info(device: &Device<'_>) -> Result<GpuMemStats, NvmlError> {
    let info = device.memory_info()?;
    Ok(GpuMemStats { free: info.free, total: info.total, used: info.used })
}

/// Trusted: `Device::power_usage`, in milliwatts.
#[verifier::external_body]
pub(crate) fn power_usage(device: &Device<'_>) -> Result<u32, NvmlError> {
    device.power_usage()
}

/// Trusted: `Device::clock_info` for the clock asked for, in MHz.
#[verifier::external_body]
pub(crate) fn clock_info(device: &Device<'_>, kind: ClockKind) -> Result<u32, NvmlError> {
    device.clock_info(
        match kind {
            ClockKind::Memory => Clock::Memory,
            ClockKind::Graphics => Clock::Graphics,
            ClockKind::Video => Clock::Video,
            ClockKind::StreamingMultiprocessor => Clock::SM,
        },
    )
}

/// Trusted: `Device::temperature` of the GPU sensor, in degrees Celsius.
#[verifier::external_body]
pub(crate) fn temperature(device: &Device<'_>) -> Result<u32, NvmlError> {
    device.temperature(TemperatureSensor::Gpu)
}

/// Trusted: `Device::fan_speed`, in percent.
#[verifier::external_body]
pub(crate) fn fan_speed(device: &Device<'_>, fan: u32) -> Result<u32, NvmlError> {
    device.fan_speed(fan)
}

/// Trusted: `Device::fan_control_policy` and `FanControlPolicy::as_c`: the
/// policy as the number that the device reports. The binding knows two
/// policies, 0 and 1, and answers any other number with an error.
#[verifier::external_body]
pub(crate) fn fan_control_policy(device: &Device<'_>, fan: u32) -> (r: Result<u32, NvmlError>)
    ensures
        r matches Ok(policy) ==> policy == 0 || policy == 1,
{
    Ok(device.fan_control_policy(fan)?.as_c())
}

/// Trusted: `Device::set_fan_speed`, which also switches the fan to manual control.
#[verifier::external_body]
pub(crate) fn set_fan_speed(device: &mut Device<'_>, fan: u32, speed: u32) -> Result<
    (),
    NvmlError,
> {
    device.set_fan_speed(fan, speed)
}

/// Trusted: `Device::set_default_fan_speed`, which hands the fan back to the
/// device's own control.
#[verifier::external_body]
pub(crate) fn set_default_fan_speed(device: &mut Device<'_>, fan: u32) -> Result<(), NvmlError> {
    device.set_default_fan_speed(fan)
}

/// Trusted: the `Display` text of an NVML error.
#[verifier::external_body]
pub(crate) fn describe(error: &NvmlError) -> String {
    format!("{error}")
}

/// Trusted: `chrono::Local::now`, taken apart into seconds since the epoch,
/// nanoseconds beyond them and the local offset from UTC.
#[verifier::external_body]
pub(crate) fn probe_time_now() -> ProbeTime {
    let now = Local::now();
    ProbeTime {
        unix_secs: now.timestamp(),
        subsec_nanos: now.timestamp_subsec_nanos(),
        utc_offset_secs: now.offset().local_minus_utc(),
    }
}

} // verus!
