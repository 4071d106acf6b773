//! The device session: the one owner of the connection to the device. It
//! reads snapshots, applies control steps, and hands every fan back to the
//! device's own control when it is closed.

use crate::config::{rule_sentence, ResponseTime, TjaeleControlConfig};
use crate::control::{decision, fault_sentence, ControlDecision};
use crate::fan_curve::{anchors_of, compiled_curve, entries, settings_error};
use crate::device::{
    clock_info, cuda_compute_capability, current_pcie_link_gen, current_pcie_link_width, describe,
    device_architecture, device_by_index, device_count, device_name, fan_control_policy, fan_speed,
    max_pcie_link_gen, max_pcie_link_speed, max_pcie_link_width, memory_info, min_max_fan_speed,
    num_cores, num_fans, open_library, pcie_link_speed, power_usage, probe_time_now,
    set_default_fan_speed, set_fan_speed, sys_cuda_driver_version, sys_driver_version,
    sys_nvml_version, temperature, temperature_threshold, ClockKind, ThresholdKind,
};
use crate::device::{cuda_major, cuda_minor};
use crate::error::{FaultKind, SessionError};
use crate::types::{
    ClockSpeeds, CudaVersion, FanControlPolicy, FanState, GpuState, GpuTemperatureThresholds,
    PCIeLink, PersistentGpuParams, RuntimeGpuParams, SysInfo,
};
use nvml_wrapper::error::NvmlError;
use nvml_wrapper::{cuda_driver_version_major, cuda_driver_version_minor, Device, Nvml};
use vstd::prelude::*;

verus! {

/// A command that changes how a fan is driven.
#[derive(Debug, Clone, Copy, PartialEq, Eq, Structural)]
pub enum FanCommand {
    /// Drive the fan at this duty, in percent, under manual control.
    SetDuty { fan: u32, duty: u8 },
    /// Hand the fan back to the device's own control.
    RestoreAutomatic { fan: u32 },
}

/// `SetDuty` for the fans `0..n`, in order of rising index.
pub open spec fn set_duty_commands(n: nat, duty: u8) -> Seq<FanCommand> {
    Seq::new(n, |i: int| FanCommand::SetDuty { fan: i as u32, duty })
}

/// `RestoreAutomatic` for the fans `0..n`, in order of rising index.
pub open spec fn restore_commands(n: nat) -> Seq<FanCommand> {
    Seq::new(n, |i: int| FanCommand::RestoreAutomatic { fan: i as u32 })
}

/// `after` is `before` followed by the first commands of the plan, up to
/// some command at which the sending stopped.
pub open spec fn stopped_within(
    before: Seq<FanCommand>,
    plan: Seq<FanCommand>,
    after: Seq<FanCommand>,
) -> bool {
    exists|k: int| 0 <= k <= plan.len() && after == before + #[trigger] plan.take(k)
}

/// What a control step for the temperature `observed` returns and sends.
/// Inside the band it returns the old temperature and sends nothing. Outside
/// it, it sends the table's duty to every fan, lowest index first, and
/// returns the observed temperature, or stops at the first command that the
/// device refuses. A temperature that the table cannot answer is a fault of
/// that kind, and nothing is sent.
pub open spec fn step_outcome(
    config: TjaeleControlConfig,
    fans: nat,
    before: Seq<FanCommand>,
    after: Seq<FanCommand>,
    previous_temp: u32,
    observed: u32,
    r: Result<u32, SessionError>,
) -> bool {
    match decision(config.fan_curve@, config.hysteresis, previous_temp, observed) {
        Ok(ControlDecision::Hold) => r matches Ok(t) && t == previous_temp && after == before,
        Ok(ControlDecision::Commit { duty }) => match r {
            Ok(t) => t == observed && after == before + set_duty_commands(fans, duty),
            Err(e) => e.is_device_fault() && stopped_within(
                before,
                set_duty_commands(fans, duty),
                after,
            ),
        },
        Err(fault) => r matches Err(e) && e.kind == FaultKind::Control(fault) && e.text() == seq![
            fault_sentence(fault),
        ] && after == before,
    }
}

/// Two sets of persistent parameters that agree in every field.
pub open spec fn same_persistent(a: PersistentGpuParams, b: PersistentGpuParams) -> bool {
    &&& a.sys_info.cuda_version == b.sys_info.cuda_version
    &&& a.sys_info.driver_version@ == b.sys_info.driver_version@
    &&& a.sys_info.cuda_capability == b.sys_info.cuda_capability
    &&& a.sys_info.nvml_version@ == b.sys_info.nvml_version@
    &&& a.device_name@ == b.device_name@
    &&& a.architecture == b.architecture
    &&& a.num_cores == b.num_cores
    &&& a.num_fans == b.num_fans
    &&& a.max_pcie_link == b.max_pcie_link
    &&& a.temp_thresholds == b.temp_thresholds
    &&& a.minmax_fan_speeds == b.minmax_fan_speeds
}

/// The session. `issued` records, for the proofs only, every fan command
/// that the session has sent to the device, in the order of sending, whether
/// or not the device accepted it.
pub struct GpuManager {
    nvml: Nvml,
    persistent_params: PersistentGpuParams,
    fan_count: u32,
    control_config: TjaeleControlConfig,
    issued: Ghost<Seq<FanCommand>>,
}

/// Only a machine with exactly one device is supported.
pub fn check_device_count(count: u32) -> (r: Result<(), SessionError>)
    ensures
        r is Ok <==> count == 1,
        r matches Err(e) ==> e.kind == FaultKind::DeviceCount && e.text() == seq![
            "nvmlcontrol currently supports platforms with one GPU only"@,
        ],
{
    if count == 1 {
        Ok(())
    } else {
        Err(
            SessionError::new(
                FaultKind::DeviceCount,
                "nvmlcontrol currently supports platforms with one GPU only",
            ),
        )
    }
}

/// Turns the failure of a device call into a session error that names the
/// operation: the sentence comes first, the device's own words second.
fn named<T>(answer: Result<T, NvmlError>, sentence: &str) -> (r: Result<T, SessionError>)
    ensures
        match (answer, r) {
            (Ok(a), Ok(b)) => a == b,
            (Err(_), Err(e)) => e.names(sentence@),
            _ => false,
        },
{
    match answer {
        Ok(value) => Ok(value),
        Err(cause) => {
            let words = describe(&cause);
            Err(SessionError::new(FaultKind::Device, words.as_str()).context(sentence))
        },
    }
}

/// The pair that a CUDA driver version number stands for.
pub open spec fn split_version(version: i32) -> CudaVersion {
    CudaVersion { major: cuda_major(version) as i32, minor: cuda_minor(version) as i32 }
}

/// A version that some driver version number stands for.
pub open spec fn is_split_version(v: CudaVersion) -> bool {
    exists|version: i32| v == #[trigger] split_version(version)
}

/// A link speed that is a whole number of millions of transfers per second,
/// as many as the device can report.
pub open spec fn is_link_speed(speed: u64) -> bool {
    speed % 1_000_000 == 0 && speed / 1_000_000 <= u32::MAX
}

/// The error names one of the reads that make up the system information.
pub open spec fn names_sys_info_read(e: SessionError) -> bool {
    ||| e.names("Failed to read driver version"@)
    ||| e.names("Failed to read CUDA driver version"@)
    ||| e.names("Failed to read CUDA compute capability"@)
    ||| e.names("Failed to read NVML version"@)
}

/// The error names one of the reads that make up the persistent parameters.
pub open spec fn names_persistent_read(e: SessionError) -> bool {
    ||| names_sys_info_read(e)
    ||| e.names("Failed to read GPU name"@)
    ||| e.names("Failed to read GPU arch"@)
    ||| e.names("Failed to read GPU num cores"@)
    ||| e.names("Failed to read GPU num fans"@)
    ||| e.names("Failed to read GPU max PCIe link"@)
    ||| e.names("Failed to read GPU shutdown temperature"@)
    ||| e.names("Failed to read GPU slowdown temperature"@)
    ||| e.names("Failed to read GPU gpumax temperature"@)
    ||| e.names("Failed to read GPU min/max fan speeds"@)
}

/// The sentence that names the sending of a command.
pub open spec fn command_sentence(command: FanCommand) -> Seq<char> {
    match command {
        FanCommand::SetDuty { .. } => "Failed to set fan speed"@,
        FanCommand::RestoreAutomatic { .. } => "Failed to set auto fan control policy"@,
    }
}

/// Takes the number of a CUDA driver version apart: 12040 is version 12.4.
pub fn cuda_version_of(version: i32) -> (r: CudaVersion)
    ensures
        r == split_version(version),
{
    CudaVersion {
        major: cuda_driver_version_major(version),
        minor: cuda_driver_version_minor(version),
    }
}

/// The maximum link speed that the device reported, in millions of
/// transfers per second; a speed that the device calls invalid is a fault.
fn max_link_speed_of(reported: Option<u32>) -> (r: Result<u32, SessionError>)
    ensures
        match reported {
            Some(megatransfers) => r matches Ok(speed) && speed == megatransfers,
            None => r matches Err(e) && e.names("Failed to read GPU max PCIe link"@) && e.text()[1]
                == "Couldn't convert PCIe max link speed"@,
        },
{
    match reported {
        Some(megatransfers) => Ok(megatransfers),
        None => Err(
            SessionError::new(FaultKind::Device, "Couldn't convert PCIe max link speed").context(
                "Failed to read GPU max PCIe link",
            ),
        ),
    }
}

/// Reads the version of the CUDA driver and takes its number apart. A
/// version that is returned is the pair of some version number; a failure
/// names the read.
fn read_cuda_version(nvml: &Nvml) -> (r: Result<CudaVersion, SessionError>)
    ensures
        r matches Ok(v) ==> is_split_version(v),
        r matches Err(e) ==> e.names("Failed to read CUDA driver version"@),
{
    let version = named(sys_cuda_driver_version(nvml), "Failed to read CUDA driver version")?;
    Ok(cuda_version_of(version))
}

/// Reads the versions of the driver, of CUDA and of the library, and the
/// compute capability. A failure names the read that failed.
fn read_sys_info(nvml: &Nvml, device: &Device<'_>) -> (r: Result<SysInfo, SessionError>)
    ensures
        r matches Ok(info) ==> is_split_version(info.cuda_version),
        r matches Err(e) ==> names_sys_info_read(e),
{
    let driver_version = named(sys_driver_version(nvml), "Failed to read driver version")?;
    let cuda_version = read_cuda_version(nvml)?;
    let cuda_capability = named(
        cuda_compute_capability(device),
        "Failed to read CUDA compute capability",
    )?;
    let nvml_version = named(sys_nvml_version(nvml), "Failed to read NVML version")?;
    Ok(SysInfo { cuda_version, driver_version, cuda_capability, nvml_version })
}

/// Reads the best link that the device can have. Its speed is scaled from
/// millions of transfers to transfers per second; a failure, an invalid
/// speed included, names the read.
fn read_max_pcie_link(device: &Device<'_>) -> (r: Result<PCIeLink, SessionError>)
    ensures
        r matches Ok(link) ==> is_link_speed(link.speed),
        r matches Err(e) ==> e.names("Failed to read GPU max PCIe link"@),
{
    let gen = named(max_pcie_link_gen(device), "Failed to read GPU max PCIe link")?;
    let width = named(max_pcie_link_width(device), "Failed to read GPU max PCIe link")?;
    let reported = named(max_pcie_link_speed(device), "Failed to read GPU max PCIe link")?;
    let megatransfers = max_link_speed_of(reported)?;
    Ok(PCIeLink::from_megatransfers(gen, width, megatransfers))
}

/// Reads the link that the device has now. Its speed is scaled from
/// millions of transfers to transfers per second; a failure names the read.
fn read_current_pcie_link(device: &Device<'_>) -> (r: Result<PCIeLink, SessionError>)
    ensures
        r matches Ok(link) ==> is_link_speed(link.speed),
        r matches Err(e) ==> e.names("Failed to read GPU PCIe link info"@),
{
    let gen = named(current_pcie_link_gen(device), "Failed to read GPU PCIe link info")?;
    let width = named(current_pcie_link_width(device), "Failed to read GPU PCIe link info")?;
    let megatransfers = named(pcie_link_speed(device), "Failed to read GPU PCIe link info")?;
    Ok(PCIeLink::from_megatransfers(gen, width, megatransfers))
}

/// Reads the four clocks. A failure names the read.
fn read_clock_speeds(device: &Device<'_>) -> (r: Result<ClockSpeeds, SessionError>)
    ensures
        r matches Err(e) ==> e.names("Failed to read GPU clock speeds"@),
{
    let memory = named(clock_info(device, ClockKind::Memory), "Failed to read GPU clock speeds")?;
    let graphics = named(
        clock_info(device, ClockKind::Graphics),
        "Failed to read GPU clock speeds",
    )?;
    let video = named(clock_info(device, ClockKind::Video), "Failed to read GPU clock speeds")?;
    let streaming_multiprocessor = named(
        clock_info(device, ClockKind::StreamingMultiprocessor),
        "Failed to read GPU clock speeds",
    )?;
    Ok(ClockSpeeds { memory, graphics, video, streaming_multiprocessor })
}

/// The state of one fan; the commanded duty is handed in.
fn read_fan_state(device: &Device<'_>, index: u32, duty: u32) -> (r: Result<
    FanState,
    SessionError,
>)
    ensures
        r matches Ok(state) ==> state.index == index && state.duty == duty && state.control_policy
            != FanControlPolicy::Unknown,
        r matches Err(e) ==> e.is_device_fault(),
{
    let speed = named(fan_speed(device, index), "Failed to read fan speed")?;
    let policy = named(fan_control_policy(device, index), "Failed to read fan policy")?;
    Ok(FanState { index: index as usize, speed, duty, control_policy: FanControlPolicy::from(policy) })
}

/// Reads everything that stays fixed for the life of a session, and the
/// number of fans once more as the device gave it. A failure names the read
/// that failed.
fn read_persistent_params(nvml: &Nvml, device: &Device<'_>) -> (r: Result<
    (PersistentGpuParams, u32),
    SessionError,
>)
    ensures
        r matches Ok(read) ==> read.0.num_fans == read.1 && is_split_version(
            read.0.sys_info.cuda_version,
        ) && is_link_speed(read.0.max_pcie_link.speed),
        r matches Err(e) ==> names_persistent_read(e),
{
    let sys_info = read_sys_info(nvml, device)?;
    let name = named(device_name(device), "Failed to read GPU name")?;
    let architecture = named(device_architecture(device), "Failed to read GPU arch")?;
    let cores = named(num_cores(device), "Failed to read GPU num cores")?;
    let fans = named(num_fans(device), "Failed to read GPU num fans")?;
    let max_pcie_link = read_max_pcie_link(device)?;
    let shutdown = named(
        temperature_threshold(device, ThresholdKind::Shutdown),
        "Failed to read GPU shutdown temperature",
    )?;
    let slowdown = named(
        temperature_threshold(device, ThresholdKind::Slowdown),
        "Failed to read GPU slowdown temperature",
    )?;
    let gpumax = named(
        temperature_threshold(device, ThresholdKind::GpuMax),
        "Failed to read GPU gpumax temperature",
    )?;
    let minmax_fan_speeds = named(
        min_max_fan_speed(device),
        "Failed to read GPU min/max fan speeds",
    )?;
    Ok(
        (
            PersistentGpuParams {
                sys_info,
                device_name: name,
                architecture,
                num_cores: cores,
                num_fans: fans as usize,
                max_pcie_link,
                temp_thresholds: GpuTemperatureThresholds { shutdown, slowdown, gpumax },
                minmax_fan_speeds,
            },
            fans,
        ),
    )
}

fn read_runtime_params(device: &Device<'_>, fans: u32, target_duties: &Vec<u32>) -> (r: Result<
    RuntimeGpuParams,
    SessionError,
>)
    requires
        target_duties@.len() == fans,
    ensures
        r matches Ok(params) ==> params.fan_states@.len() == fans && forall|i: int|
            0 <= i < fans ==> (#[trigger] params.fan_states@[i]).index == i
                && params.fan_states@[i].duty == target_duties@[i]
                && params.fan_states@[i].control_policy != FanControlPolicy::Unknown,
        r matches Err(e) ==> e.is_device_fault(),
{
    let probe_time = probe_time_now();
    let current_pcie_link = read_current_pcie_link(device)?;
    let memory = named(memory_info(device), "Failed to read GPU memory info")?;
    let power_usage_mw = named(power_usage(device), "Failed to read GPU power usage")?;
    let clock_speeds = read_clock_speeds(device)?;
    let device_temperature = named(temperature(device), "Failed to read GPU temperature")?;
    let mut fan_states: Vec<FanState> = Vec::new();
    let mut index: u32 = 0;
    while index < fans
        invariant
            index <= fans,
            target_duties@.len() == fans,
            fan_states@.len() == index,
            forall|i: int|
                0 <= i < index ==> (#[trigger] fan_states@[i]).index == i && fan_states@[i].duty
                    == target_duties@[i] && fan_states@[i].control_policy
                    != FanControlPolicy::Unknown,
        decreases fans - index,
    {
        match read_fan_state(device, index, target_duties[index as usize]) {
            Ok(state) => {
                fan_states.push(state);
            },
            Err(e) => {
                return Err(e.context("Failed to read GPU fan states"));
            },
        }
        index += 1;
    }
    Ok(
        RuntimeGpuParams {
            probe_time,
            current_pcie_link,
            memory_info: memory,
            power_usage_mw,
            device_temperature,
            fan_states,
            clock_speeds,
        },
    )
}

fn copy_persistent(params: &PersistentGpuParams) -> (copy: PersistentGpuParams)
    ensures
        same_persistent(*params, copy),
{
    PersistentGpuParams {
        sys_info: SysInfo {
            cuda_version: params.sys_info.cuda_version,
            driver_version: params.sys_info.driver_version.clone(),
            cuda_capability: params.sys_info.cuda_capability,
            nvml_version: params.sys_info.nvml_version.clone(),
        },
        device_name: params.device_name.clone(),
        architecture: params.architecture,
        num_cores: params.num_cores,
        num_fans: params.num_fans,
        max_pcie_link: params.max_pcie_link,
        temp_thresholds: params.temp_thresholds,
        minmax_fan_speeds: params.minmax_fan_speeds,
    }
}

/// Reads what stays fixed from the one device of the library. A failure
/// names the opening of the device or the read that failed.
fn probe_persistent(nvml: &Nvml) -> (r: Result<(PersistentGpuParams, u32), SessionError>)
    ensures
        r matches Ok(read) ==> read.0.num_fans == read.1 && is_split_version(
            read.0.sys_info.cuda_version,
        ) && is_link_speed(read.0.max_pcie_link.speed),
        r matches Err(e) ==> e.names("Failed to open the GPU"@) || names_persistent_read(e),
{
    let device = named(device_by_index(nvml, 0), "Failed to open the GPU")?;
    read_persistent_params(nvml, &device)
}

/// Samples the one device of the library.
fn probe_runtime(nvml: &Nvml, fans: u32, target_duties: &Vec<u32>) -> (r: Result<
    RuntimeGpuParams,
    SessionError,
>)
    requires
        target_duties@.len() == fans,
    ensures
        r matches Ok(params) ==> params.fan_states@.len() == fans && forall|i: int|
            0 <= i < fans ==> (#[trigger] params.fan_states@[i]).index == i
                && params.fan_states@[i].duty == target_duties@[i]
                && params.fan_states@[i].control_policy != FanControlPolicy::Unknown,
        r matches Err(e) ==> e.is_device_fault(),
{
    let device = named(device_by_index(nvml, 0), "Failed to open the GPU")?;
    read_runtime_params(&device, fans, target_duties)
}

/// The error names the reading of the temperature, or the opening of the
/// device before it.
pub open spec fn names_temperature_read(e: SessionError) -> bool {
    e.names("Failed to open the GPU"@) || e.names("Failed to read GPU temperature"@)
}

/// Reads the temperature of the one device of the library. A failure names
/// the opening of the device or the read.
fn probe_temperature(nvml: &Nvml) -> (r: Result<u32, SessionError>)
    ensures
        r matches Err(e) ==> names_temperature_read(e),
{
    let device = named(device_by_index(nvml, 0), "Failed to open the GPU")?;
    named(temperature(&device), "Failed to read GPU temperature")
}

/// The commands that set every one of `fans` fans to the duty, lowest
/// index first.
pub fn duty_plan(fans: u32, duty: u8) -> (plan: Vec<FanCommand>)
    ensures
        plan@ == set_duty_commands(fans as nat, duty),
{
    let mut plan: Vec<FanCommand> = Vec::new();
    let mut fan: u32 = 0;
    while fan < fans
        invariant
            fan <= fans,
            plan@ == set_duty_commands(fan as nat, duty),
        decreases fans - fan,
    {
        plan.push(FanCommand::SetDuty { fan, duty });
        proof {
            assert(plan@ =~= set_duty_commands((fan + 1) as nat, duty));
        }
        fan += 1;
    }
    plan
}

/// The commands that hand every one of `fans` fans back to the device's own
/// control: one command for each fan, lowest index first.
pub fn restore_plan(fans: u32) -> (plan: Vec<FanCommand>)
    ensures
        plan@ == restore_commands(fans as nat),
{
    let mut plan: Vec<FanCommand> = Vec::new();
    let mut fan: u32 = 0;
    while fan < fans
        invariant
            fan <= fans,
            plan@ == restore_commands(fan as nat),
        decreases fans - fan,
    {
        plan.push(FanCommand::RestoreAutomatic { fan });
        proof {
            assert(plan@ =~= restore_commands((fan + 1) as nat));
        }
        fan += 1;
    }
    plan
}

/// Sends one command to the device: a duty is set with the fan's index and
/// the duty, a fan is handed back with its index. A command that the device
/// refuses is a failure that names the kind of command.
fn send(device: &mut Device<'_>, command: FanCommand) -> (r: Result<(), SessionError>)
    ensures
        r matches Err(e) ==> e.names(command_sentence(command)),
{
    match command {
        FanCommand::SetDuty { fan, duty } => named(
            set_fan_speed(device, fan, duty as u32),
            "Failed to set fan speed",
        ),
        FanCommand::RestoreAutomatic { fan } => named(
            set_default_fan_speed(device, fan),
            "Failed to set auto fan control policy",
        ),
    }
}

/// Sends the commands in order and stops at the first one that the device
/// refuses. The second part of the result lists the commands that were sent,
/// the refused one included.
fn send_all(nvml: &Nvml, plan: &Vec<FanCommand>) -> (r: (
    Result<(), SessionError>,
    Ghost<Seq<FanCommand>>,
))
    ensures
        r.0 is Ok ==> r.1@ == plan@,
        r.0 matches Err(e) ==> e.is_device_fault() && exists|k: int|
            0 <= k <= plan@.len() && r.1@ == #[trigger] plan@.take(k),
{
    let ghost mut sent: Seq<FanCommand> = Seq::empty();
    proof {
        assert(sent =~= plan@.take(0));
    }
    let mut device = match named(device_by_index(nvml, 0), "Failed to open the GPU") {
        Ok(device) => device,
        Err(e) => {
            return (Err(e), Ghost(sent));
        },
    };
    let mut next: usize = 0;
    while next < plan.len()
        invariant
            next <= plan@.len(),
            sent == plan@.take(next as int),
        decreases plan@.len() - next,
    {
        let answer = send(&mut device, plan[next]);
        proof {
            sent = sent.push(plan@[next as int]);
            assert(sent =~= plan@.take(next + 1));
        }
        match answer {
            Ok(()) => {},
            Err(e) => {
                return (Err(e), Ghost(sent));
            },
        }
        next += 1;
    }
    proof {
        assert(sent =~= plan@);
    }
    (Ok(()), Ghost(sent))
}

impl GpuManager {
    /// Every fan command that the session has sent, oldest first.
    pub closed spec fn issued(&self) -> Seq<FanCommand> {
        self.issued@
    }

    /// The number of fans that the session manages.
    pub closed spec fn fans(&self) -> nat {
        self.fan_count as nat
    }

    /// The configuration that the session was opened with, its table compiled.
    pub closed spec fn config(&self) -> TjaeleControlConfig {
        self.control_config
    }

    /// What was read from the device when the session was opened.
    pub closed spec fn persistent(&self) -> PersistentGpuParams {
        self.persistent_params
    }

    /// Opens the session. The settings are checked and the fan curve is
    /// compiled first: settings that break a rule are reported as such,
    /// before the library is loaded. After that the machine must hold exactly
    /// one device, and what stays fixed is read from it once. A new session
    /// has sent no fan command.
    pub fn init(response_time: ResponseTime, hysteresis: u16, points: &Vec<(u8, u8)>) -> (r: Result<
        GpuManager,
        SessionError,
    >)
        ensures
            match r {
                Ok(session) => settings_error(response_time, hysteresis, points@) is None
                    && session.config().has_table()
                    && session.config().fan_curve@ == compiled_curve(anchors_of(points@))
                    && session.config().hysteresis == hysteresis
                    && session.config().response_time == response_time
                    && session.persistent().num_fans == session.fans()
                    && session.issued().len() == 0,
                Err(e) => match settings_error(response_time, hysteresis, points@) {
                    Some(rule) => e.kind == FaultKind::Config(rule) && e.text() == seq![
                        rule_sentence(rule),
                    ],
                    None => e.is_device_fault() || e.kind == FaultKind::DeviceCount,
                },
            },
    {
        let control_config = match TjaeleControlConfig::load(response_time, hysteresis, points) {
            Ok(config) => config,
            Err(rule) => {
                return Err(SessionError::new(FaultKind::Config(rule), rule.message()));
            },
        };
        let nvml = named(open_library(), "Failed to initialize NVML")?;
        let count = named(device_count(&nvml), "Failed to count the GPUs")?;
        check_device_count(count)?;
        let (persistent_params, fan_count) = probe_persistent(&nvml)?;
        Ok(
            GpuManager {
                nvml,
                persistent_params,
                fan_count,
                control_config,
                issued: Ghost(Seq::empty()),
            },
        )
    }

    /// The number of fans that the session manages.
    pub fn num_fans(&self) -> (n: u32)
        ensures
            n == self.fans(),
    {
        self.fan_count
    }

    /// What was read from the device when the session was opened.
    pub fn persistent_params(&self) -> (params: &PersistentGpuParams)
        ensures
            *params == self.persistent(),
    {
        &self.persistent_params
    }

    /// The time to wait between two control steps.
    pub fn response_time(&self) -> (t: ResponseTime)
        ensures
            t == self.config().response_time,
    {
        self.control_config.response_time
    }

    /// The configuration that the session was opened with, its table compiled.
    pub fn control_config(&self) -> (config: &TjaeleControlConfig)
        ensures
            *config == self.config(),
    {
        &self.control_config
    }

    /// Samples the device and returns a snapshot. `target_duties` holds, for
    /// each fan in order, the duty that the fan is set to, which the caller
    /// has read from the driver; a list of another length is rejected. No fan
    /// command is sent and the session stays as it was. Like every call that
    /// reaches the device, this one needs the session for itself.
    pub fn read_state(&mut self, target_duties: &Vec<u32>) -> (r: Result<GpuState, SessionError>)
        ensures
            *final(self) == *old(self),
            match r {
                Ok(state) => target_duties@.len() == old(self).fans() && same_persistent(
                    old(self).persistent(),
                    state.persistent,
                ) && state.fan_curve@ == entries(old(self).config().fan_curve@)
                    && state.runtime.fan_states@.len() == old(self).fans() && forall|i: int|
                    0 <= i < old(self).fans() ==> (#[trigger] state.runtime.fan_states@[i]).index
                        == i && state.runtime.fan_states@[i].duty == target_duties@[i]
                        && state.runtime.fan_states@[i].control_policy
                        != FanControlPolicy::Unknown,
                Err(e) => if target_duties@.len() == old(self).fans() {
                    e.is_device_fault()
                } else {
                    e.kind == FaultKind::FanCount && e.text().len() == 1
                },
            },
    {
        let fans = self.fan_count;
        if target_duties.len() != fans as usize {
            return Err(
                SessionError::new(FaultKind::FanCount, "One commanded duty per fan is needed"),
            );
        }
        let runtime = probe_runtime(&self.nvml, fans, target_duties)?;
        Ok(
            GpuState {
                runtime,
                persistent: copy_persistent(&self.persistent_params),
                fan_curve: self.control_config.curve_points(),
            },
        )
    }

    /// Carries out one control step for a temperature that was read from the
    /// device. Inside the hysteresis band nothing is sent and the old
    /// temperature is returned. Outside it the table's duty is sent to every
    /// fan, lowest index first, and the observed temperature is returned; a
    /// temperature above 255 degrees is a fault, and nothing is sent.
    pub fn apply_step(&mut self, previous_temp: u32, observed: u32) -> (r: Result<u32, SessionError>)
        ensures
            final(self).persistent() == old(self).persistent(),
            final(self).fans() == old(self).fans(),
            final(self).config() == old(self).config(),
            step_outcome(
                old(self).config(),
                old(self).fans(),
                old(self).issued(),
                final(self).issued(),
                previous_temp,
                observed,
                r,
            ),
    {
        match self.control_config.decide(previous_temp, observed) {
            Ok(ControlDecision::Hold) => Ok(previous_temp),
            Ok(ControlDecision::Commit { duty }) => {
                let plan = duty_plan(self.fan_count, duty);
                let (outcome, sent) = send_all(&self.nvml, &plan);
                self.issued = Ghost(self.issued@ + sent@);
                proof {
                    if outcome is Err {
                        let k = choose|k: int|
                            0 <= k <= plan@.len() && sent@ == #[trigger] plan@.take(k);
                        assert(self.issued() == old(self).issued() + plan@.take(k));
                    }
                }
                match outcome {
                    Ok(()) => Ok(observed),
                    Err(e) => Err(e),
                }
            },
            Err(fault) => Err(
                SessionError::new(FaultKind::Control(fault), fault.message()),
            ),
        }
    }

    /// Reads the temperature and carries out one control step for it.
    /// Returns the temperature that the next step starts from: the old one
    /// where nothing was sent, the newly read one where the fans were set.
    /// Where the temperature cannot be read, the failure names that read and
    /// nothing is sent; otherwise the result and the commands sent are those
    /// of the step for the temperature that was read.
    pub fn set_duty_with_curve(&mut self, previous_temp: u32) -> (r: Result<u32, SessionError>)
        ensures
            final(self).persistent() == old(self).persistent(),
            final(self).fans() == old(self).fans(),
            final(self).config() == old(self).config(),
            (r matches Err(e) && names_temperature_read(e) && final(self).issued() == old(self).issued())
                || (exists|observed: u32| #[trigger]
                step_outcome(
                    old(self).config(),
                    old(self).fans(),
                    old(self).issued(),
                    final(self).issued(),
                    previous_temp,
                    observed,
                    r,
                )),
    {
        let observed = match probe_temperature(&self.nvml) {
            Ok(observed) => observed,
            Err(e) => {
                return Err(e);
            },
        };
        self.apply_step(previous_temp, observed)
    }

    /// Closes the session's hold on the fans: every fan, from index 0 up to
    /// the last, is sent one command that hands it back to the device's own
    /// control. Stops at the first command that the device refuses; the
    /// caller must not carry on as if the fans were safe.
    pub fn restore_automatic_fans(&mut self) -> (r: Result<(), SessionError>)
        ensures
            final(self).persistent() == old(self).persistent(),
            final(self).fans() == old(self).fans(),
            final(self).config() == old(self).config(),
            match r {
                Ok(_) => final(self).issued() == old(self).issued() + restore_commands(
                    old(self).fans(),
                ),
                Err(e) => e.is_device_fault() && stopped_within(
                    old(self).issued(),
                    restore_commands(old(self).fans()),
                    final(self).issued(),
                ),
            },
    {
        let plan = restore_plan(self.fan_count);
        let (outcome, sent) = send_all(&self.nvml, &plan);
        self.issued = Ghost(self.issued@ + sent@);
        proof {
            if outcome is Err {
                let k = choose|k: int| 0 <= k <= plan@.len() && sent@ == #[trigger] plan@.take(k);
                assert(self.issued() == old(self).issued() + plan@.take(k));
            }
        }
        outcome
    }
}

} // verus!
