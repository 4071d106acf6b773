//! Fan control for a single discrete GPU: the fan-curve compiler, the
//! hysteresis-gated control step, the device session and the snapshot
//! protocol of the daemon, with their contracts.

pub mod config;
pub mod control;
pub mod curve_map;
pub mod curve_proofs;
pub mod device;
pub mod error;
pub mod fan_curve;
pub mod gpu_manager;
pub mod protocol;
pub mod types;

pub use config::{ConfigError, ResponseTime, TjaeleControlConfig};
pub use control::{ControlDecision, ControlFault, ControlLoopState, LoopAction};
pub use error::{FaultKind, SessionError};
pub use fan_curve::FanCurvePoint;
pub use gpu_manager::{FanCommand, GpuManager};
pub use protocol::{Route, SnapshotResponse};
pub use types::{
    ClockSpeeds, CudaComputeCapability, CudaVersion, FanControlPolicy, FanState, GpuArchitecture,
    GpuMemStats, GpuState, GpuTemperatureThresholds, MinMaxFanSpeeds, PCIeLink,
    PersistentGpuParams, ProbeTime, RuntimeGpuParams, SysInfo,
};
