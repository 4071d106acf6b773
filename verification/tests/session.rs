use tjaele::config::{ConfigError, ResponseTime};
use tjaele::error::FaultKind;
use tjaele::gpu_manager::{
    check_device_count, cuda_version_of, duty_plan, restore_plan, FanCommand, GpuManager,
};
use tjaele::types::{CudaVersion, FanControlPolicy, PCIeLink};

fn one_second() -> ResponseTime {
    ResponseTime { secs: 1, subsec_nanos: 0 }
}

#[test]
fn exactly_one_device_is_supported() {
    assert!(check_device_count(1).is_ok());
    for count in [0u32, 2, 3, u32::MAX] {
        let error = check_device_count(count).expect_err("only one device is supported");
        assert_eq!(error.kind, FaultKind::DeviceCount);
        assert_eq!(
            error.chain,
            vec!["nvmlcontrol currently supports platforms with one GPU only".to_string()]
        );
    }
}

#[test]
fn invalid_settings_are_reported_before_the_device_is_opened() {
    let points = vec![(20, 20), (50, 50), (80, 100)];
    let cases: Vec<(ResponseTime, u16, Vec<(u8, u8)>, ConfigError)> = vec![
        (one_second(), 0, points.clone(), ConfigError::HysteresisOutOfRange),
        (one_second(), 6, points.clone(), ConfigError::HysteresisOutOfRange),
        (
            ResponseTime { secs: 0, subsec_nanos: 100_000_000 },
            3,
            points.clone(),
            ConfigError::ResponseTimeTooShort,
        ),
        (one_second(), 3, vec![(20, 20), (50, 50)], ConfigError::TooFewPoints),
        (one_second(), 3, vec![(20, 20), (50, 50), (80, 101)], ConfigError::DutyTooHigh),
        (one_second(), 3, vec![(20, 20), (50, 50), (50, 60)], ConfigError::DuplicateTemperature),
        (one_second(), 3, vec![(20, 20), (50, 10), (80, 100)], ConfigError::DecreasingDuty),
    ];
    for (response_time, hysteresis, points, rule) in cases {
        match GpuManager::init(response_time, hysteresis, &points) {
            Ok(_) => panic!("the settings break a rule"),
            Err(error) => {
                assert_eq!(error.kind, FaultKind::Config(rule));
                assert_eq!(error.chain, vec![rule.message().to_string()]);
            },
        }
    }
}

#[test]
fn valid_settings_fail_only_on_the_device() {
    let points = vec![(20, 20), (50, 50), (80, 100)];
    match GpuManager::init(one_second(), 3, &points) {
        Ok(session) => {
            assert_eq!(session.control_config().duty_at(35), Some(35));
            assert_eq!(session.response_time(), one_second());
        },
        Err(error) => {
            assert!(error.kind == FaultKind::Device || error.kind == FaultKind::DeviceCount);
            assert!(!error.chain.is_empty());
        },
    }
}

#[test]
fn policy_numbers_are_told_apart() {
    assert_eq!(FanControlPolicy::from(0), FanControlPolicy::Automatic);
    assert_eq!(FanControlPolicy::from(1), FanControlPolicy::Manual);
    assert_eq!(FanControlPolicy::from(2), FanControlPolicy::Unknown);
    assert_eq!(FanControlPolicy::from(u32::MAX), FanControlPolicy::Unknown);
    assert_eq!(FanControlPolicy::Automatic.name(), "Automatic");
    assert_eq!(FanControlPolicy::Manual.name(), "Manual");
    assert_eq!(FanControlPolicy::Unknown.name(), "Unknown");
}

#[test]
fn link_speed_is_scaled_to_transfers_per_second() {
    let link = PCIeLink::from_megatransfers(4, 16, 16000);
    assert_eq!(link, PCIeLink { gen: 4, width: 16, speed: 16_000_000_000 });
    let fastest = PCIeLink::from_megatransfers(5, 16, u32::MAX);
    assert_eq!(fastest.speed, 4_294_967_295_000_000);
}

#[test]
fn driver_version_number_is_taken_apart() {
    assert_eq!(cuda_version_of(12040), CudaVersion { major: 12, minor: 4 });
    assert_eq!(cuda_version_of(11080), CudaVersion { major: 11, minor: 8 });
    assert_eq!(cuda_version_of(9000), CudaVersion { major: 9, minor: 0 });
    assert_eq!(cuda_version_of(0), CudaVersion { major: 0, minor: 0 });
    assert_eq!(cuda_version_of(12999), CudaVersion { major: 12, minor: 99 });
    assert_eq!(cuda_version_of(-12040), CudaVersion { major: -12, minor: -4 });
    assert_eq!(cuda_version_of(-5), CudaVersion { major: 0, minor: 0 });
}

#[test]
fn every_fan_is_restored_once_in_rising_order() {
    assert_eq!(
        restore_plan(3),
        vec![
            FanCommand::RestoreAutomatic { fan: 0 },
            FanCommand::RestoreAutomatic { fan: 1 },
            FanCommand::RestoreAutomatic { fan: 2 },
        ]
    );
    assert_eq!(restore_plan(1), vec![FanCommand::RestoreAutomatic { fan: 0 }]);
    assert!(restore_plan(0).is_empty());
    let many = restore_plan(40);
    assert_eq!(many.len(), 40);
    for (i, command) in many.iter().enumerate() {
        assert_eq!(*command, FanCommand::RestoreAutomatic { fan: i as u32 });
    }
}

#[test]
fn every_fan_is_set_to_the_same_duty() {
    assert_eq!(
        duty_plan(2, 57),
        vec![FanCommand::SetDuty { fan: 0, duty: 57 }, FanCommand::SetDuty { fan: 1, duty: 57 }]
    );
    assert!(duty_plan(0, 100).is_empty());
}
