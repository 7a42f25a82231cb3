use micrec::cli::{plan_cli, CliPlan};
use micrec::config::{config_is_default, SampleFormat, StreamConfig, SupportedConfigRange};

#[test]
fn no_arguments_lists_devices() {
    assert!(matches!(plan_cli(None, None), CliPlan::ListDevices));
}

#[test]
fn only_device_is_a_usage_error() {
    assert!(matches!(plan_cli(Some("mic".to_string()), None), CliPlan::UsageError));
}

#[test]
fn only_file_is_a_usage_error() {
    assert!(matches!(plan_cli(None, Some("out.wav".to_string())), CliPlan::UsageError));
}

#[test]
fn both_arguments_record() {
    match plan_cli(Some("mic".to_string()), Some("out.wav".to_string())) {
        CliPlan::Record { device_query, file } => {
            assert_eq!(device_query, "mic");
            assert_eq!(file, "out.wav");
        },
        _ => panic!("expected a record plan"),
    }
}

#[test]
fn default_config_detection() {
    let default = StreamConfig { channels: 2, sample_rate: 44100, sample_format: SampleFormat::F32 };
    let covers = SupportedConfigRange {
        channels: 2,
        min_sample_rate: 8000,
        max_sample_rate: 48000,
        sample_format: SampleFormat::F32,
    };
    assert!(config_is_default(&covers, &default));
    let wrong_format = SupportedConfigRange { sample_format: SampleFormat::I16, ..covers };
    assert!(!config_is_default(&wrong_format, &default));
    let too_low = SupportedConfigRange { max_sample_rate: 22050, ..covers };
    assert!(!config_is_default(&too_low, &default));
    let wrong_channels = SupportedConfigRange { channels: 1, ..covers };
    assert!(!config_is_default(&wrong_channels, &default));
}
