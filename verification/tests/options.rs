use mvnc::device::get_thermal_throttling_level;
use mvnc::device::ThermalThrottlingLevel;
use mvnc::graph::get_blocking;
use mvnc::graph::get_debug_info;
use mvnc::graph::get_time_taken;
use mvnc::graph::set_blocking_code;
use mvnc::graph::Blocking;
use mvnc::log::get_log_level;
use mvnc::log::set_log_level_code;
use mvnc::log::LogLevel;
use mvnc::Error;

#[test]
fn blocking_mode_round_trips() {
    let v = set_blocking_code(&Blocking::Block);
    assert_eq!(v, 0);
    assert_eq!(get_blocking(0, v, 4), Ok(Blocking::Block));
    let v = set_blocking_code(&Blocking::DontBlock);
    assert_eq!(v, 1);
    assert_eq!(get_blocking(0, v, 4), Ok(Blocking::DontBlock));
}

#[test]
fn unexpected_blocking_value_is_unknown() {
    assert_eq!(get_blocking(0, 2, 4), Err(Error::Unknown));
    assert_eq!(get_blocking(0, -1, 4), Err(Error::Unknown));
}

#[test]
fn failing_blocking_query_is_translated() {
    assert_eq!(get_blocking(-9, 0, 4), Err(Error::Gone));
}

#[test]
fn log_level_round_trips() {
    for level in [LogLevel::Off, LogLevel::Error, LogLevel::Verbose] {
        let v = set_log_level_code(&level);
        assert_eq!(get_log_level(0, v, 4), Ok(level));
    }
    assert_eq!(set_log_level_code(&LogLevel::Off), 0);
    assert_eq!(set_log_level_code(&LogLevel::Error), 1);
    assert_eq!(set_log_level_code(&LogLevel::Verbose), 2);
}

#[test]
fn unexpected_log_level_value_is_unknown() {
    assert_eq!(get_log_level(0, 3, 4), Err(Error::Unknown));
    assert_eq!(get_log_level(0, -1, 4), Err(Error::Unknown));
}

#[test]
fn failing_log_level_query_is_translated() {
    assert_eq!(get_log_level(-6, 0, 4), Err(Error::Timeout));
}

#[test]
fn thermal_level_values_decode() {
    assert_eq!(get_thermal_throttling_level(0, 0, 4), Ok(ThermalThrottlingLevel::Normal));
    assert_eq!(
        get_thermal_throttling_level(0, 1, 4),
        Ok(ThermalThrottlingLevel::TemperatureLimitLowerReached)
    );
    assert_eq!(
        get_thermal_throttling_level(0, 2, 4),
        Ok(ThermalThrottlingLevel::TemperatureLimitHigherReached)
    );
}

#[test]
fn unexpected_thermal_level_value_is_unknown() {
    assert_eq!(get_thermal_throttling_level(0, 3, 4), Err(Error::Unknown));
    assert_eq!(get_thermal_throttling_level(0, -1, 4), Err(Error::Unknown));
}

#[test]
fn failing_thermal_query_is_translated() {
    assert_eq!(get_thermal_throttling_level(-2, 0, 4), Err(Error::DeviceError));
}

#[test]
fn time_taken_counts_whole_stage_durations() {
    // 48 bytes of 4-byte floats: twelve stages
    assert_eq!(get_time_taken(0, 48), Ok(12));
    assert_eq!(get_time_taken(0, 0), Ok(0));
    assert_eq!(get_time_taken(-11, 48), Err(Error::DeviceReportedError));
}

#[test]
fn debug_info_is_the_text_before_the_terminator() {
    assert_eq!(get_debug_info(0, b"stage 3 failed\0junk"), Ok(String::from("stage 3 failed")));
}

#[test]
fn unterminated_debug_info_is_unknown() {
    assert_eq!(get_debug_info(0, b"no terminator"), Err(Error::Unknown));
}

#[test]
fn failing_debug_info_query_is_translated() {
    assert_eq!(get_debug_info(-1, b"\0"), Err(Error::Busy));
}
