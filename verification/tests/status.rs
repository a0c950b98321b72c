use mvnc::into_result;
use mvnc::Error;

#[test]
fn success_translates_to_ok() {
    assert_eq!(into_result(0), Ok(()));
}

#[test]
fn documented_codes_translate_to_their_errors() {
    assert_eq!(into_result(-1), Err(Error::Busy));
    assert_eq!(into_result(-2), Err(Error::DeviceError));
    assert_eq!(into_result(-3), Err(Error::OutOfMemory));
    assert_eq!(into_result(-4), Err(Error::DeviceNotFound));
    assert_eq!(into_result(-5), Err(Error::InvalidParameters));
    assert_eq!(into_result(-6), Err(Error::Timeout));
    assert_eq!(into_result(-7), Err(Error::BootFileNotFound));
    assert_eq!(into_result(-8), Err(Error::NoData));
    assert_eq!(into_result(-9), Err(Error::Gone));
    assert_eq!(into_result(-10), Err(Error::UnsupportedGraphFile));
    assert_eq!(into_result(-11), Err(Error::DeviceReportedError));
}

#[test]
fn undocumented_codes_translate_to_unknown() {
    assert_eq!(into_result(-12), Err(Error::Unknown));
    assert_eq!(into_result(-100), Err(Error::Unknown));
    assert_eq!(into_result(1), Err(Error::Unknown));
    assert_eq!(into_result(i32::MIN), Err(Error::Unknown));
    assert_eq!(into_result(i32::MAX), Err(Error::Unknown));
}
