use micrec::device::find_first_match;
use micrec::errors::RecError;

fn names(v: &[&str]) -> Vec<String> {
    v.iter().map(|s| s.to_string()).collect()
}

#[test]
fn first_match_in_enumeration_order_wins() {
    let devices = names(&["USB Mic", "Built-in Microphone"]);
    assert_eq!(find_first_match(&devices, "mic"), Ok(0));
}

#[test]
fn query_is_lowercased() {
    let devices = names(&["usb mic"]);
    assert_eq!(find_first_match(&devices, "MIC"), Ok(0));
}

#[test]
fn device_name_is_lowercased() {
    let devices = names(&["USB MIC"]);
    assert_eq!(find_first_match(&devices, "mic"), Ok(0));
}

#[test]
fn skips_non_matching_names() {
    let devices = names(&["Webcam", "Built-in Microphone"]);
    assert_eq!(find_first_match(&devices, "mic"), Ok(1));
}

#[test]
fn no_match_is_an_error() {
    let devices = names(&["Webcam", "Speakers"]);
    assert_eq!(find_first_match(&devices, "mic"), Err(RecError::NoMatchingDevice));
}

#[test]
fn empty_query_matches_first_device() {
    let devices = names(&["Anything"]);
    assert_eq!(find_first_match(&devices, ""), Ok(0));
}

#[test]
fn no_devices_is_an_error() {
    let devices: Vec<String> = Vec::new();
    assert_eq!(find_first_match(&devices, "mic"), Err(RecError::NoMatchingDevice));
}

#[test]
fn error_messages_are_nonempty_and_distinct() {
    let errors = [
        RecError::EnumerationError,
        RecError::NoMatchingDevice,
        RecError::UnsupportedFormat,
        RecError::IoError,
        RecError::StreamError,
    ];
    for (i, a) in errors.iter().enumerate() {
        assert!(!a.message().is_empty());
        for b in errors.iter().skip(i + 1) {
            assert_ne!(a.message(), b.message());
        }
    }
}
