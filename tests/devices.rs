use faloops::device::{resolve_device, select_device, DeviceChoice};
use faloops::Error;

fn names(list: &[Option<&str>]) -> Vec<Option<String>> {
    list.iter().map(|n| n.map(|s| s.to_string())).collect()
}

#[test]
fn no_request_takes_default_device() {
    let r = resolve_device(None, &names(&[Some("HDMI")]), true).unwrap();
    assert_eq!(r.choice, DeviceChoice::Default);
    assert!(!r.fell_back);
    assert!(r.unreadable.is_empty());
}

#[test]
fn no_request_and_no_devices_fails() {
    match resolve_device(None, &names(&[]), false) {
        Err(Error::DevicesError(m)) => assert_eq!(m, "no output device available"),
        other => panic!("unexpected {other:?}"),
    }
}

#[test]
fn requested_name_matches_case_insensitively() {
    let list = names(&[Some("HDMI Output"), None, Some("USB Speakers"), Some("usb speakers")]);
    let r = resolve_device(Some("usb SPEAKERS"), &list, true).unwrap();
    assert_eq!(r.choice, DeviceChoice::Named(2));
    assert!(!r.fell_back);
    assert_eq!(r.unreadable, vec![1]);
}

#[test]
fn requested_name_with_non_ascii_letters_matches() {
    let list = names(&[Some("Écran Intégré")]);
    let r = resolve_device(Some("ÉCRAN INTÉGRÉ"), &list, false).unwrap();
    assert_eq!(r.choice, DeviceChoice::Named(0));
}

#[test]
fn unmatched_name_falls_back_to_default() {
    let list = names(&[Some("HDMI"), None]);
    let r = resolve_device(Some("Headphones"), &list, true).unwrap();
    assert_eq!(r.choice, DeviceChoice::Default);
    assert!(r.fell_back);
    assert_eq!(r.unreadable, vec![1]);
}

#[test]
fn unmatched_name_without_default_fails() {
    match resolve_device(Some("Headphones"), &names(&[Some("HDMI")]), false) {
        Err(Error::DevicesError(m)) => assert_eq!(
            m,
            "could not set \"Headphones\" as output device\nno output devices found."
        ),
        other => panic!("unexpected {other:?}"),
    }
}

#[test]
fn requested_name_with_zero_devices_fails() {
    assert!(matches!(
        resolve_device(Some("anything"), &names(&[]), false),
        Err(Error::DevicesError(_))
    ));
}

#[test]
fn requested_name_with_zero_devices_but_default_falls_back() {
    let r = resolve_device(Some("anything"), &names(&[]), true).unwrap();
    assert_eq!(r.choice, DeviceChoice::Default);
    assert!(r.fell_back);
}

#[test]
fn select_device_compares_folded_forms_exactly() {
    let list = names(&[Some("a"), Some("b"), Some("b")]);
    let r = select_device("B", &"b".to_string(), &list, false).unwrap();
    assert_eq!(r.choice, DeviceChoice::Named(1));
    assert!(select_device("B", &"B".to_string(), &list, true).unwrap().fell_back);
}

#[test]
fn unmatched_name_is_quoted_and_escaped_in_error() {
    match resolve_device(Some("a\"b\\c\n"), &names(&[Some("HDMI")]), false) {
        Err(Error::DevicesError(m)) => assert_eq!(
            m,
            "could not set \"a\\\"b\\\\c\\n\" as output device\nno output devices found."
        ),
        other => panic!("unexpected {other:?}"),
    }
}
