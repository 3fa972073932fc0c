use acpi_client::{get_ac_adapter_info, parse_online_status, ACAdapterInfo, AcpiClientError, DeviceDir, Status};

fn device(path: &str, files: &[(&str, &str)]) -> DeviceDir {
    let mut d = DeviceDir::new(String::from(path));
    for (name, contents) in files {
        d.add_file(String::from(*name), String::from(*contents));
    }
    d
}

#[test]
fn verify_mock_file_parse() {
    let acad = device("/tmp/mock/ACAD", &[("type", "Mains\n"), ("online", "1\n")]);
    let adapters = get_ac_adapter_info(&vec![acad]);
    assert!(adapters.is_ok());
    assert_eq!(adapters.unwrap().len(), 1);
}

#[test]
fn parse_mock_adapter() {
    let mock = device("/tmp/mock/ACAD", &[("type", "Mains\n"), ("online", "1\n")]);
    let acad = ACAdapterInfo::new(&mock).unwrap();
    assert_eq!(acad.name, String::from("ACAD"));
    assert_eq!(acad.status, Status::Online);
}

#[test]
fn adapter_offline() {
    let mock = device("/sys/class/power_supply/AC0", &[("type", "Mains"), ("online", " 0 \n")]);
    let ac = ACAdapterInfo::new(&mock).unwrap();
    assert_eq!(ac.name, String::from("AC0"));
    assert_eq!(ac.status, Status::Offline);
}

#[test]
fn adapter_unexpected_online_value() {
    let mock = device("/sys/class/power_supply/AC0", &[("type", "Mains"), ("online", "2\n")]);
    let err = ACAdapterInfo::new(&mock).unwrap_err();
    assert_eq!(err, AcpiClientError::InvalidInput(String::from("2")));
}

#[test]
fn adapter_missing_online_file() {
    let mock = device("/sys/class/power_supply/AC0", &[("type", "Mains")]);
    let err = ACAdapterInfo::new(&mock).unwrap_err();
    assert_eq!(err, AcpiClientError::Io(String::from("online")));
}

#[test]
fn adapter_unreadable_online_file() {
    let mut mock = device("/sys/class/power_supply/AC0", &[("type", "Mains")]);
    mock.add_unreadable(String::from("online"));
    let err = ACAdapterInfo::new(&mock).unwrap_err();
    assert_eq!(err, AcpiClientError::Io(String::from("online")));
}

#[test]
fn online_status_texts() {
    assert_eq!(parse_online_status("1"), Ok(Status::Online));
    assert_eq!(parse_online_status("0"), Ok(Status::Offline));
    assert_eq!(
        parse_online_status("yes"),
        Err(AcpiClientError::InvalidInput(String::from("yes")))
    );
}

#[test]
fn adapter_query_skips_batteries_and_broken_adapters() {
    let bat = device("/p/BAT0", &[("type", "Battery"), ("online", "1")]);
    let good = device("/p/AC", &[("type", "Mains"), ("online", "1")]);
    let broken = device("/p/USB", &[("type", "USB"), ("online", "unknown")]);
    let adapters = get_ac_adapter_info(&vec![bat, good, broken]).unwrap();
    assert_eq!(adapters.len(), 1);
    assert_eq!(adapters[0].name, String::from("AC"));
}

#[test]
fn adapter_without_type_is_not_a_battery() {
    let untyped = device("/p/ACAD", &[("online", "1")]);
    let bat = device("/p/BAT0", &[("type", "Battery")]);
    assert_eq!(
        get_ac_adapter_info(&vec![bat, untyped]).unwrap_err(),
        AcpiClientError::Io(String::from("type"))
    );
}
