use timesnapper_checker::config::{
    blank_max_filesize_bytes, get_blank_max_filesize_from_confy, get_path_from_confy,
    get_property_from_timesnapper_ini, save_to_confy, Configuration, MyConfig,
    DEFAULT_BLANK_MAX_FILESIZE, UNKNOWN_INTERVAL_SECONDS,
};
use timesnapper_checker::error::ScanError;

fn stored(path: &str, limit: &str) -> Option<MyConfig> {
    Some(MyConfig { path: path.to_string(), blank_max_filesize: limit.to_string() })
}

#[test]
fn default_settings() {
    let settings = MyConfig::default();
    assert_eq!(settings.path, "");
    assert_eq!(settings.blank_max_filesize, "80000");
}

#[test]
fn path_of_stored_settings() {
    assert_eq!(get_path_from_confy(&stored("C:\\ts\\Settings.ini", "5")), "C:\\ts\\Settings.ini");
    assert_eq!(get_path_from_confy(&None), "");
}

#[test]
fn limit_of_stored_settings() {
    assert_eq!(get_blank_max_filesize_from_confy(&stored("x", "12345")), "12345");
    assert_eq!(get_blank_max_filesize_from_confy(&None), "80000");
}

#[test]
fn settings_to_store() {
    assert_eq!(save_to_confy("C:\\a.ini", "70000"), stored("C:\\a.ini", "70000").unwrap());
}

#[test]
fn limit_in_bytes() {
    assert_eq!(blank_max_filesize_bytes("12345"), 12345);
    assert_eq!(blank_max_filesize_bytes("0"), 0);
    assert_eq!(blank_max_filesize_bytes(""), 80000);
    assert_eq!(blank_max_filesize_bytes("eighty"), 80000);
    assert_eq!(blank_max_filesize_bytes("99999999999999999999"), 80000);
    assert_eq!(DEFAULT_BLANK_MAX_FILESIZE, 80000);
}

#[test]
fn property_of_the_general_section() {
    let text = "Path=C:\\Snapshots\nInterval=60\n";
    assert_eq!(get_property_from_timesnapper_ini(text, "Path"), Ok("C:\\Snapshots".to_string()));
    assert_eq!(get_property_from_timesnapper_ini(text, "Interval"), Ok("60".to_string()));
}

#[test]
fn backslashes_are_kept() {
    let text = "Path=C:\\Users\\me\\new\\table\n";
    assert_eq!(
        get_property_from_timesnapper_ini(text, "Path"),
        Ok("C:\\Users\\me\\new\\table".to_string())
    );
}

#[test]
fn first_value_of_a_repeated_property() {
    let text = "Path=first\nPath=second\n";
    assert_eq!(get_property_from_timesnapper_ini(text, "Path"), Ok("first".to_string()));
}

#[test]
fn missing_property_is_a_missing_configuration() {
    let text = "Interval=60\n";
    assert_eq!(
        get_property_from_timesnapper_ini(text, "Path"),
        Err(ScanError::ConfigurationMissing)
    );
    assert_eq!(get_property_from_timesnapper_ini("", "Path"), Err(ScanError::ConfigurationMissing));
}

#[test]
fn property_of_another_section_is_not_seen() {
    let text = "[Capture]\nPath=C:\\Snapshots\n";
    assert_eq!(
        get_property_from_timesnapper_ini(text, "Path"),
        Err(ScanError::ConfigurationMissing)
    );
}

#[test]
fn text_that_does_not_parse_is_a_missing_configuration() {
    let text = "[Capture\nPath=C:\\Snapshots\n";
    assert_eq!(
        get_property_from_timesnapper_ini(text, "Path"),
        Err(ScanError::ConfigurationMissing)
    );
}

#[test]
fn configuration_from_properties() {
    let config = Configuration::from_properties(
        Some("C:\\Snapshots".to_string()),
        Some("30".to_string()),
        70000,
    );
    assert_eq!(
        config,
        Ok(Configuration {
            snapshot_root_path: "C:\\Snapshots".to_string(),
            undersized_byte_threshold: 70000,
            capture_interval_seconds: 30,
        })
    );
}

#[test]
fn configuration_without_a_path() {
    assert_eq!(
        Configuration::from_properties(None, Some("30".to_string()), 1),
        Err(ScanError::ConfigurationMissing)
    );
    assert_eq!(
        Configuration::from_properties(Some(String::new()), Some("30".to_string()), 1),
        Err(ScanError::ConfigurationMissing)
    );
}

#[test]
fn configuration_without_an_interval() {
    let missing = Configuration::from_properties(Some("/snaps".to_string()), None, 1).unwrap();
    assert_eq!(missing.capture_interval_seconds, 999);
    let unreadable =
        Configuration::from_properties(Some("/snaps".to_string()), Some("soon".to_string()), 1)
            .unwrap();
    assert_eq!(unreadable.capture_interval_seconds, UNKNOWN_INTERVAL_SECONDS);
}

#[test]
fn configuration_from_the_settings_file() {
    let text = "; capture tool\nPath=D:\\Shots\nInterval=120\n[Other]\nPath=elsewhere\n";
    assert_eq!(
        Configuration::from_ini(text, 80000),
        Ok(Configuration {
            snapshot_root_path: "D:\\Shots".to_string(),
            undersized_byte_threshold: 80000,
            capture_interval_seconds: 120,
        })
    );
    assert_eq!(Configuration::from_ini("Interval=5\n", 80000), Err(ScanError::ConfigurationMissing));
    assert_eq!(Configuration::from_ini("[broken", 80000), Err(ScanError::ConfigurationMissing));
}

#[test]
fn byte_order_mark_is_no_part_of_the_text() {
    let text = "\u{feff}Path=C:\\Snapshots\n";
    assert_eq!(get_property_from_timesnapper_ini(text, "Path"), Ok("C:\\Snapshots".to_string()));
    assert_eq!(
        Configuration::from_ini(text, 1).map(|config| config.snapshot_root_path),
        Ok("C:\\Snapshots".to_string())
    );
}
