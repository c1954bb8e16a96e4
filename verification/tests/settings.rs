use lounge_memo::settings::Settings;

#[test]
fn test_settings_accessors() {
    let s = Settings::new("OBS-Camera".to_string(), true, "INFO".to_string(), false);
    assert_eq!(s.device_name(), "OBS-Camera");
    assert!(s.directshow());
    assert_eq!(s.log_level(), "INFO");
    assert!(!s.write_log_to_file());
    let c = s.clone();
    assert_eq!(c.device_name(), "OBS-Camera");
}
