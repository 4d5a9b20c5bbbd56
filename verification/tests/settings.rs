use step_registry::settings::Settings;

#[test]
fn default_settings_are_empty() {
    let settings = Settings::default();
    assert!(!settings.version_check);
    assert_eq!(settings.ubuntu_mirror, "");
    assert!(settings.uid_map.is_none());
}

#[test]
fn settings_keep_their_id_ranges_when_cloned() {
    let settings = Settings {
        version_check: true,
        ubuntu_mirror: "http://mirror.example.org/ubuntu".to_string(),
        uid_map: Some((vec![(0, 1000, 1), (1, 100000, 65535)], vec![(0, 1000, 1)])),
    };
    let copy = settings.clone();
    assert!(copy.version_check);
    assert_eq!(copy.ubuntu_mirror, settings.ubuntu_mirror);
    assert_eq!(copy.uid_map, settings.uid_map);
}
