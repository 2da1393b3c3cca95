use rustsdlretro_core::core_options::{
    parse_old_variable_string, supports_v2, CoreOptionDefinition, CoreOptionValue, CoreOptions, CoreOptionsV1,
    OptionValues, V1_API_VERSION, V2_API_VERSION,
};

fn def(key: &str, values: &[&str], default: Option<&str>) -> CoreOptionDefinition {
    CoreOptionDefinition {
        key: key.to_string(),
        desc: format!("{} option", key),
        info: None,
        values: values.iter().map(|v| CoreOptionValue { value: v.to_string(), label: None }).collect(),
        default_value: default.map(|d| d.to_string()),
    }
}

#[test]
fn old_variable_string_is_split() {
    let (title, values) = parse_old_variable_string("Frameskip; disabled|auto|1|2").unwrap();
    assert_eq!(title, "Frameskip");
    assert_eq!(values, vec!["disabled", "auto", "1", "2"]);
    let (title, values) = parse_old_variable_string("T;   only").unwrap();
    assert_eq!(title, "T");
    assert_eq!(values, vec!["only"]);
    assert_eq!(parse_old_variable_string("no separator"), None);
    assert_eq!(parse_old_variable_string("Title;"), None);
    assert_eq!(parse_old_variable_string("Title;   "), None);
    let (_, values) = parse_old_variable_string("X;a||b").unwrap();
    assert_eq!(values, vec!["a", "", "b"]);
}

#[test]
fn option_values_read_back_latest() {
    let mut v = OptionValues::new();
    assert_eq!(v.get("k"), None);
    v.set("k", "1");
    v.set("j", "2");
    v.set("k", "3");
    assert_eq!(v.get("k"), Some("3".to_string()));
    assert_eq!(v.get("j"), Some("2".to_string()));
    assert_eq!(v.get("x"), None);
}

#[test]
fn current_value_prefers_menu_then_old_then_default() {
    let mut co = CoreOptions::from_v2(vec![def("video", &["a", "b"], Some("b")), def("odd", &["x"], Some("zz"))]);
    assert!(co.supports_v2);
    assert_eq!(co.get_current_value("video"), Some("b".to_string()));
    assert_eq!(co.get_current_value("odd"), None);
    assert_eq!(co.get_current_value("missing"), None);
    co.set_old_value("video", "old");
    assert_eq!(co.get_current_value("video"), Some("old".to_string()));
    co.set_v2_value("video", "a");
    assert_eq!(co.get_current_value("video"), Some("a".to_string()));
    co.set_old_value("video", "later");
    assert_eq!(co.get_current_value("video"), Some("a".to_string()));
    assert_eq!(co.definitions().unwrap().len(), 2);
}

#[test]
fn v1_options_use_v1_definitions() {
    let co = CoreOptions::from_v1(vec![def("speed", &["1", "2"], Some("2"))]);
    assert!(!co.supports_v2);
    assert_eq!(co.definitions().unwrap()[0].key, "speed");
    assert_eq!(co.get_current_value("speed"), Some("2".to_string()));
}

#[test]
fn set_variables_declares_old_style_options() {
    let mut co = CoreOptions::from_v1(Vec::new());
    co.set_variables(&[
        ("snes_speed".to_string(), Some("Speed; normal|fast".to_string())),
        ("broken".to_string(), Some("no list".to_string())),
        ("skipped".to_string(), None),
        ("snes_region".to_string(), Some("Region; auto|ntsc|pal".to_string())),
    ]);
    assert_eq!(co.old_variable_keys(), vec!["snes_speed".to_string(), "snes_region".to_string()]);
    assert_eq!(co.get_current_value("snes_speed"), Some("normal".to_string()));
    assert_eq!(co.get_current_value("snes_region"), Some("auto".to_string()));
    assert_eq!(co.old_vars[1].values, vec!["auto", "ntsc", "pal"]);
}

#[test]
fn options_api_versions() {
    assert!(supports_v2(V2_API_VERSION));
    assert!(!supports_v2(V1_API_VERSION));
    assert!(!supports_v2(0));
    assert!(supports_v2(3));
}

#[test]
fn definitions_fall_back_to_v1() {
    let co = CoreOptions {
        supports_v2: true,
        v2: None,
        v1: Some(CoreOptionsV1 { definitions: vec![def("speed", &["1", "2"], Some("1"))] }),
        old_vars: Vec::new(),
        old_values: OptionValues::new(),
        v2_values: OptionValues::new(),
    };
    assert_eq!(co.definitions().unwrap()[0].key, "speed");
    assert_eq!(co.get_current_value("speed"), Some("1".to_string()));
}
