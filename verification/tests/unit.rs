use olo_rust::{set_log_level, set_log_level_by_name};
use olo_rust::{ConfigError, Double, EngineCall, EngineConfiguration, OLOUnit, DEFAULT_SINK};

#[test]
fn test_set_olo_unit() {
    let mut config = EngineConfiguration::new();
    // Set all messages to go to stdout (unit 6)
    let print_all = set_log_level(&mut config, OLOUnit::PrintAll, None);
    let message = set_log_level(&mut config, OLOUnit::Message, None);
    let warning = set_log_level(&mut config, OLOUnit::Warning, None);
    // Just to verify we can call it without crashing
    println!("Successfully called set_unit via FFI");

    assert_eq!(print_all, EngineCall::SetUnit { unit: OLOUnit::PrintAll, sink: 6 });
    assert_eq!(message, EngineCall::SetUnit { unit: OLOUnit::Message, sink: 6 });
    assert_eq!(warning, EngineCall::SetUnit { unit: OLOUnit::Warning, sink: 6 });
    assert_eq!(config.sink(OLOUnit::PrintAll), Some(6));
    assert_eq!(config.sink(OLOUnit::Message), Some(6));
    assert_eq!(config.sink(OLOUnit::Warning), Some(6));
    assert_eq!(config.sink(OLOUnit::Error), None);
}

#[test]
fn standard_output_is_sink_six() {
    assert_eq!(DEFAULT_SINK, 6);
}

#[test]
fn a_sink_that_is_given_is_taken() {
    let mut config = EngineConfiguration::new();
    let call = set_log_level(&mut config, OLOUnit::Error, Some(0));
    assert_eq!(call, EngineCall::SetUnit { unit: OLOUnit::Error, sink: 0 });
    assert!(!call.evaluates());
    assert_eq!(config.sink(OLOUnit::Error), Some(0));
    let call = set_log_level(&mut config, OLOUnit::Error, Some(-1));
    assert_eq!(call, EngineCall::SetUnit { unit: OLOUnit::Error, sink: -1 });
    assert_eq!(config.sink(OLOUnit::Error), Some(-1));
    let call = set_log_level(&mut config, OLOUnit::Error, Some(i32::MAX));
    assert_eq!(call, EngineCall::SetUnit { unit: OLOUnit::Error, sink: i32::MAX });
    assert_eq!(config.sink(OLOUnit::Error), Some(i32::MAX));
}

#[test]
fn each_class_has_a_sink_of_its_own() {
    let mut config = EngineConfiguration::new();
    set_log_level(&mut config, OLOUnit::PrintAll, Some(1));
    set_log_level(&mut config, OLOUnit::Message, Some(2));
    set_log_level(&mut config, OLOUnit::Warning, Some(3));
    set_log_level(&mut config, OLOUnit::Error, Some(4));
    set_log_level(&mut config, OLOUnit::Message, None);
    assert_eq!(config.sink(OLOUnit::PrintAll), Some(1));
    assert_eq!(config.sink(OLOUnit::Message), Some(6));
    assert_eq!(config.sink(OLOUnit::Warning), Some(3));
    assert_eq!(config.sink(OLOUnit::Error), Some(4));
    assert!(config.scale().is_none());
    assert!(config.threshold().is_none());
}

#[test]
fn the_engine_knows_each_class_by_its_name() {
    assert_eq!(OLOUnit::PrintAll.name(), "printall");
    assert_eq!(OLOUnit::Message.name(), "message");
    assert_eq!(OLOUnit::Warning.name(), "warning");
    assert_eq!(OLOUnit::Error.name(), "error");
}

#[test]
fn each_class_is_found_under_its_name() {
    let units = vec![OLOUnit::PrintAll, OLOUnit::Message, OLOUnit::Warning, OLOUnit::Error];
    for unit in units {
        assert_eq!(OLOUnit::from_lowercase(unit.name()), Ok(unit));
        assert_eq!(OLOUnit::from_name(unit.name()), Ok(unit));
    }
}

#[test]
fn a_name_may_mix_upper_and_lower_case() {
    assert_eq!(OLOUnit::from_name("PrintAll"), Ok(OLOUnit::PrintAll));
    assert_eq!(OLOUnit::from_name("PRINTALL"), Ok(OLOUnit::PrintAll));
    assert_eq!(OLOUnit::from_name("Message"), Ok(OLOUnit::Message));
    assert_eq!(OLOUnit::from_name("wArNiNg"), Ok(OLOUnit::Warning));
    assert_eq!(OLOUnit::from_name("ERROR"), Ok(OLOUnit::Error));
}

#[test]
fn a_name_that_is_not_in_lower_case_is_not_one_already() {
    assert_eq!(OLOUnit::from_lowercase("PrintAll"), Err(ConfigError::InvalidUnit));
    assert_eq!(OLOUnit::from_lowercase("ERROR"), Err(ConfigError::InvalidUnit));
    assert_eq!(OLOUnit::from_lowercase("error"), Ok(OLOUnit::Error));
}

#[test]
fn any_other_name_is_refused() {
    let names = vec![
        "", " ", "print", "printall ", " printall", "print all", "print_all", "messages", "warn",
        "errors", "info", "debug", "6", "printallmessage", "mess\u{e4}ge",
    ];
    for name in names {
        assert_eq!(OLOUnit::from_name(name), Err(ConfigError::InvalidUnit), "{:?}", name);
        assert_eq!(OLOUnit::from_lowercase(name), Err(ConfigError::InvalidUnit), "{:?}", name);
    }
    assert_eq!(ConfigError::InvalidUnit.message(), "Invalid OLOUnit");
}

#[test]
fn a_class_can_be_set_by_its_name() {
    let mut config = EngineConfiguration::new();
    let call = set_log_level_by_name(&mut config, "Warning", Some(0));
    assert_eq!(call, Ok(EngineCall::SetUnit { unit: OLOUnit::Warning, sink: 0 }));
    assert_eq!(config.sink(OLOUnit::Warning), Some(0));
    let call = set_log_level_by_name(&mut config, "PRINTALL", None);
    assert_eq!(call, Ok(EngineCall::SetUnit { unit: OLOUnit::PrintAll, sink: 6 }));
    assert_eq!(config.sink(OLOUnit::PrintAll), Some(6));
    assert_eq!(config.sink(OLOUnit::Warning), Some(0));
}

#[test]
fn a_name_that_is_refused_changes_nothing() {
    let mut config = EngineConfiguration::new();
    olo_rust::set_renormalization_scale(&mut config, Double::from_bits(2.0f64.to_bits()));
    set_log_level(&mut config, OLOUnit::Message, Some(9));
    let call = set_log_level_by_name(&mut config, "verbose", Some(3));
    assert_eq!(call, Err(ConfigError::InvalidUnit));
    assert_eq!(config.sink(OLOUnit::PrintAll), None);
    assert_eq!(config.sink(OLOUnit::Message), Some(9));
    assert_eq!(config.sink(OLOUnit::Warning), None);
    assert_eq!(config.sink(OLOUnit::Error), None);
    assert_eq!(config.scale().map(|d| d.to_bits()), Some(2.0f64.to_bits()));
    assert!(config.threshold().is_none());
}
