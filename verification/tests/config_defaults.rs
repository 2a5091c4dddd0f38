use rig_supervisor::config::{
    Backend, Config, Limits, DEFAULT_CYCLE_TIME_MS, DEFAULT_LIMIT_MAX, DEFAULT_LIMIT_MIN,
    DEFAULT_MAX_SPEED, DEFAULT_RESTART_TIMEOUT_MS,
};

#[test]
fn builtin_configuration_has_the_documented_values() {
    let config = Config::default();
    assert_eq!(config.cycle_time, 1000);
    assert_eq!(config.restart_timeout, 10_000);
    assert_eq!(config.backend, Backend::Ramp);
    let axis = Limits { min: 0, max: 64_000_000, max_speed: 1_000_000 };
    assert_eq!(config.limits, vec![axis, axis]);
    assert_eq!(config.serial_device, "/dev/ttyACM0");
    assert_eq!(config.opcua_config_path, "opcua_config.conf");
}

#[test]
fn builtin_constants_agree_with_the_builtin_configuration() {
    let config = Config::default();
    assert_eq!(config.cycle_time, DEFAULT_CYCLE_TIME_MS);
    assert_eq!(config.restart_timeout, DEFAULT_RESTART_TIMEOUT_MS);
    assert_eq!(config.limits[0].min, DEFAULT_LIMIT_MIN);
    assert_eq!(config.limits[0].max, DEFAULT_LIMIT_MAX);
    assert_eq!(config.limits[0].max_speed, DEFAULT_MAX_SPEED);
}

#[test]
fn resolve_keeps_what_was_loaded() {
    let loaded = Config {
        cycle_time: 20,
        restart_timeout: 500,
        backend: Backend::Manual,
        limits: vec![Limits { min: -1, max: 1, max_speed: 9 }],
        serial_device: "/dev/ttyUSB3".to_string(),
        opcua_config_path: "server.conf".to_string(),
    };
    assert_eq!(Config::resolve(Some(loaded.clone())), loaded);
}

#[test]
fn resolve_falls_back_to_the_builtin_configuration() {
    assert_eq!(Config::resolve(None), Config::default());
}
