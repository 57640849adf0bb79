use wasm_obs::observer::TelemetryObserverBuilder;

#[test]
fn builder_documented_defaults() {
    let b = TelemetryObserverBuilder::new();
    let (cfg, _obs) = b.build();
    assert_eq!(cfg.endpoint, "http://127.0.0.1:4318/v1/traces");
    assert_eq!(cfg.service_name, "wasm-obs-agent");
    assert_eq!(cfg.environment, "development");
}

#[test]
fn builder_with_endpoint_overrides_only_endpoint() {
    let b = TelemetryObserverBuilder::new().with_endpoint("http://collector:4318/v1/traces".to_string());
    let (cfg, _obs) = b.build();
    assert_eq!(cfg.endpoint, "http://collector:4318/v1/traces");
    assert_eq!(cfg.service_name, "wasm-obs-agent");
    assert_eq!(cfg.environment, "development");
}

#[test]
fn builder_with_service_name_overrides_only_service_name() {
    let b = TelemetryObserverBuilder::new().with_service_name("edge-agent".to_string());
    let (cfg, _obs) = b.build();
    assert_eq!(cfg.endpoint, "http://127.0.0.1:4318/v1/traces");
    assert_eq!(cfg.service_name, "edge-agent");
    assert_eq!(cfg.environment, "development");
}

#[test]
fn builder_with_environment_overrides_only_environment() {
    let b = TelemetryObserverBuilder::new().with_environment("production".to_string());
    let (cfg, _obs) = b.build();
    assert_eq!(cfg.endpoint, "http://127.0.0.1:4318/v1/traces");
    assert_eq!(cfg.service_name, "wasm-obs-agent");
    assert_eq!(cfg.environment, "production");
}

#[test]
fn builder_chained_overrides() {
    let b = TelemetryObserverBuilder::new()
        .with_endpoint("https://otel.example/v1/traces".to_string())
        .with_service_name("svc".to_string())
        .with_environment("staging".to_string());
    let (cfg, _obs) = b.build();
    assert_eq!(cfg.endpoint, "https://otel.example/v1/traces");
    assert_eq!(cfg.service_name, "svc");
    assert_eq!(cfg.environment, "staging");
}
