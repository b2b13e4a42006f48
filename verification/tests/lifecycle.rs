use grpc_deliver::config::{ConfigError, ConfigInit};
use grpc_deliver::lifecycle::{InitError, PluginState, Supervisor};
use grpc_deliver::outcome::{reason_encodable, DeliveryOutcome};
use grpc_deliver::{plugin_version, PLUGIN_VERSION};

#[test]
fn version_is_the_fixed_protocol_constant() {
    assert_eq!(plugin_version(), PLUGIN_VERSION);
}

#[test]
fn four_configured_threads_give_four_workers() {
    let supervisor = Supervisor::new(4, 16);
    assert_eq!(supervisor.worker_count(), 4);
}

#[test]
fn zero_configured_threads_give_the_default_worker_count() {
    let supervisor = Supervisor::new(0, 16);
    assert_eq!(supervisor.worker_count(), 16);
}

#[test]
fn plan_init_parses_the_host_configuration() {
    let state = PluginState::Uninitialized;
    assert_eq!(
        state.plan_init(Some("{\"threads\":4}")),
        Ok(ConfigInit { threads: 4 })
    );
}

#[test]
fn plan_init_requires_a_configuration_text() {
    let state = PluginState::Uninitialized;
    assert_eq!(state.plan_init(None), Err(InitError::ConfigUnavailable));
}

#[test]
fn plan_init_rejects_a_malformed_configuration() {
    let state = PluginState::Uninitialized;
    assert_eq!(
        state.plan_init(Some("not json")),
        Err(InitError::ConfigRejected { error: ConfigError::NotAnObject })
    );
    assert_eq!(
        state.plan_init(Some("{\"threads\":\"many\"}")),
        Err(InitError::ConfigRejected { error: ConfigError::ThreadsNotUnsigned })
    );
}

#[test]
fn plan_init_refuses_a_second_initialization() {
    let config = ConfigInit { threads: 4 };
    let supervisor = Supervisor::new(config.threads, 16);
    let state = PluginState::Ready { config, supervisor };
    assert_eq!(
        state.plan_init(Some("{\"threads\":8}")),
        Err(InitError::AlreadyInitialized)
    );
}

#[test]
fn install_is_write_once() {
    let config = ConfigInit { threads: 4 };
    let supervisor = Supervisor::new(config.threads, 16);
    let (state, ok) = PluginState::Uninitialized.install(config, supervisor);
    assert!(ok);
    assert!(state.is_ready());
    assert_eq!(state, PluginState::Ready { config, supervisor });

    let other = ConfigInit { threads: 9 };
    let (state_after, ok_again) = state.install(other, Supervisor::new(other.threads, 16));
    assert!(!ok_again);
    assert_eq!(state_after, PluginState::Ready { config, supervisor });
}

#[test]
fn each_startup_failure_has_its_critical_diagnostic() {
    assert_eq!(
        InitError::ConfigUnavailable.diagnostic(),
        "grpc-deliver: Failed to parse config"
    );
    assert_eq!(
        InitError::ConfigRejected { error: ConfigError::NotAnObject }.diagnostic(),
        "grpc-deliver: Failed to parse config"
    );
    assert_eq!(
        InitError::RuntimeBuildFailed.diagnostic(),
        "grpc-deliver: Failed to create runtime"
    );
    assert_eq!(
        InitError::AlreadyInitialized.diagnostic(),
        "grpc-deliver: Failed to store config globally"
    );
}

#[test]
fn outcome_constructors_match_the_host_protocol() {
    assert_eq!(
        DeliveryOutcome::accepted(),
        DeliveryOutcome { status: 250, reason: "OK".to_string() }
    );
    assert_eq!(
        DeliveryOutcome::temp_local_error(),
        DeliveryOutcome { status: 421, reason: "Temporary local error".to_string() }
    );
    assert_eq!(
        DeliveryOutcome::temp_fail("quota exceeded".to_string()),
        DeliveryOutcome { status: 421, reason: "quota exceeded".to_string() }
    );
}

#[test]
fn reason_texts_with_interior_nul_cannot_cross_the_host_boundary() {
    assert!(reason_encodable("OK"));
    assert!(reason_encodable("Temporary local error"));
    assert!(reason_encodable(""));
    assert!(!reason_encodable("bad\u{0}reason"));
    assert!(!reason_encodable("\u{0}"));
}
