use sentinel_agent::agent::{
    AgentAction, AgentError, AgentEvent, FlushAction, HostFacts, RegistrationAction,
    RegistrationEvent, RegistrationOutcome, SentinelAgent,
};
use sentinel_agent::client::{ApiClient, ApiError, ResourceRegistrationResponse};
use sentinel_agent::config::{
    AgentConfig, ApiConfig, CollectionConfig, Config, DiskConfig, OAuthConfig,
};
use sentinel_agent::metadata::{CloudProvider, InstanceMetadata, SessionInfo};
use sentinel_agent::metrics::{DiskMetric, MetricError, UsageRatio};
use sentinel_agent::state::{ResourceState, StateError};

fn create_test_config() -> Config {
    Config {
        agent: AgentConfig { id: "test-agent".to_string(), hostname: None },
        api: ApiConfig {
            endpoint: "https://api.example.com".to_string(),
            timeout_seconds: None,
            api_key: None,
            oauth: None,
        },
        collection: CollectionConfig {
            interval_seconds: 60,
            batch_size: Some(5),
            flush_interval_seconds: None,
            disk: DiskConfig {
                enabled: true,
                include_mount_points: None,
                exclude_mount_points: None,
            },
        },
    }
}

fn config_with_api_key() -> Config {
    let mut config = create_test_config();
    config.agent.hostname = Some("test-host".to_string());
    config.api.api_key = Some("test-api-key".to_string());
    config
}

fn metric(n: u64) -> DiskMetric {
    DiskMetric {
        timestamp: n,
        device: "/dev/sda1".to_string(),
        mount_point: "/".to_string(),
        total_space_bytes: 1000000,
        used_space_bytes: 500000,
        available_space_bytes: 500000,
        usage_percentage: UsageRatio { numerator: 50, denominator: 1 },
    }
}

fn no_cloud() -> InstanceMetadata {
    InstanceMetadata { instance_id: None, cloud_provider: None, region: None, instance_type: None }
}

fn facts() -> HostFacts {
    HostFacts {
        platform: "linux".to_string(),
        arch: "x86_64".to_string(),
        instance_metadata: InstanceMetadata::from_aws("i-1".to_string(), None, None),
    }
}

fn response(id: &str) -> ResourceRegistrationResponse {
    ResourceRegistrationResponse {
        resource_id: id.to_string(),
        status: "registered".to_string(),
        message: None,
    }
}

fn saved_state(id: &str) -> ResourceState {
    ResourceState {
        resource_id: id.to_string(),
        registered_at: "2024-01-15T10:30:00Z".to_string(),
        agent_version: "0.2.1".to_string(),
        instance_metadata: no_cloud(),
        session: SessionInfo { boot_time: 1, agent_start_time: 2, uptime_seconds: 3 },
    }
}

fn timestamps(items: &[DiskMetric]) -> Vec<u64> {
    items.iter().map(|m| m.timestamp).collect()
}

#[test]
fn test_agent_creation() {
    let config = create_test_config();
    let agent = SentinelAgent::new(config);
    assert!(agent.is_ok());
}

#[test]
fn test_buffer_management() {
    let config = create_test_config();
    let mut agent = SentinelAgent::new(config).unwrap();

    let metrics = vec![
        DiskMetric {
            timestamp: 1234567890,
            device: "/dev/sda1".to_string(),
            mount_point: "/".to_string(),
            total_space_bytes: 1000000,
            used_space_bytes: 500000,
            available_space_bytes: 500000,
            usage_percentage: UsageRatio { numerator: 50, denominator: 1 },
        };
        10
    ];

    agent.add_to_buffer(metrics);
    assert_eq!(agent.buffer_len(), 5);
}

#[test]
fn test_flush_empty_buffer() {
    let config = create_test_config();
    let mut agent = SentinelAgent::new(config).unwrap();
    let result = agent.flush_buffer();
    assert!(matches!(result, FlushAction::Idle));
    assert_eq!(agent.buffer_len(), 0);
}

#[test]
fn the_buffer_holds_what_the_configuration_allows() {
    let mut agent = SentinelAgent::new(create_test_config()).unwrap();
    assert_eq!(agent.buffer_capacity(), 5);
    agent.add_to_buffer((1..=9).map(metric).collect());
    assert_eq!(agent.buffer_capacity(), 5);
    assert_eq!(agent.buffer_len(), 5);
    agent.flush_buffer();
    assert_eq!(agent.buffer_capacity(), 5);
    agent.add_to_buffer((1..=3).map(metric).collect());
    assert_eq!(agent.buffer_len(), 3);

    let mut config = create_test_config();
    config.collection.batch_size = None;
    assert_eq!(SentinelAgent::new(config).unwrap().buffer_capacity(), 100);
}

#[test]
fn a_new_agent_is_idle_and_unregistered() {
    let agent = SentinelAgent::new(config_with_api_key()).unwrap();
    assert!(!agent.is_running());
    assert_eq!(agent.resource_id(), &None);
    assert_eq!(agent.buffer_len(), 0);
    assert_eq!(agent.hostname(), "test-host");
    assert_eq!(agent.config().agent.id, "test-agent");
    assert_eq!(agent.collection_interval_seconds(), 60);
    assert_eq!(agent.flush_interval_seconds(), 10);
    assert_eq!(agent.api_client().endpoint(), "https://api.example.com");
    assert!(agent.session().boot_time > 0);
}

#[test]
fn an_agent_cannot_be_assembled_without_a_client() {
    let made = SentinelAgent::assemble(
        create_test_config(),
        "h".to_string(),
        Err(ApiError::ClientCreation("no tls".to_string())),
        SessionInfo { boot_time: 1, agent_start_time: 2, uptime_seconds: 3 },
    );
    match made {
        Err(AgentError::Initialization(detail)) => {
            assert_eq!(detail, "Failed to create HTTP client: no tls")
        }
        _ => panic!("expected an initialization error"),
    }
}

#[test]
fn an_assembled_agent_keeps_what_it_was_given() {
    let config = create_test_config();
    let session = SessionInfo { boot_time: 1, agent_start_time: 2, uptime_seconds: 3 };
    let agent =
        SentinelAgent::assemble(config_with_api_key(), "h".to_string(), ApiClient::new(&config), session)
            .ok()
            .unwrap();
    assert_eq!(agent.hostname(), "h");
    assert_eq!(agent.session(), session);
    assert_eq!(agent.config().api.api_key, Some("test-api-key".to_string()));
}

#[test]
fn flush_without_id_and_without_credentials_uses_the_sentinel_id() {
    let mut config = create_test_config();
    config.agent.hostname = Some("test-host".to_string());
    let mut agent = SentinelAgent::new(config).unwrap();
    agent.add_to_buffer(vec![metric(1), metric(2), metric(3)]);
    match agent.flush_buffer() {
        FlushAction::Send(batch) => {
            assert_eq!(batch.server_id, "test-resource-id");
            assert_eq!(batch.hostname, "test-host");
            assert_eq!(timestamps(&batch.metrics), vec![1, 2, 3]);
        }
        other => panic!("unexpected action: {:?}", other),
    }
    assert_eq!(agent.buffer_len(), 0);
    assert!(matches!(agent.flush_buffer(), FlushAction::Idle));
}

#[test]
fn flush_without_id_but_with_credentials_fails_and_hands_the_samples_back() {
    let mut agent = SentinelAgent::new(config_with_api_key()).unwrap();
    agent.add_to_buffer(vec![metric(1), metric(2)]);
    match agent.flush_buffer() {
        FlushAction::Fail { error: AgentError::Configuration(detail), dropped } => {
            assert_eq!(detail, "Resource not registered");
            assert_eq!(timestamps(&dropped), vec![1, 2]);
        }
        other => panic!("unexpected action: {:?}", other),
    }
    // the samples left the buffer before the id was looked for
    assert_eq!(agent.buffer_len(), 0);
}

#[test]
fn flush_with_oauth_credentials_and_no_id_fails_too() {
    let mut config = create_test_config();
    config.api.oauth = Some(OAuthConfig {
        client_id: "id".to_string(),
        client_secret: "secret".to_string(),
        token_endpoint: None,
        scope: None,
    });
    let mut agent = SentinelAgent::new(config).unwrap();
    agent.add_to_buffer(vec![metric(1)]);
    assert!(matches!(
        agent.flush_buffer(),
        FlushAction::Fail { error: AgentError::Configuration(_), .. }
    ));
}

#[test]
fn flush_outcome_wraps_the_transport_error() {
    assert!(SentinelAgent::flush_outcome(Ok(())).is_ok());
    match SentinelAgent::flush_outcome(Err(ApiError::Response {
        status: 500,
        body: "Internal Server Error".to_string(),
    })) {
        Err(error @ AgentError::Api(_)) => assert_eq!(
            error.message(),
            "API error: API returned error status 500: Internal Server Error"
        ),
        _ => panic!("expected an API error"),
    }
}

#[test]
fn registration_is_skipped_without_credentials() {
    let mut agent = SentinelAgent::new(create_test_config()).unwrap();
    let action = agent.register_resource(RegistrationEvent::Begin);
    assert!(matches!(action, RegistrationAction::Complete(RegistrationOutcome::Skipped)));
    assert!(agent.is_running());
    assert_eq!(agent.resource_id(), &None);
}

#[test]
fn registration_adopts_a_saved_state() {
    let mut agent = SentinelAgent::new(config_with_api_key()).unwrap();
    assert!(matches!(
        agent.register_resource(RegistrationEvent::Begin),
        RegistrationAction::LoadState
    ));
    assert!(!agent.is_running());
    let action =
        agent.register_resource(RegistrationEvent::StateLoaded(Ok(Some(saved_state("res_1")))));
    assert!(matches!(action, RegistrationAction::Complete(RegistrationOutcome::Adopted)));
    assert!(agent.is_running());
    assert_eq!(agent.resource_id(), &Some("res_1".to_string()));

    agent.add_to_buffer(vec![metric(1)]);
    match agent.flush_buffer() {
        FlushAction::Send(batch) => assert_eq!(batch.server_id, "res_1"),
        other => panic!("unexpected action: {:?}", other),
    }
}

fn register_up_to_request(agent: &mut SentinelAgent, loaded: Result<Option<ResourceState>, StateError>) {
    assert!(matches!(
        agent.register_resource(RegistrationEvent::Begin),
        RegistrationAction::LoadState
    ));
    assert!(matches!(
        agent.register_resource(RegistrationEvent::StateLoaded(loaded)),
        RegistrationAction::Detect
    ));
    match agent.register_resource(RegistrationEvent::Detected(facts())) {
        RegistrationAction::Register(registration) => {
            assert_eq!(registration.hostname, "test-host");
            assert_eq!(registration.agent_version, "0.1.0");
            assert_eq!(registration.platform, "linux");
            assert_eq!(registration.arch, "x86_64");
            assert_eq!(registration.instance_metadata.cloud_provider, Some(CloudProvider::AWS));
            assert_eq!(registration.instance_metadata.instance_id, Some("i-1".to_string()));
        }
        other => panic!("unexpected action: {:?}", other),
    }
}

#[test]
fn registration_registers_anew_and_saves_the_state() {
    let mut agent = SentinelAgent::new(config_with_api_key()).unwrap();
    register_up_to_request(&mut agent, Ok(None));
    let session = agent.session();
    match agent.register_resource(RegistrationEvent::Registered(Ok(response("res_123456789")))) {
        RegistrationAction::SaveState(state) => {
            assert_eq!(state.resource_id, "res_123456789");
            assert_eq!(state.agent_version, "0.1.0");
            assert_eq!(state.session, session);
            assert_eq!(state.instance_metadata.instance_id, Some("i-1".to_string()));
            assert!(!state.registered_at.is_empty());
        }
        other => panic!("unexpected action: {:?}", other),
    }
    assert_eq!(agent.resource_id(), &Some("res_123456789".to_string()));
    assert!(!agent.is_running());
    assert!(matches!(
        agent.register_resource(RegistrationEvent::StateSaved(Ok(()))),
        RegistrationAction::Complete(RegistrationOutcome::Registered)
    ));
    assert!(agent.is_running());
}

#[test]
fn a_state_that_cannot_be_loaded_counts_as_missing() {
    let mut agent = SentinelAgent::new(config_with_api_key()).unwrap();
    register_up_to_request(
        &mut agent,
        Err(StateError::ParseError { path: "p".to_string(), error: "e".to_string() }),
    );
}

#[test]
fn a_state_that_cannot_be_saved_does_not_stop_the_agent() {
    let mut agent = SentinelAgent::new(config_with_api_key()).unwrap();
    register_up_to_request(&mut agent, Ok(None));
    agent.register_resource(RegistrationEvent::Registered(Ok(response("res_9"))));
    let failure = StateError::WriteError { path: "p".to_string(), error: "read-only".to_string() };
    match agent.register_resource(RegistrationEvent::StateSaved(Err(failure))) {
        RegistrationAction::Complete(RegistrationOutcome::RegisteredUnsaved(error)) => {
            assert_eq!(error.message(), "Failed to write state file at p: read-only")
        }
        other => panic!("unexpected action: {:?}", other),
    }
    assert!(agent.is_running());
    assert_eq!(agent.resource_id(), &Some("res_9".to_string()));
}

#[test]
fn a_refused_registration_leaves_the_agent_without_id() {
    let mut agent = SentinelAgent::new(config_with_api_key()).unwrap();
    register_up_to_request(&mut agent, Ok(None));
    let refusal = ApiError::Response { status: 503, body: "later".to_string() };
    match agent.register_resource(RegistrationEvent::Registered(Err(refusal))) {
        RegistrationAction::Complete(RegistrationOutcome::Failed(error)) => {
            assert_eq!(error.message(), "API returned error status 503: later")
        }
        other => panic!("unexpected action: {:?}", other),
    }
    assert!(agent.is_running());
    assert_eq!(agent.resource_id(), &None);
    agent.add_to_buffer(vec![metric(1)]);
    assert!(matches!(agent.flush_buffer(), FlushAction::Fail { .. }));
}

#[test]
fn events_out_of_turn_are_ignored() {
    let mut agent = SentinelAgent::new(config_with_api_key()).unwrap();
    assert!(matches!(
        agent.register_resource(RegistrationEvent::Registered(Ok(response("res_x")))),
        RegistrationAction::Ignored
    ));
    assert!(matches!(
        agent.register_resource(RegistrationEvent::StateSaved(Ok(()))),
        RegistrationAction::Ignored
    ));
    assert_eq!(agent.resource_id(), &None);
    assert!(!agent.is_running());

    register_up_to_request(&mut agent, Ok(None));
    // a second detection does not lead to a second request
    assert!(matches!(
        agent.register_resource(RegistrationEvent::Detected(facts())),
        RegistrationAction::Ignored
    ));
    agent.register_resource(RegistrationEvent::Registered(Ok(response("res_1"))));
    agent.register_resource(RegistrationEvent::StateSaved(Ok(())));
    assert!(agent.is_running());
    for event in [
        RegistrationEvent::Begin,
        RegistrationEvent::StateLoaded(Ok(None)),
        RegistrationEvent::Detected(facts()),
        RegistrationEvent::Registered(Ok(response("res_2"))),
    ] {
        assert!(matches!(agent.register_resource(event), RegistrationAction::Ignored));
    }
    assert_eq!(agent.resource_id(), &Some("res_1".to_string()));
}

#[test]
fn collections_are_taken_in_or_reported() {
    let mut agent = SentinelAgent::new(create_test_config()).unwrap();
    assert_eq!(agent.record_collection(Ok(vec![metric(1), metric(2)])).ok(), Some(2));
    assert_eq!(agent.buffer_len(), 2);
    assert_eq!(agent.record_collection(Ok(vec![])).ok(), Some(0));
    assert_eq!(agent.buffer_len(), 2);
    let failed = agent.record_collection(Err(AgentError::MetricCollection("x".to_string())));
    match failed {
        Err(error) => assert_eq!(error.message(), "Metric collection error: x"),
        Ok(_) => panic!("expected the error back"),
    }
    assert_eq!(agent.buffer_len(), 2);
    assert_eq!(
        agent.record_collection(Ok((3..=9).map(metric).collect())).ok(),
        Some(7)
    );
    assert_eq!(agent.buffer_len(), 5);
    match agent.flush_buffer() {
        FlushAction::Send(batch) => assert_eq!(timestamps(&batch.metrics), vec![5, 6, 7, 8, 9]),
        other => panic!("unexpected action: {:?}", other),
    }
}

#[test]
fn collection_without_disks_enabled_collects_nothing() {
    let mut config = create_test_config();
    config.collection.disk.enabled = false;
    let mut agent = SentinelAgent::new(config).unwrap();
    assert!(agent.collect_metrics().unwrap().is_empty());
    assert_eq!(agent.collection_tick().ok(), Some(0));
    assert_eq!(agent.buffer_len(), 0);
}

#[test]
fn a_collection_tick_fills_the_buffer_up_to_its_capacity() {
    let mut agent = SentinelAgent::new(create_test_config()).unwrap();
    let taken = agent.collection_tick().ok().unwrap();
    assert_eq!(agent.buffer_len(), taken.min(5));
}

#[test]
fn timers_are_served_once_the_agent_runs() {
    let mut agent = SentinelAgent::new(create_test_config()).unwrap();
    agent.add_to_buffer(vec![metric(1)]);
    assert!(matches!(agent.run(AgentEvent::FlushTick), AgentAction::NotRunning));
    assert!(matches!(agent.run(AgentEvent::CollectionTick), AgentAction::NotRunning));
    assert_eq!(agent.buffer_len(), 1);

    assert!(matches!(
        agent.run(AgentEvent::Registration(RegistrationEvent::Begin)),
        AgentAction::Registration(RegistrationAction::Complete(RegistrationOutcome::Skipped))
    ));
    assert!(matches!(agent.run(AgentEvent::CollectionTick), AgentAction::Collected(Ok(_))));
    match agent.run(AgentEvent::FlushTick) {
        AgentAction::Flush(FlushAction::Send(batch)) => {
            assert_eq!(batch.server_id, "test-resource-id");
            assert_eq!(batch.metrics[0].timestamp, 1);
        }
        other => panic!("unexpected action: {:?}", other),
    }
    assert!(matches!(agent.run(AgentEvent::FlushTick), AgentAction::Flush(FlushAction::Idle)));
}

#[test]
fn collection_result_names_the_failure() {
    match SentinelAgent::collection_result(Err(MetricError::TimestampError)) {
        Err(AgentError::MetricCollection(detail)) => {
            assert_eq!(detail, "Failed to get system timestamp")
        }
        _ => panic!("expected a collection error"),
    }
    assert_eq!(SentinelAgent::collection_result(Ok(vec![metric(1)])).ok().unwrap().len(), 1);
}

#[test]
fn agent_error_messages() {
    assert_eq!(
        AgentError::Initialization("a".to_string()).message(),
        "Agent initialization failed: a"
    );
    assert_eq!(AgentError::Configuration("b".to_string()).message(), "Configuration error: b");
    assert_eq!(
        AgentError::Api(ApiError::Request("c".to_string())).message(),
        "API error: Request failed: c"
    );
    assert_eq!(
        AgentError::MetricCollection("d".to_string()).message(),
        "Metric collection error: d"
    );
}
