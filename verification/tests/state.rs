use sentinel_agent::metadata::{InstanceMetadata, SessionInfo};
use sentinel_agent::progress::Progress;
use sentinel_agent::state::{
    FileProbe, ResourceState, StateError, WritePlan, WriteStage,
};

fn no_cloud() -> InstanceMetadata {
    InstanceMetadata { instance_id: None, cloud_provider: None, region: None, instance_type: None }
}

fn state(id: &str) -> ResourceState {
    ResourceState {
        resource_id: id.to_string(),
        registered_at: "2024-01-15T10:30:00Z".to_string(),
        agent_version: "0.2.1".to_string(),
        instance_metadata: no_cloud(),
        session: SessionInfo { boot_time: 1, agent_start_time: 2, uptime_seconds: 3 },
    }
}

fn paths() -> Vec<String> {
    ResourceState::candidate_paths_with("/home/u/.config/operion/resource-state.json".to_string())
}

fn write_error(path: &str) -> StateError {
    StateError::WriteError { path: path.to_string(), error: "denied".to_string() }
}

/// Loads from candidates that hold `probes`, and says which were looked at.
fn load_all(
    paths: &Vec<String>,
    mut probes: Vec<Option<FileProbe>>,
) -> (Result<Option<ResourceState>, StateError>, Vec<usize>) {
    let mut visited = Vec::new();
    let mut step = ResourceState::load(paths, None);
    loop {
        match step {
            Progress::Done(result) => return (result, visited),
            Progress::Continue(at) => {
                visited.push(at);
                let probe = probes[at].take().unwrap();
                step = ResourceState::load(paths, Some((at, probe)));
            }
        }
    }
}

/// Saves to candidates whose attempts end in `outcomes`, and says which were tried.
fn save_all(mut outcomes: Vec<Option<Result<(), StateError>>>) -> (Result<(), StateError>, Vec<usize>) {
    let mut visited = Vec::new();
    let mut step = ResourceState::save(outcomes.len(), None);
    loop {
        match step {
            Progress::Done(result) => return (result, visited),
            Progress::Continue(at) => {
                visited.push(at);
                let outcome = outcomes[at].take().unwrap();
                step = ResourceState::save(outcomes.len(), Some((at, outcome)));
            }
        }
    }
}

#[test]
fn test_resource_state_creation() {
    let instance_metadata = InstanceMetadata {
        instance_id: None,
        cloud_provider: None,
        region: None,
        instance_type: None,
    };
    let session = SessionInfo::generate();

    let state = ResourceState::new(
        "res_123456".to_string(),
        "0.2.1".to_string(),
        instance_metadata,
        session,
    );

    assert_eq!(state.resource_id, "res_123456");
    assert_eq!(state.agent_version, "0.2.1");
    assert!(!state.registered_at.is_empty());
}

#[test]
fn a_new_state_keeps_what_it_was_given() {
    let session = SessionInfo { boot_time: 10, agent_start_time: 20, uptime_seconds: 30 };
    let metadata = InstanceMetadata::from_aws("i-1".to_string(), None, Some("r".to_string()));
    let made = ResourceState::new("id".to_string(), "v".to_string(), metadata.clone(), session);
    assert_eq!(made.instance_metadata, metadata);
    assert_eq!(made.session, session);
    // an RFC 3339 timestamp in UTC, of this century
    assert!(made.registered_at.len() >= 20);
    assert!(made.registered_at.starts_with("20"));
    assert_eq!(&made.registered_at[4..5], "-");
    assert_eq!(&made.registered_at[10..11], "T");
    assert!(made.registered_at.ends_with("+00:00"));
    assert_eq!(made.clone(), made);
}

#[test]
fn a_state_made_without_a_clock_is_registered_at_the_epoch() {
    let session = SessionInfo { boot_time: 10, agent_start_time: 20, uptime_seconds: 30 };
    let made = ResourceState::stamped("id".to_string(), "v".to_string(), no_cloud(), session, None);
    assert_eq!(made.registered_at, "1970-01-01T00:00:00+00:00");
    assert_eq!(made.resource_id, "id");
    let made = ResourceState::stamped(
        "id".to_string(),
        "v".to_string(),
        no_cloud(),
        session,
        Some("2024-01-15T10:30:00Z".to_string()),
    );
    assert_eq!(made.registered_at, "2024-01-15T10:30:00Z");
    assert_eq!(made.agent_version, "v");
    assert_eq!(made.session, session);
}

#[test]
fn candidates_are_tried_in_a_fixed_order() {
    let paths = paths();
    assert_eq!(
        paths,
        vec![
            "/var/lib/operion/resource-state.json".to_string(),
            "/etc/operion/resource-state.json".to_string(),
            "/home/u/.config/operion/resource-state.json".to_string(),
        ]
    );
    let real = ResourceState::candidate_paths();
    assert_eq!(real.len(), 3);
    assert_eq!(real[0], paths[0]);
    assert_eq!(real[1], paths[1]);
    let base = dirs::config_dir().unwrap_or_else(|| std::path::PathBuf::from("."));
    let expected = base.join("operion").join("resource-state.json");
    assert_eq!(real[2], expected.to_string_lossy().to_string());
}

#[test]
fn load_finds_nothing_where_no_file_exists() {
    let (result, visited) = load_all(
        &paths(),
        vec![Some(FileProbe::Missing), Some(FileProbe::Missing), Some(FileProbe::Missing)],
    );
    assert_eq!(result.ok(), Some(None));
    assert_eq!(visited, vec![0, 1, 2]);
    let (result, visited) = load_all(&vec![], vec![]);
    assert_eq!(result.ok(), Some(None));
    assert!(visited.is_empty());
}

#[test]
fn load_takes_the_first_file_that_exists() {
    let (result, visited) = load_all(
        &paths(),
        vec![
            Some(FileProbe::Missing),
            Some(FileProbe::Parsed(state("res_etc"))),
            Some(FileProbe::Parsed(state("res_home"))),
        ],
    );
    assert_eq!(result.ok(), Some(Some(state("res_etc"))));
    assert_eq!(visited, vec![0, 1]);
}

#[test]
fn load_surfaces_the_error_of_a_file_that_exists() {
    let (result, visited) = load_all(
        &paths(),
        vec![
            Some(FileProbe::Missing),
            Some(FileProbe::Unparseable("expected value".to_string())),
            Some(FileProbe::Parsed(state("res_home"))),
        ],
    );
    match result {
        Err(error @ StateError::ParseError { .. }) => assert_eq!(
            error.message(),
            "Failed to parse state file at /etc/operion/resource-state.json: expected value"
        ),
        other => panic!("unexpected result: {:?}", other),
    }
    assert_eq!(visited, vec![0, 1]);

    let (result, _) = load_all(
        &paths(),
        vec![Some(FileProbe::Unreadable("denied".to_string())), None, None],
    );
    match result {
        Err(error @ StateError::ReadError { .. }) => assert_eq!(
            error.message(),
            "Failed to read state file at /var/lib/operion/resource-state.json: denied"
        ),
        other => panic!("unexpected result: {:?}", other),
    }
}

#[test]
fn save_stops_at_the_first_success() {
    let (result, visited) = save_all(vec![Some(Ok(())), None, None]);
    assert!(result.is_ok());
    assert_eq!(visited, vec![0]);
    let (result, visited) = save_all(vec![Some(Err(write_error("a"))), Some(Ok(())), None]);
    assert!(result.is_ok());
    assert_eq!(visited, vec![0, 1]);
}

#[test]
fn save_fails_with_the_last_error_when_every_candidate_fails() {
    let (result, visited) = save_all(vec![
        Some(Err(write_error("a"))),
        Some(Err(write_error("b"))),
        Some(Err(write_error("c"))),
    ]);
    match result {
        Err(StateError::WriteError { path, .. }) => assert_eq!(path, "c"),
        other => panic!("unexpected result: {:?}", other),
    }
    assert_eq!(visited, vec![0, 1, 2]);
}

#[test]
fn save_without_candidates_finds_no_writable_location() {
    match ResourceState::save(0, None) {
        Progress::Done(Err(error)) => assert_eq!(
            error.message(),
            "Failed to write state file at unknown: No writable location found"
        ),
        other => panic!("unexpected step: {:?}", other),
    }
}

#[test]
fn save_then_load_round_trips_through_a_fallback() {
    // the primary candidate is not writable; the second takes the state
    let saved = state("res_roundtrip");
    let (result, visited) = save_all(vec![Some(Err(write_error("primary"))), Some(Ok(())), None]);
    assert!(result.is_ok());
    let written = *visited.last().unwrap();
    let mut files: Vec<Option<FileProbe>> =
        vec![Some(FileProbe::Missing), Some(FileProbe::Missing), Some(FileProbe::Missing)];
    files[written] = Some(FileProbe::Parsed(saved.clone()));
    let (loaded, _) = load_all(&paths(), files);
    assert_eq!(loaded.ok(), Some(Some(saved)));
}

#[test]
fn the_state_file_is_the_first_usable_candidate() {
    let paths = paths();
    assert!(matches!(ResourceState::get_state_file_path(&paths, None), Progress::Continue(0)));
    match ResourceState::get_state_file_path(&paths, Some((0, true))) {
        Progress::Done(path) => assert_eq!(path, paths[0]),
        other => panic!("unexpected step: {:?}", other),
    }
    assert!(matches!(
        ResourceState::get_state_file_path(&paths, Some((0, false))),
        Progress::Continue(1)
    ));
    match ResourceState::get_state_file_path(&paths, Some((1, true))) {
        Progress::Done(path) => assert_eq!(path, paths[1]),
        other => panic!("unexpected step: {:?}", other),
    }
    // the last candidate is taken untested
    match ResourceState::get_state_file_path(&paths, Some((1, false))) {
        Progress::Done(path) => assert_eq!(path, paths[2]),
        other => panic!("unexpected step: {:?}", other),
    }
    let only = vec!["only".to_string()];
    match ResourceState::get_state_file_path(&only, None) {
        Progress::Done(path) => assert_eq!(path, "only"),
        other => panic!("unexpected step: {:?}", other),
    }
}

#[test]
fn a_write_goes_through_its_stages_in_order() {
    let plan = WritePlan::for_path("/var/lib/operion/resource-state.json");
    assert_eq!(plan.target, "/var/lib/operion/resource-state.json");
    assert_eq!(plan.temporary, "/var/lib/operion/resource-state.tmp");
    assert_eq!(plan.directory, Some("/var/lib/operion".to_string()));

    let mut stages = Vec::new();
    let mut step = ResourceState::try_save_to_path(&plan, None);
    let result = loop {
        match step {
            Progress::Done(result) => break result,
            Progress::Continue(stage) => {
                stages.push(stage);
                step = ResourceState::try_save_to_path(&plan, Some((stage, Ok(()))));
            }
        }
    };
    assert!(result.is_ok());
    assert_eq!(
        stages,
        vec![
            WriteStage::CreateDirectory,
            WriteStage::CreateTemporary,
            WriteStage::WriteContents,
            WriteStage::Sync,
            WriteStage::Rename,
            WriteStage::RestrictPermissions,
        ]
    );
}

#[test]
fn a_path_without_directory_needs_none_created() {
    let plan = WritePlan { directory: None, temporary: "t".to_string(), target: "f".to_string() };
    assert!(matches!(
        ResourceState::try_save_to_path(&plan, None),
        Progress::Continue(WriteStage::CreateTemporary)
    ));
    assert_eq!(WritePlan::for_path("/").directory, None);
}

fn failure_at(stage: WriteStage) -> String {
    let plan = WritePlan {
        directory: Some("/d".to_string()),
        temporary: "/d/f.tmp".to_string(),
        target: "/d/f.json".to_string(),
    };
    match ResourceState::try_save_to_path(&plan, Some((stage, Err("boom".to_string())))) {
        Progress::Done(Err(error)) => error.message(),
        other => panic!("unexpected step: {:?}", other),
    }
}

#[test]
fn a_failed_stage_ends_the_write_with_its_error() {
    assert_eq!(failure_at(WriteStage::CreateDirectory), "Failed to create directory /d: boom");
    assert_eq!(
        failure_at(WriteStage::CreateTemporary),
        "Failed to write state file at /d/f.tmp: boom"
    );
    assert_eq!(failure_at(WriteStage::WriteContents), "Failed to write state file at /d/f.tmp: boom");
    assert_eq!(failure_at(WriteStage::Sync), "Failed to write state file at /d/f.tmp: boom");
    assert_eq!(failure_at(WriteStage::Rename), "Failed to write state file at /d/f.json: boom");
    assert_eq!(
        failure_at(WriteStage::RestrictPermissions),
        "Failed to set permissions on /d/f.json: boom"
    );
}

#[test]
fn the_temporary_file_is_another_file_than_the_target() {
    assert!(WritePlan::for_path("/var/lib/operion/resource-state.json").keeps_target_apart());
    assert!(WritePlan::for_path("resource-state").keeps_target_apart());
    assert!(!WritePlan::for_path("/d/state.tmp").keeps_target_apart());
}

#[test]
fn a_write_that_could_not_be_atomic_is_not_begun() {
    let plan = WritePlan::for_path("/d/state.tmp");
    assert_eq!(plan.temporary, plan.target);
    match ResourceState::try_save_to_path(&plan, None) {
        Progress::Done(Err(error @ StateError::WriteError { .. })) => assert_eq!(
            error.message(),
            "Failed to write state file at /d/state.tmp: The temporary file would be the state file itself"
        ),
        other => panic!("unexpected step: {:?}", other),
    }
    // saving goes on to the next candidate
    let refused = match ResourceState::try_save_to_path(&plan, None) {
        Progress::Done(result) => result,
        other => panic!("unexpected step: {:?}", other),
    };
    assert!(matches!(ResourceState::save(2, Some((0, refused))), Progress::Continue(1)));
}

#[test]
fn the_state_file_of_a_user_lies_below_the_configuration_directory() {
    assert_eq!(
        ResourceState::user_state_file(Some("/home/u/.config".to_string())),
        "/home/u/.config/operion/resource-state.json"
    );
    assert_eq!(ResourceState::user_state_file(None), "./operion/resource-state.json");
    assert_eq!(
        ResourceState::user_state_file(Some("relative/".to_string())),
        "relative/operion/resource-state.json"
    );
}

#[test]
fn a_plan_names_directory_and_temporary_file() {
    let plan = WritePlan::for_path("/etc/operion/resource-state.json");
    assert_eq!(plan.directory, Some("/etc/operion".to_string()));
    assert_eq!(plan.temporary, "/etc/operion/resource-state.tmp");
    assert_eq!(plan.target, "/etc/operion/resource-state.json");
    let plan = WritePlan::for_path("state");
    assert_eq!(plan.directory, Some("".to_string()));
    assert_eq!(plan.temporary, "state.tmp");
    let plan = WritePlan::for_path("a.b/state");
    assert_eq!(plan.temporary, "a.b/state.tmp");
}

#[test]
fn stage_order() {
    assert_eq!(WriteStage::CreateDirectory.next(), Some(WriteStage::CreateTemporary));
    assert_eq!(WriteStage::Sync.next(), Some(WriteStage::Rename));
    assert_eq!(WriteStage::Rename.next(), Some(WriteStage::RestrictPermissions));
    assert_eq!(WriteStage::RestrictPermissions.next(), None);
}

#[test]
fn state_error_messages() {
    assert_eq!(
        StateError::SerializeError("x".to_string()).message(),
        "Failed to serialize state: x"
    );
    assert_eq!(
        StateError::PermissionError { path: "p".to_string(), error: "e".to_string() }.message(),
        "Failed to set permissions on p: e"
    );
    assert_eq!(
        StateError::CreateDirectoryError { path: "p".to_string(), error: "e".to_string() }.message(),
        "Failed to create directory p: e"
    );
}

#[test]
fn state_files_belong_to_their_owner() {
    assert_eq!(sentinel_agent::state::STATE_FILE_MODE, 0o600);
}
