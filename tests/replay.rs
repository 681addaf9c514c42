use deltalake::action::{Action, Add, Format, MetaData, Protocol, Remove, Txn};
use deltalake::state::{apply_actions, process_action, DeltaTableState};

fn add(path: &str, size: i64) -> Action {
    Action::Add(Add {
        path: path.to_string(),
        size,
        partition_values: vec![],
        modification_time: 1564524294000,
        data_change: true,
        stats: None,
        tags: None,
    })
}

fn remove(path: &str, deletion_timestamp: i64) -> Action {
    Action::Remove(Remove {
        path: path.to_string(),
        deletion_timestamp,
        data_change: true,
        extended_file_metadata: None,
        partition_values: None,
        size: None,
        tags: None,
    })
}

fn metadata(columns: &[&str]) -> Action {
    Action::MetaData(MetaData {
        id: "5fba94ed-9794-4965-ba6e-6ee3c0d22af9".to_string(),
        name: Some("t".to_string()),
        description: None,
        format: Format { provider: "parquet".to_string(), options: None },
        schema_string: "{\"type\":\"struct\",\"fields\":[]}".to_string(),
        partition_columns: columns.iter().map(|c| c.to_string()).collect(),
        created_time: 1564524294376,
        configuration: vec![],
    })
}

fn paths(state: &DeltaTableState) -> Vec<String> {
    state.files.iter().map(|a| a.path.clone()).collect()
}

#[test]
fn state_records_new_txn_version() {
    let app_transaction_version = vec![("abc".to_string(), 1), ("xyz".to_string(), 1)];

    let mut state = DeltaTableState {
        files: vec![],
        commit_infos: vec![],
        tombstones: vec![],
        current_metadata: None,
        min_reader_version: 1,
        min_writer_version: 2,
        app_transaction_version,
    };

    let txn_action = Action::Txn(Txn { app_id: "abc".to_string(), version: 2, last_updated: 0 });

    process_action(&mut state, txn_action);

    assert_eq!(2, state.app_transaction_version_of("abc").unwrap());
    assert_eq!(1, state.app_transaction_version_of("xyz").unwrap());
}

#[test]
fn txn_for_new_application_is_recorded() {
    let mut state = DeltaTableState::new();
    assert_eq!(None, state.app_transaction_version_of("abc"));
    process_action(&mut state, Action::Txn(Txn { app_id: "abc".to_string(), version: 7, last_updated: 0 }));
    process_action(&mut state, Action::Txn(Txn { app_id: "abc".to_string(), version: 9, last_updated: 1 }));
    assert_eq!(Some(9), state.app_transaction_version_of("abc"));
    assert_eq!(1, state.app_transaction_version.len());
}

#[test]
fn add_then_remove_drops_every_entry_of_the_path() {
    let mut state = DeltaTableState::new();
    apply_actions(&mut state, vec![add("a", 1), add("b", 2), add("a", 3), remove("a", 10)]);
    assert_eq!(vec!["b".to_string()], paths(&state));
    assert_eq!(1, state.tombstones.len());
    assert_eq!("a", state.tombstones[0].path);
}

#[test]
fn add_remove_add_leaves_path_live() {
    let mut state = DeltaTableState::new();
    apply_actions(&mut state, vec![add("p", 1), remove("p", 10), add("p", 1)]);
    assert_eq!(vec!["p".to_string()], paths(&state));
    assert_eq!(1, state.tombstones.len());
}

#[test]
fn balanced_add_remove_leaves_path_absent_with_all_tombstones() {
    let mut state = DeltaTableState::new();
    apply_actions(&mut state, vec![add("p", 1), remove("p", 10), add("p", 1), remove("p", 20)]);
    assert!(paths(&state).is_empty());
    let times: Vec<i64> = state.tombstones.iter().map(|t| t.deletion_timestamp).collect();
    assert_eq!(vec![10, 20], times);
}

#[test]
fn replay_does_not_depend_on_chunking() {
    let actions = || {
        vec![
            add("a", 1),
            add("b", 2),
            remove("a", 5),
            Action::Protocol(Protocol { min_reader_version: 1, min_writer_version: 2 }),
            add("c", 3),
        ]
    };
    let mut whole = DeltaTableState::new();
    apply_actions(&mut whole, actions());

    let mut chunked = DeltaTableState::new();
    let mut all = actions();
    let tail = all.split_off(2);
    apply_actions(&mut chunked, all);
    apply_actions(&mut chunked, tail);

    assert_eq!(paths(&whole), paths(&chunked));
    assert_eq!(vec!["b".to_string(), "c".to_string()], paths(&whole));
    assert_eq!(whole.tombstones.len(), chunked.tombstones.len());
    assert_eq!(whole.min_writer_version, chunked.min_writer_version);
}

#[test]
fn protocol_metadata_and_commit_info_are_recorded() {
    let mut state = DeltaTableState::new();
    apply_actions(
        &mut state,
        vec![
            Action::Protocol(Protocol { min_reader_version: 1, min_writer_version: 2 }),
            metadata(&["year"]),
            Action::CommitInfo("{\"operation\":\"WRITE\"}".to_string()),
            Action::Protocol(Protocol { min_reader_version: 2, min_writer_version: 3 }),
        ],
    );
    assert_eq!(2, state.min_reader_version);
    assert_eq!(3, state.min_writer_version);
    let m = state.current_metadata.as_ref().unwrap();
    assert_eq!(vec!["year".to_string()], m.partition_columns);
    assert_eq!("{\"type\":\"struct\",\"fields\":[]}", m.schema);
    assert_eq!(vec!["{\"operation\":\"WRITE\"}".to_string()], state.commit_infos);
}
