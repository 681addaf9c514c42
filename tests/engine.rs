use deltalake::action::{Action, Add, Format, MetaData, Protocol, Remove};
use deltalake::datetime::parse_datetime_seconds;
use deltalake::errors::{
    ApplyLogError, DeltaTableError, DeltaTransactionError, LoadCheckpointError, TransactionCommitAttemptError,
};
use deltalake::log::CheckPoint;
use deltalake::partitions::{DeltaTablePartition, PartitionFilter, PartitionValue};
use deltalake::storage::{ObjectMeta, StorageError};
use deltalake::table::{DeltaTable, ProbeStep};
use deltalake::time_travel::VersionSearch;
use deltalake::transaction::{log_entry_from_json_lines, DeltaTransaction, DeltaTransactionOptions};
use deltalake::vacuum::on_vacuum_delete;

const TABLE: &str = "./tests/data/simple_commit";

fn add(path: &str, size: i64) -> Action {
    Action::Add(Add {
        path: path.to_string(),
        size,
        partition_values: vec![],
        modification_time: 1564524294000,
        data_change: true,
        stats: None,
        tags: None,
    })
}

fn remove(path: &str, deletion_timestamp: i64) -> Action {
    Action::Remove(Remove {
        path: path.to_string(),
        deletion_timestamp,
        data_change: true,
        extended_file_metadata: None,
        partition_values: None,
        size: None,
        tags: None,
    })
}

fn metadata(columns: &[&str]) -> Action {
    Action::MetaData(MetaData {
        id: "5fba94ed-9794-4965-ba6e-6ee3c0d22af9".to_string(),
        name: None,
        description: None,
        format: Format { provider: "parquet".to_string(), options: None },
        schema_string: "{\"type\":\"struct\",\"fields\":[]}".to_string(),
        partition_columns: columns.iter().map(|c| c.to_string()).collect(),
        created_time: 1564524294376,
        configuration: vec![],
    })
}

fn version_zero() -> Vec<Action> {
    vec![Action::Protocol(Protocol { min_reader_version: 1, min_writer_version: 2 }), metadata(&[])]
}

fn tx1_actions() -> Vec<Action> {
    vec![
        add("part-00000-b44fcdb0-8b06-4f3a-8606-f8311a96f6dc-c000.snappy.parquet", 396),
        add("part-00001-185eca06-e017-4dea-ae49-fc48b973e37e-c000.snappy.parquet", 400),
    ]
}

fn tx2_actions() -> Vec<Action> {
    vec![
        add("part-00000-512e1537-8aaa-4193-b8b4-bef3de0de409-c000.snappy.parquet", 396),
        add("part-00001-4327c977-2734-4477-9507-7ccf67924649-c000.snappy.parquet", 400),
    ]
}

/// A table loaded from a log whose entries are `log` (version 0 first).
fn loaded(log: &[Vec<Action>]) -> DeltaTable {
    let mut table = DeltaTable::new(TABLE, "/").unwrap();
    assert!(table.on_load_checkpoint(Err(LoadCheckpointError::NotFound)).unwrap().is_none());
    replay_forward(&mut table, log).unwrap();
    table
}

/// Replays forward over the entries of `log` that exist.
fn replay_forward(table: &mut DeltaTable, log: &[Vec<Action>]) -> Result<(), DeltaTableError> {
    loop {
        let v = table.version;
        let entry = if v >= 0 && (v as usize) < log.len() {
            Ok(log[v as usize].clone())
        } else {
            Err(ApplyLogError::EndOfLog)
        };
        if !table.on_log_entry(entry)? {
            return Ok(());
        }
    }
}

fn update(table: &mut DeltaTable, log: &[Vec<Action>]) {
    assert!(table.on_update_checkpoint(Err(LoadCheckpointError::NotFound)).unwrap().is_none());
    replay_forward(table, log).unwrap();
}

/// Optimistic commit of `actions` against a log that other writers may
/// have grown; `taken` versions refuse the rename.
fn commit_with(table: &mut DeltaTable, log: &mut Vec<Vec<Action>>, actions: Vec<Action>) -> Result<i64, DeltaTransactionError> {
    let mut tx = table.create_transaction(None);
    let staged = tx.prepare_commit(table);
    assert!(staged.starts_with("./tests/data/simple_commit/_delta_log/_commit_"));
    DeltaTransaction::on_staged(Ok(()))?;
    loop {
        update(table, log);
        let version = tx.next_attempt_version(table);
        let renamed = if (version as usize) < log.len() {
            Err(StorageError::AlreadyExists(table.version_to_log_path(version)))
        } else {
            Ok(())
        };
        if let Some(v) = tx.on_commit_attempt(version, renamed)? {
            log.push(actions);
            update(table, log);
            return Ok(v);
        }
    }
}

#[test]
fn empty_directory_is_not_a_table() {
    let mut table = DeltaTable::new(TABLE, "/").unwrap();
    assert!(table.on_load_checkpoint(Err(LoadCheckpointError::NotFound)).unwrap().is_none());
    let r = table.on_log_entry(Err(ApplyLogError::EndOfLog));
    assert!(matches!(r, Err(DeltaTableError::NotATable)));
    assert_eq!(-1, table.version);
}

#[test]
fn test_two_commits_fs() {
    let mut log = vec![version_zero()];
    let mut table = loaded(&log);
    assert_eq!(0, table.version);
    assert_eq!(0, table.get_files().len());

    let version = commit_with(&mut table, &mut log, tx1_actions()).unwrap();
    assert_eq!(1, version);
    assert_eq!(version, table.version);
    assert_eq!(2, table.get_files().len());

    let version = commit_with(&mut table, &mut log, tx2_actions()).unwrap();
    assert_eq!(2, version);
    assert_eq!(version, table.version);
    assert_eq!(4, table.get_files().len());
}

#[test]
fn commit_retries_past_versions_taken_by_other_writers() {
    let mut log = vec![version_zero()];
    let mut table = loaded(&log);
    let mut tx = table.create_transaction(None);
    let _ = tx.prepare_commit(&table);
    let v = tx.next_attempt_version(&table);
    assert_eq!(1, v);
    let r = tx.on_commit_attempt(v, Err(StorageError::AlreadyExists("x".to_string()))).unwrap();
    assert_eq!(None, r);
    assert_eq!(1, tx.attempt_number);
    log.push(tx1_actions());
    update(&mut table, &log);
    assert_eq!(1, table.version);
    let v = tx.next_attempt_version(&table);
    assert_eq!(Some(2), tx.on_commit_attempt(v, Ok(())).unwrap());
}

#[test]
fn commit_gives_up_after_the_retry_bound() {
    let table = loaded(&[version_zero()]);
    let mut tx = DeltaTransaction::new(Some(DeltaTransactionOptions::new(0)));
    let v = tx.next_attempt_version(&table);
    assert_eq!(None, tx.on_commit_attempt(v, Err(StorageError::AlreadyExists("x".to_string()))).unwrap());
    let r = tx.on_commit_attempt(v, Err(StorageError::AlreadyExists("x".to_string())));
    assert!(matches!(
        r,
        Err(DeltaTransactionError::VersionAlreadyExists { inner: TransactionCommitAttemptError::VersionExists { .. } })
    ));
    let r = tx.on_commit_attempt(v, Err(StorageError::Generic("down".to_string())));
    assert!(matches!(
        r,
        Err(DeltaTransactionError::TransactionCommitAttempt { inner: TransactionCommitAttemptError::Storage { .. } })
    ));
}

#[test]
fn default_options_allow_ten_million_retries() {
    let tx = DeltaTransaction::new(None);
    assert_eq!(10_000_000, tx.options.max_retry_commit_attempts);
    assert_eq!(0, tx.attempt_number);
    assert_eq!(10_000_000, DeltaTransactionOptions::default().max_retry_commit_attempts);
}

#[test]
fn staged_commit_path_holds_a_uuid() {
    let table = loaded(&[version_zero()]);
    let mut tx = DeltaTransaction::new(None);
    let first = tx.prepare_commit(&table);
    let second = tx.prepare_commit(&table);
    let prefix = "./tests/data/simple_commit/_delta_log/_commit_";
    assert_eq!(prefix.len() + 36 + ".json".len(), first.len());
    assert!(first.ends_with(".json"));
    assert_ne!(first, second);
    let token = &first[prefix.len()..prefix.len() + 36];
    assert_eq!(Some(8), token.find('-'));
    assert!(token.chars().all(|c| c == '-' || c.is_ascii_digit() || ('a'..='f').contains(&c)));
}

#[test]
fn test_commit_version_succeeds_if_version_does_not_exist() {
    let mut log = vec![version_zero()];
    let mut table = loaded(&log);

    assert_eq!(0, table.version);
    assert_eq!(0, table.get_files().len());

    let mut tx1 = table.create_transaction(None);
    let _ = tx1.prepare_commit(&table);
    let result = DeltaTransaction::commit_version_outcome(1, Ok(())).unwrap();
    log.push(tx1_actions());
    update(&mut table, &log);

    assert_eq!(1, result);
    assert_eq!(1, table.version);
    assert_eq!(2, table.get_files().len());
}

#[test]
fn test_commit_version_fails_if_version_exists() {
    let mut log = vec![version_zero()];
    let mut table = loaded(&log);

    assert_eq!(0, table.version);
    assert_eq!(0, table.get_files().len());

    let _ = DeltaTransaction::commit_version_outcome(1, Ok(())).unwrap();
    log.push(tx1_actions());
    update(&mut table, &log);

    let existing = table.version_to_log_path(1);
    let result = DeltaTransaction::commit_version_outcome(1, Err(StorageError::AlreadyExists(existing)));

    match result {
        Err(DeltaTransactionError::VersionAlreadyExists { .. }) => {
            assert!(true, "Delta version already exists.");
        }
        _ => {
            assert!(false, "Delta version should already exist.");
        }
    }

    assert!(result.is_err());
    assert_eq!(1, table.version);
    assert_eq!(2, table.get_files().len());
}

#[test]
fn staging_failure_is_a_commit_attempt_error() {
    let r = DeltaTransaction::on_staged(Err(StorageError::Generic("disk full".to_string())));
    assert!(matches!(
        r,
        Err(DeltaTransactionError::TransactionCommitAttempt { inner: TransactionCommitAttemptError::Storage { .. } })
    ));
    assert!(DeltaTransaction::on_staged(Ok(())).is_ok());
}

#[test]
fn log_entry_lines_are_newline_separated() {
    let lines = vec!["{\"a\":1}".to_string(), "{\"b\":2}".to_string()];
    assert_eq!("{\"a\":1}\n{\"b\":2}", log_entry_from_json_lines(&lines));
    assert_eq!("", log_entry_from_json_lines(&vec![]));
}

#[test]
fn update_is_monotonic_and_probes_the_next_entry() {
    let mut log = vec![version_zero(), tx1_actions()];
    let mut table = loaded(&log);
    assert_eq!(1, table.version);
    update(&mut table, &log);
    assert_eq!(1, table.version);
    assert_eq!(2, table.get_files().len());
    log.push(tx2_actions());
    update(&mut table, &log);
    assert_eq!(2, table.version);
    assert_eq!(4, table.get_files().len());
}

#[test]
fn update_restores_a_new_checkpoint_once() {
    let mut table = loaded(&[version_zero()]);
    let cp = CheckPoint::new(1, 3, None);
    let found = table.on_update_checkpoint(Ok(cp)).unwrap();
    assert_eq!(Some(cp), found);
    let mut parts = version_zero();
    parts.extend(tx1_actions());
    table.load_checkpoint(cp, Ok(vec![parts])).unwrap();
    assert_eq!(2, table.version);
    assert_eq!(2, table.get_files().len());
    let r = table.on_log_entry(Err(ApplyLogError::EndOfLog)).unwrap();
    assert!(!r);
    assert_eq!(1, table.version);
    assert_eq!(None, table.on_update_checkpoint(Ok(CheckPoint::new(1, 99, None))).unwrap());
    assert_eq!(2, table.version);
}

#[test]
fn failed_checkpoint_restore_leaves_an_empty_state() {
    let mut table = loaded(&[version_zero(), tx1_actions()]);
    assert_eq!(2, table.get_files().len());
    let r = table.restore_checkpoint(Err(DeltaTableError::ParquetError { message: "bad".to_string() }));
    assert!(r.is_err());
    assert_eq!(0, table.get_files().len());
    assert!(matches!(table.get_metadata(), Err(DeltaTableError::NoMetadata)));
    assert!(matches!(table.get_schema(), Err(DeltaTableError::NoSchema)));
}

#[test]
fn load_checkpoint_errors() {
    let mut table = DeltaTable::new(TABLE, "/").unwrap();
    let r = table.on_load_checkpoint(Err(LoadCheckpointError::InvalidJson { message: "x".to_string() }));
    assert!(matches!(r, Err(DeltaTableError::LoadCheckpoint { source: LoadCheckpointError::InvalidJson { .. } })));
    let r = table.on_log_entry(Err(ApplyLogError::InvalidJson { message: "x".to_string() }));
    assert!(matches!(r, Err(DeltaTableError::ApplyLog { source: ApplyLogError::InvalidJson { .. } })));
}

#[test]
fn load_version_of_a_missing_entry_is_invalid() {
    let mut table = DeltaTable::new(TABLE, "/").unwrap();
    let r = table.on_version_head(5, Err(StorageError::NotFound));
    assert!(matches!(r, Err(DeltaTableError::InvalidVersion(5))));
    let r = table.on_version_head(5, Err(StorageError::Io { message: "x".to_string() }));
    assert!(matches!(r, Err(DeltaTableError::StorageError { .. })));
}

#[test]
fn load_version_replays_from_the_checkpoint() {
    let log = vec![version_zero(), tx1_actions(), tx2_actions()];
    let mut table = DeltaTable::new(TABLE, "/").unwrap();
    table.on_version_head(1, Ok(ObjectMeta { path: table.version_to_log_path(1), modified: 2000 })).unwrap();
    assert_eq!(1, table.version);
    let next = table.restore_for_version(None).unwrap();
    assert_eq!(0, next);
    for v in next..=table.version {
        table.apply_log(Ok(log[v as usize].clone())).unwrap();
    }
    assert_eq!(2, table.get_files().len());
    assert_eq!(1, table.get_min_reader_version());
    assert_eq!(2, table.get_min_writer_version());

    let mut parts = version_zero();
    parts.extend(tx1_actions());
    let next = table.restore_for_version(Some((CheckPoint::new(1, 4, None), Ok(vec![parts])))).unwrap();
    assert_eq!(2, next);
    assert_eq!(2, table.get_files().len());
    let r = table.apply_log(Err(ApplyLogError::EndOfLog));
    assert!(matches!(r, Err(DeltaTableError::ApplyLog { source: ApplyLogError::EndOfLog })));
}

#[test]
fn latest_version_probe_caches_timestamps() {
    let mut table = DeltaTable::new(TABLE, "/").unwrap();
    let start = table.latest_version_start(Err(LoadCheckpointError::NotFound)).unwrap();
    assert_eq!(0, start);
    assert_eq!(7, table.latest_version_start(Ok(CheckPoint::new(7, 0, None))).unwrap());
    let meta = |m: i64| ObjectMeta { path: String::new(), modified: m };
    assert_eq!(ProbeStep::Next(1), table.on_latest_version_probe(0, Ok(meta(1000))).unwrap());
    assert_eq!(ProbeStep::Next(2), table.on_latest_version_probe(1, Ok(meta(2000))).unwrap());
    assert_eq!(ProbeStep::Latest(1), table.on_latest_version_probe(2, Err(StorageError::NotFound)).unwrap());
    assert_eq!(Some(1000), table.cached_version_timestamp(0));
    assert_eq!(Some(2000), table.cached_version_timestamp(1));
    assert_eq!(None, table.cached_version_timestamp(2));
    assert_eq!(3000, table.on_version_timestamp(2, Ok(meta(3000))).unwrap());
    assert_eq!(Some(3000), table.cached_version_timestamp(2));
}

fn search(ts: &[i64], target: i64) -> i64 {
    let mut s = VersionSearch::new(ts.len() as i64 - 1, target);
    while let Some(p) = s.pivot() {
        s.observe(ts[p as usize]);
    }
    s.resolved()
}

#[test]
fn time_travel_picks_the_last_version_before_the_target() {
    let ts = [1000, 2000, 3000];
    assert_eq!(1, search(&ts, 2500));
    assert_eq!(1, search(&ts, 2000));
    assert_eq!(0, search(&ts, 1000));
    assert_eq!(2, search(&ts, 3000));
    assert_eq!(2, search(&ts, 9999));
    assert_eq!(0, search(&ts, 10));
    assert_eq!(0, search(&[], 10));
}

#[test]
fn datetime_strings_are_read_as_seconds() {
    assert_eq!(1609459200, parse_datetime_seconds("2021-01-01T00:00:00Z").unwrap());
    assert_eq!(1609459200 + 3600, parse_datetime_seconds("2021-01-01T00:00:00-01:00").unwrap());
    let r = parse_datetime_seconds("not a date");
    assert!(matches!(r, Err(DeltaTableError::InvalidDateTimeString { .. })));
}

fn partitioned_table() -> DeltaTable {
    let v0 = vec![
        Action::Protocol(Protocol { min_reader_version: 1, min_writer_version: 2 }),
        metadata(&["year", "month"]),
    ];
    let files = vec![
        add("year=2020/month=1/part-0.parquet", 1),
        add("year=2021/month=2/part-1.parquet", 1),
        add("year=2021/month=3/part-2.parquet", 1),
    ];
    loaded(&[v0, files])
}

fn filter(key: &str, value: PartitionValue) -> PartitionFilter {
    PartitionFilter { key: key.to_string(), value }
}

#[test]
fn files_are_selected_by_partition_filters() {
    let table = partitioned_table();
    let eq = vec![filter("year", PartitionValue::Equal("2021".to_string()))];
    assert_eq!(
        vec!["year=2021/month=2/part-1.parquet".to_string(), "year=2021/month=3/part-2.parquet".to_string()],
        table.get_files_by_partitions(&eq).unwrap()
    );
    let both = vec![
        filter("year", PartitionValue::Equal("2021".to_string())),
        filter("month", PartitionValue::NotIn(vec!["2".to_string()])),
    ];
    assert_eq!(vec!["year=2021/month=3/part-2.parquet".to_string()], table.get_files_by_partitions(&both).unwrap());
    let inn = vec![filter("month", PartitionValue::In(vec!["1".to_string(), "3".to_string()]))];
    assert_eq!(2, table.get_files_by_partitions(&inn).unwrap().len());
    let ne = vec![filter("year", PartitionValue::NotEqual("2021".to_string()))];
    assert_eq!(vec!["year=2020/month=1/part-0.parquet".to_string()], table.get_files_by_partitions(&ne).unwrap());
    let absent = vec![filter("day", PartitionValue::NotEqual("1".to_string()))];
    assert!(table.get_files_by_partitions(&absent).unwrap().is_empty());
    assert_eq!(
        vec!["./tests/data/simple_commit/year=2020/month=1/part-0.parquet".to_string()],
        table.get_file_paths_by_partitions(&ne).unwrap()
    );
}

#[test]
fn partition_filters_need_partitioned_metadata() {
    let unloaded = DeltaTable::new(TABLE, "/").unwrap();
    assert!(matches!(unloaded.get_files_by_partitions(&vec![]), Err(DeltaTableError::NoMetadata)));
    let plain = loaded(&[version_zero()]);
    assert!(matches!(plain.get_files_by_partitions(&vec![]), Err(DeltaTableError::LoadPartitions)));
}

#[test]
fn path_segments_parse_as_partitions() {
    let p = DeltaTablePartition::from_segment("year=2021").unwrap();
    assert_eq!("year", p.key);
    assert_eq!("2021", p.value);
    assert!(matches!(DeltaTablePartition::from_segment("year"), Err(DeltaTableError::PartitionError { .. })));
    assert!(DeltaTablePartition::from_segment("a=b=c").is_err());
    let f = filter("year", PartitionValue::Equal("2021".to_string()));
    assert!(f.match_partition(&p));
    assert!(f.match_partitions(&vec![p.clone()]));
    assert!(!f.match_partitions(&vec![]));
}

const DAY_MS: i64 = 24 * 3_600_000;

fn vacuum_table() -> DeltaTable {
    let v0 = vec![
        Action::Protocol(Protocol { min_reader_version: 1, min_writer_version: 2 }),
        metadata(&["year"]),
    ];
    let v1 = vec![add("old.parquet", 1), add("live.parquet", 1), add("recent.parquet", 1), add("_hidden.parquet", 1)];
    let v2 = vec![
        remove("old.parquet", 1_000 * DAY_MS),
        remove("recent.parquet", 1_009 * DAY_MS),
        remove("_hidden.parquet", 1_000 * DAY_MS),
    ];
    loaded(&[v0, v1, v2])
}

#[test]
fn vacuum_refuses_retention_under_a_week() {
    let table = vacuum_table();
    let now = 1_010 * DAY_MS;
    let listing: Vec<String> = vec![];
    assert!(matches!(table.vacuum(167, now, &listing), Err(DeltaTableError::InvalidVacuumRetentionPeriod)));
    assert!(matches!(table.get_stale_files(167, now), Err(DeltaTableError::InvalidVacuumRetentionPeriod)));
    assert!(matches!(table.get_stale_files(168, 3_600_000), Err(DeltaTableError::InvalidVacuumRetentionPeriod)));
    assert!(matches!(table.get_stale_files(168, -1), Err(DeltaTableError::InvalidVacuumRetentionPeriod)));
    assert!(matches!(table.get_stale_files(u64::MAX, now), Err(DeltaTableError::InvalidVacuumRetentionPeriod)));
}

#[test]
fn vacuum_lists_stale_unhidden_files() {
    let table = vacuum_table();
    let now = 1_010 * DAY_MS;
    let stale = table.get_stale_files(168, now).unwrap();
    assert_eq!(
        vec![
            "./tests/data/simple_commit/old.parquet".to_string(),
            "./tests/data/simple_commit/_hidden.parquet".to_string(),
        ],
        stale
    );
    let listing = vec![
        "./tests/data/simple_commit/live.parquet".to_string(),
        "./tests/data/simple_commit/old.parquet".to_string(),
        "./tests/data/simple_commit/recent.parquet".to_string(),
        "./tests/data/simple_commit/_hidden.parquet".to_string(),
        "./tests/data/simple_commit/_delta_log/00000000000000000000.json".to_string(),
    ];
    let candidates = table.vacuum(168, now, &listing).unwrap();
    assert_eq!(vec!["./tests/data/simple_commit/old.parquet".to_string()], candidates);
    assert_eq!(5, listing.len());
}

#[test]
fn hidden_directories() {
    let table = vacuum_table();
    assert_eq!(Ok(true), table.is_hidden_directory("./tests/data/simple_commit/_delta_log/x").map_err(|_| ()));
    assert_eq!(Ok(true), table.is_hidden_directory("./tests/data/simple_commit/.tmp").map_err(|_| ()));
    assert_eq!(Ok(false), table.is_hidden_directory("./tests/data/simple_commit/_delta_index/x").map_err(|_| ()));
    assert_eq!(Ok(false), table.is_hidden_directory("./tests/data/simple_commit/_change_data/x").map_err(|_| ()));
    assert_eq!(Ok(false), table.is_hidden_directory("./tests/data/simple_commit/part.parquet").map_err(|_| ()));
    let unloaded = DeltaTable::new(TABLE, "/").unwrap();
    assert!(matches!(unloaded.is_hidden_directory("./tests/data/simple_commit/_x"), Err(DeltaTableError::NoMetadata)));
    assert!(matches!(unloaded.is_hidden_directory("./tests/data/simple_commit/x"), Ok(false)));
}

#[test]
fn partition_directories_are_not_hidden() {
    let v0 = vec![metadata(&["_year"])];
    let table = loaded(&[v0]);
    assert_eq!(Ok(false), table.is_hidden_directory("./tests/data/simple_commit/_year=2021/a").map_err(|_| ()));
}

#[test]
fn vacuum_deletes_ignore_missing_objects() {
    assert!(on_vacuum_delete(Ok(())).is_ok());
    assert!(on_vacuum_delete(Err(StorageError::NotFound)).is_ok());
    assert!(matches!(
        on_vacuum_delete(Err(StorageError::Generic("x".to_string()))),
        Err(DeltaTableError::StorageError { .. })
    ));
}

#[test]
fn storage_errors_convert_by_kind() {
    assert!(matches!(ApplyLogError::from(StorageError::NotFound), ApplyLogError::EndOfLog));
    assert!(matches!(ApplyLogError::from(StorageError::Generic("x".to_string())), ApplyLogError::Storage { .. }));
    assert!(matches!(LoadCheckpointError::from(StorageError::NotFound), LoadCheckpointError::NotFound));
    assert!(matches!(
        TransactionCommitAttemptError::from(StorageError::AlreadyExists("p".to_string())),
        TransactionCommitAttemptError::VersionExists { .. }
    ));
    assert!(matches!(
        DeltaTransactionError::from(TransactionCommitAttemptError::Storage { source: StorageError::NotFound }),
        DeltaTransactionError::TransactionCommitAttempt { .. }
    ));
}

#[test]
fn table_getters_reflect_the_loaded_state() {
    let table = vacuum_table();
    assert_eq!(
        vec!["live.parquet".to_string()],
        table.get_files()
    );
    assert_eq!(vec!["./tests/data/simple_commit/live.parquet".to_string()], table.get_file_paths());
    assert_eq!(1, table.get_actions().len());
    assert_eq!(3, table.get_tombstones().len());
    assert!(table.get_app_transaction_version().is_empty());
    assert_eq!(vec!["year".to_string()], table.get_metadata().unwrap().partition_columns);
    assert_eq!("{\"type\":\"struct\",\"fields\":[]}", table.get_schema().unwrap());
    assert!(table.schema().is_some());
}

#[test]
fn checkpoint_restore_matches_full_replay() {
    let log = vec![version_zero(), tx1_actions(), vec![remove("part-00000-b44fcdb0-8b06-4f3a-8606-f8311a96f6dc-c000.snappy.parquet", 5)]];
    let replayed = loaded(&log);

    let mut restored = loaded(&[version_zero(), tx2_actions()]);
    let cp = CheckPoint::new(2, 0, None);
    let condensed: Vec<Action> = log.iter().flat_map(|e| e.iter().cloned()).collect();
    restored.load_checkpoint(cp, Ok(vec![condensed])).unwrap();
    assert!(!restored.on_log_entry(Err(ApplyLogError::EndOfLog)).unwrap());

    assert_eq!(replayed.version, restored.version);
    assert_eq!(replayed.get_files(), restored.get_files());
    assert_eq!(replayed.get_tombstones().len(), restored.get_tombstones().len());
    assert_eq!(replayed.get_min_writer_version(), restored.get_min_writer_version());
}
