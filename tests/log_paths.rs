use deltalake::crate_version;
use deltalake::log::{checkpoint_of_path, join_path, latest_checkpoint_in, log_file_name_of, CheckPoint};
use deltalake::table::DeltaTable;
use deltalake::text::parse_decimal;

fn table() -> DeltaTable {
    DeltaTable::new("./tests/data/simple_commit", "/").unwrap()
}

#[test]
fn log_entry_names_are_zero_padded_to_twenty_digits() {
    assert_eq!("00000000000000000000.json", log_file_name_of(0));
    assert_eq!("00000000000000000042.json", log_file_name_of(42));
    assert_eq!("09223372036854775807.json", log_file_name_of(i64::MAX));
    assert_eq!("-0000000000000000001.json", log_file_name_of(-1));
    assert_eq!(format!("{:020}.json", -123456), log_file_name_of(-123456));
}

#[test]
fn table_paths_are_joined_under_the_log_directory() {
    let t = table();
    assert_eq!(0, t.version);
    assert_eq!("./tests/data/simple_commit/_delta_log", t.log_path());
    assert_eq!(
        "./tests/data/simple_commit/_delta_log/00000000000000000001.json",
        t.version_to_log_path(1)
    );
    assert_eq!("./tests/data/simple_commit/_delta_log/_commit_abc.json", t.tmp_commit_log_path("abc"));
    assert_eq!("./tests/data/simple_commit/_delta_log/_last_checkpoint", t.last_checkpoint_path());
}

#[test]
fn join_does_not_double_the_separator() {
    assert_eq!("gs-bucket/t/_delta_log", join_path("gs-bucket/t/", "/", "_delta_log"));
    assert_eq!("gs-bucket/t/_delta_log", join_path("gs-bucket/t", "/", "_delta_log"));
}

#[test]
fn checkpoint_data_paths_single_and_multi_part() {
    let t = table();
    let single = t.get_checkpoint_data_paths(&CheckPoint::new(10, 0, None));
    assert_eq!(
        vec!["./tests/data/simple_commit/_delta_log/00000000000000000010.checkpoint.parquet".to_string()],
        single
    );
    let multi = t.get_checkpoint_data_paths(&CheckPoint::new(10, 0, Some(2)));
    assert_eq!(
        vec![
            "./tests/data/simple_commit/_delta_log/00000000000000000010.checkpoint.0000000001.0000000002.parquet"
                .to_string(),
            "./tests/data/simple_commit/_delta_log/00000000000000000010.checkpoint.0000000002.0000000002.parquet"
                .to_string(),
        ],
        multi
    );
}

#[test]
fn checkpoint_equality_is_by_version() {
    assert!(CheckPoint::new(3, 10, None) == CheckPoint::new(3, 99, Some(2)));
    assert!(CheckPoint::new(3, 10, None) != CheckPoint::new(4, 10, None));
}

#[test]
fn listed_checkpoint_paths_are_recognised() {
    let cp = checkpoint_of_path("t/_delta_log/00000000000000000010.checkpoint.parquet").unwrap();
    assert_eq!(10, cp.version);
    assert_eq!(None, cp.parts);
    let cp = checkpoint_of_path("t\\_delta_log\\00000000000000000020.checkpoint.0000000001.0000000003.parquet").unwrap();
    assert_eq!(20, cp.version);
    assert_eq!(Some(3), cp.parts);
    assert!(checkpoint_of_path("t/_delta_log/00000000000000000010.json").is_none());
    assert!(checkpoint_of_path("t/_delta_log/0010.checkpoint.parquet").is_none());
    assert!(checkpoint_of_path("t/_delta_log/99999999999999999999.checkpoint.parquet").is_none());
}

#[test]
fn latest_checkpoint_respects_the_limit() {
    let listing = vec![
        "t/_delta_log/00000000000000000000.json".to_string(),
        "t/_delta_log/00000000000000000005.checkpoint.parquet".to_string(),
        "t/_delta_log/00000000000000000010.checkpoint.0000000001.0000000002.parquet".to_string(),
        "t/_delta_log/00000000000000000010.checkpoint.0000000002.0000000002.parquet".to_string(),
        "t/_delta_log/00000000000000000015.checkpoint.parquet".to_string(),
    ];
    let cp = latest_checkpoint_in(&listing, 12).unwrap();
    assert_eq!(10, cp.version);
    assert_eq!(Some(2), cp.parts);
    assert_eq!(15, latest_checkpoint_in(&listing, 100).unwrap().version);
    assert_eq!(5, latest_checkpoint_in(&listing, 9).unwrap().version);
    assert!(latest_checkpoint_in(&listing, 4).is_none());
    let t = table();
    assert_eq!(5, t.find_latest_check_point_for_version(&listing, 5).unwrap().version);
}

#[test]
fn decimal_parsing() {
    assert_eq!(Some(0), parse_decimal("00000000000000000000"));
    assert_eq!(Some(18446744073709551615), parse_decimal("18446744073709551615"));
    assert_eq!(None, parse_decimal("18446744073709551616"));
    assert_eq!(None, parse_decimal(""));
    assert_eq!(None, parse_decimal("12a"));
}

#[test]
fn crate_version_is_the_package_version() {
    assert_eq!("0.4.0", crate_version());
}
