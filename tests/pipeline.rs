use std::io::Read;

use flate2::read::GzDecoder;
use pg_backup::{
    compress, is_administrative_name, object_key, select_targets, Action, BackupError, DumpFailure,
    Run, Stage,
};

fn names(list: &[&str]) -> Vec<String> {
    list.iter().map(|s| s.to_string()).collect()
}

fn decompress(bytes: &[u8]) -> Vec<u8> {
    let mut out = Vec::new();
    GzDecoder::new(bytes).read_to_end(&mut out).unwrap();
    out
}

#[test]
fn compression_round_trips() {
    let inputs: Vec<Vec<u8>> = vec![
        Vec::new(),
        b"CREATE TABLE tasks (id int);\n".to_vec(),
        vec![0u8; 100_000],
        (0..=255u8).cycle().take(70_000).collect(),
    ];
    for input in inputs {
        let archive = compress(&input).ok().unwrap();
        assert_eq!(decompress(&archive), input);
    }
}

#[test]
fn compression_writes_a_gzip_stream() {
    let input = b"-- dump of tasks\n".repeat(50);
    let archive = compress(&input).ok().unwrap();
    assert_ne!(archive, input);
    assert_eq!(&archive[..3], &[0x1f, 0x8b, 8]);
    assert!(archive.len() < input.len());
}

#[test]
fn compression_depends_on_content_alone() {
    let input = b"SELECT 1;".to_vec();
    assert_eq!(compress(&input).ok().unwrap(), compress(&input).ok().unwrap());
}

#[test]
fn discovery_drops_administrative_databases() {
    let catalog = names(&["postgres", "template0", "template1", "tasks", "billing"]);
    assert_eq!(select_targets(&catalog), names(&["tasks", "billing"]));
}

#[test]
fn discovery_keeps_catalog_order_and_lookalikes() {
    let catalog = names(&["zeta", "postgres", "alpha", "Postgres", "template2", "template0"]);
    assert_eq!(select_targets(&catalog), names(&["zeta", "alpha", "Postgres", "template2"]));
    assert!(select_targets(&Vec::new()).is_empty());
    assert!(is_administrative_name(&"template1".to_string()));
    assert!(!is_administrative_name(&"postgres2".to_string()));
}

#[test]
fn object_key_is_database_and_date() {
    assert_eq!(object_key("tasks", "2024-03-01"), "tasks/tasks.2024-03-01.sql.gz");
    assert_eq!(object_key("tasks", "2024-03-01"), object_key("tasks", "2024-03-01"));
    assert_ne!(object_key("tasks", "2024-03-01"), object_key("tasks", "2024-03-02"));
}

fn expect_dump(action: &Action, database: &str) {
    match action {
        Action::Dump { database: d } => assert_eq!(d, database),
        _ => panic!("expected a dump of {database}"),
    }
}

#[test]
fn run_backs_up_every_target_in_order() {
    let catalog = names(&["postgres", "tasks", "billing"]);
    let (mut run, action) = Run::start(&catalog, "2024-03-01".to_string());
    assert_eq!(run.targets(), &names(&["tasks", "billing"]));
    expect_dump(&action, "tasks");

    let dump = b"tasks dump".to_vec();
    match run.dumped(Ok(dump.clone())) {
        Action::Upload { key, body } => {
            assert_eq!(key, "tasks/tasks.2024-03-01.sql.gz");
            assert_eq!(decompress(&body), dump);
        }
        _ => panic!("expected an upload"),
    }
    assert_eq!(run.stage(), Stage::Uploading);
    expect_dump(&run.uploaded(true), "billing");
    assert_eq!(run.position(), 1);

    match run.dumped(Ok(Vec::new())) {
        Action::Upload { key, body } => {
            assert_eq!(key, "billing/billing.2024-03-01.sql.gz");
            assert!(decompress(&body).is_empty());
        }
        _ => panic!("expected an upload"),
    }
    assert!(matches!(run.uploaded(true), Action::Finish));
    assert_eq!(run.stage(), Stage::Finished);
    assert_eq!(run.position(), 2);
}

#[test]
fn run_with_no_targets_finishes_at_once() {
    let catalog = names(&["postgres", "template0", "template1"]);
    let (run, action) = Run::start(&catalog, "2024-03-01".to_string());
    assert!(matches!(action, Action::Finish));
    assert_eq!(run.stage(), Stage::Finished);
}

#[test]
fn failed_dump_aborts_the_rest_of_the_run() {
    let catalog = names(&["one", "two", "three"]);
    let (mut run, action) = Run::start(&catalog, "2024-03-01".to_string());
    let mut dumped = Vec::new();
    let mut action = action;
    let outcome = loop {
        match action {
            Action::Dump { database } => {
                dumped.push(database.clone());
                let result = if database == "two" {
                    Err(DumpFailure::Execution)
                } else {
                    Ok(format!("{database} dump").into_bytes())
                };
                action = run.dumped(result);
            }
            Action::Upload { .. } => action = run.uploaded(true),
            Action::Finish => break Ok(()),
            Action::Abort { error } => break Err(error),
        }
    };
    assert_eq!(outcome, Err(BackupError::DumpExecution));
    assert_eq!(dumped, names(&["one", "two"]));
    assert_eq!(run.stage(), Stage::Aborted);
    assert_eq!(run.position(), 1);
}

#[test]
fn dump_that_cannot_start_aborts_the_run() {
    let (mut run, _) = Run::start(&names(&["tasks"]), "2024-03-01".to_string());
    assert!(matches!(
        run.dumped(Err(DumpFailure::Spawn)),
        Action::Abort { error: BackupError::DumpSpawn }
    ));
    assert_eq!(run.stage(), Stage::Aborted);
}

#[test]
fn failed_compression_aborts_the_run() {
    let (mut run, _) = Run::start(&names(&["tasks"]), "2024-03-01".to_string());
    assert!(matches!(
        run.compressed(Err(BackupError::Compression)),
        Action::Abort { error: BackupError::Compression }
    ));
    assert_eq!(run.stage(), Stage::Aborted);
}

#[test]
fn compressed_archive_is_uploaded_as_given() {
    let (mut run, _) = Run::start(&names(&["tasks"]), "2024-03-01".to_string());
    match run.compressed(Ok(vec![1, 2, 3])) {
        Action::Upload { key, body } => {
            assert_eq!(key, "tasks/tasks.2024-03-01.sql.gz");
            assert_eq!(body, vec![1, 2, 3]);
        }
        _ => panic!("expected an upload"),
    }
}

#[test]
fn failed_upload_aborts_the_run() {
    let (mut run, _) = Run::start(&names(&["tasks", "billing"]), "2024-03-01".to_string());
    run.dumped(Ok(b"x".to_vec()));
    assert!(matches!(run.uploaded(false), Action::Abort { error: BackupError::Upload }));
    assert_eq!(run.stage(), Stage::Aborted);
    assert_eq!(run.position(), 0);
}

#[test]
fn dump_failures_map_to_their_errors() {
    assert_eq!(DumpFailure::Spawn.to_error(), BackupError::DumpSpawn);
    assert_eq!(DumpFailure::Execution.to_error(), BackupError::DumpExecution);
}
