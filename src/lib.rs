//! Periodic backups of every user database on a server: the decisions of
//! when to run, which databases to back up, how each archive is named, and
//! how one run is sequenced, each stated as a contract and proved.

mod archive;
mod catalog;
mod clock;
mod config;
mod error;
mod run;
mod schedule;

pub use archive::{compress, gzip_of, lemma_object_key_stable, object_key, object_key_spec};
pub use catalog::{is_administrative, is_administrative_name, select_targets, targets_spec};
pub use clock::{
    get_initial_offset, lemma_offset_within_day, offset_spec, TimeOfDay, SECONDS_PER_DAY,
};
pub use config::{
    decimal, decimal_text, dump_args_spec, parse_port, port_of, DatabaseConfig, DumpCommand,
    DUMP_PROGRAM, PASSWORD_VARIABLE,
};
pub use error::{BackupError, DumpFailure};
pub use schedule::{
    due_at, lemma_no_drift, lemma_overrun_fires_immediately, wait_spec, Schedule,
};
pub use run::{
    abort_spec, after_compress_spec, after_upload_spec, archive_outcome, start_spec, Action,
    ActionView, Run, RunView, Stage, lemma_failure_aborts, lemma_successful_step,
};
