use crate::archive::{compress, gzip_of, object_key, object_key_spec};
use crate::catalog::{select_targets, targets_spec};
use crate::error::{dump_error_spec, BackupError, DumpFailure};
use vstd::prelude::*;

verus! {

/// Where a run stands.
#[derive(Clone, Copy, Debug, PartialEq, Eq, Structural)]
pub enum Stage {
    /// Waiting for the dump of the current database.
    Dumping,
    /// Waiting for the upload of the current database's archive.
    Uploading,
    /// Every database was backed up.
    Finished,
    /// A step failed; the databases after the current one are left alone.
    Aborted,
}

/// What the caller is to do next.
pub enum Action {
    /// Run the dump utility for this database and report the outcome.
    Dump { database: String },
    /// Store this archive under this key and report the outcome.
    Upload { key: String, body: Vec<u8> },
    /// The run is complete.
    Finish,
    /// The run failed with this error.
    Abort { error: BackupError },
}

/// An action as a mathematical value.
pub ghost enum ActionView {
    Dump(Seq<char>),
    Upload(Seq<char>, Seq<u8>),
    Finish,
    Abort(BackupError),
}

impl View for Action {
    type V = ActionView;

    open spec fn view(&self) -> ActionView {
        match self {
            Action::Dump { database } => ActionView::Dump(database@),
            Action::Upload { key, body } => ActionView::Upload(key@, body@),
            Action::Finish => ActionView::Finish,
            Action::Abort { error } => ActionView::Abort(*error),
        }
    }
}

/// A run as a mathematical value: its targets, its date, how many targets
/// are done, and where it stands.
pub ghost struct RunView {
    pub targets: Seq<Seq<char>>,
    pub date: Seq<char>,
    pub position: nat,
    pub stage: Stage,
}

/// One backup run: the databases to back up, in catalog order, each dumped,
/// compressed and uploaded before the next begins; the first failure ends
/// the run.
pub struct Run {
    targets: Vec<String>,
    date: String,
    position: usize,
    stage: Stage,
}

/// How a run begins: with the first database to back up, or finished at
/// once where the catalog holds none.
pub open spec fn start_spec(catalog: Seq<Seq<char>>, date: Seq<char>) -> (RunView, ActionView) {
    let targets = targets_spec(catalog);
    if targets.len() == 0 {
        (RunView { targets, date, position: 0, stage: Stage::Finished }, ActionView::Finish)
    } else {
        (
            RunView { targets, date, position: 0, stage: Stage::Dumping },
            ActionView::Dump(targets[0]),
        )
    }
}

/// A run that stops on `error`.
pub open spec fn abort_spec(run: RunView, error: BackupError) -> (RunView, ActionView) {
    (RunView { stage: Stage::Aborted, ..run }, ActionView::Abort(error))
}

/// After the current dump was compressed, or failed to be: upload the
/// archive under the database's key for the run's date, or stop.
pub open spec fn after_compress_spec(run: RunView, outcome: Result<Seq<u8>, BackupError>) -> (
    RunView,
    ActionView,
) {
    match outcome {
        Ok(archive) => (
            RunView { stage: Stage::Uploading, ..run },
            ActionView::Upload(object_key_spec(run.targets[run.position as int], run.date), archive),
        ),
        Err(error) => abort_spec(run, error),
    }
}

/// After the current archive was stored, or failed to be: go on with the
/// next database, finish after the last, or stop.
pub open spec fn after_upload_spec(run: RunView, stored: bool) -> (RunView, ActionView) {
    if stored {
        let next = run.position + 1;
        if next < run.targets.len() {
            (
                RunView { position: next, stage: Stage::Dumping, ..run },
                ActionView::Dump(run.targets[next as int]),
            )
        } else {
            (RunView { position: next, stage: Stage::Finished, ..run }, ActionView::Finish)
        }
    } else {
        abort_spec(run, BackupError::Upload)
    }
}

/// The outcome of compressing, with the archive as a byte sequence.
pub open spec fn archive_outcome(outcome: Result<Vec<u8>, BackupError>) -> Result<
    Seq<u8>,
    BackupError,
> {
    match outcome {
        Ok(archive) => Ok(archive@),
        Err(error) => Err(error),
    }
}

impl View for Run {
    type V = RunView;

    closed spec fn view(&self) -> RunView {
        RunView {
            targets: self.targets.deep_view(),
            date: self.date@,
            position: self.position as nat,
            stage: self.stage,
        }
    }
}

impl Run {
    #[verifier::type_invariant]
    spec fn consistent(self) -> bool {
        &&& self.position <= self.targets.len()
        &&& (self.stage == Stage::Dumping || self.stage == Stage::Uploading) ==> self.position
            < self.targets.len()
        &&& self.stage == Stage::Finished ==> self.position == self.targets.len()
    }

    /// Begins the run of `date` over the names that the catalog lists.
    pub fn start(catalog: &Vec<String>, date: String) -> (r: (Run, Action))
        ensures
            (r.0@, r.1@) == start_spec(catalog.deep_view(), date@),
    {
        let targets = select_targets(catalog);
        if targets.len() == 0 {
            (Run { targets, date, position: 0, stage: Stage::Finished }, Action::Finish)
        } else {
            let database = targets[0].clone();
            (Run { targets, date, position: 0, stage: Stage::Dumping }, Action::Dump { database })
        }
    }

    /// Takes the outcome of the current dump: a failure ends the run with
    /// its error; a dump is compressed and handed on for upload under the
    /// database's key.
    pub fn dumped(&mut self, outcome: Result<Vec<u8>, DumpFailure>) -> (r: Action)
        requires
            old(self)@.stage == Stage::Dumping,
        ensures
            match outcome {
                Ok(dump) => (final(self)@, r@) == after_compress_spec(
                    old(self)@,
                    Ok(gzip_of(dump@)),
                ),
                Err(failure) => (final(self)@, r@) == abort_spec(
                    old(self)@,
                    dump_error_spec(failure),
                ),
            },
    {
        proof {
            use_type_invariant(&*self);
        }
        match outcome {
            Ok(dump) => {
                let archive = compress(dump.as_slice());
                self.compressed(archive)
            },
            Err(failure) => {
                let error = failure.to_error();
                self.stage = Stage::Aborted;
                Action::Abort { error }
            },
        }
    }

    /// Takes the compressed archive of the current dump, or the error of
    /// compressing it.
    pub fn compressed(&mut self, outcome: Result<Vec<u8>, BackupError>) -> (r: Action)
        requires
            old(self)@.stage == Stage::Dumping,
        ensures
            (final(self)@, r@) == after_compress_spec(old(self)@, archive_outcome(outcome)),
    {
        proof {
            use_type_invariant(&*self);
        }
        match outcome {
            Ok(body) => {
                let key = object_key(self.targets[self.position].as_str(), self.date.as_str());
                self.stage = Stage::Uploading;
                Action::Upload { key, body }
            },
            Err(error) => {
                self.stage = Stage::Aborted;
                Action::Abort { error }
            },
        }
    }

    /// Takes whether the current archive was stored.
    pub fn uploaded(&mut self, stored: bool) -> (r: Action)
        requires
            old(self)@.stage == Stage::Uploading,
        ensures
            (final(self)@, r@) == after_upload_spec(old(self)@, stored),
    {
        proof {
            use_type_invariant(&*self);
        }
        if stored {
            self.stage = Stage::Aborted;
            self.position = self.position + 1;
            if self.position < self.targets.len() {
                self.stage = Stage::Dumping;
                Action::Dump { database: self.targets[self.position].clone() }
            } else {
                self.stage = Stage::Finished;
                Action::Finish
            }
        } else {
            self.stage = Stage::Aborted;
            Action::Abort { error: BackupError::Upload }
        }
    }

    /// Where the run stands.
    pub fn stage(&self) -> (r: Stage)
        ensures
            r == self@.stage,
    {
        self.stage
    }

    /// How many databases have been backed up so far.
    pub fn position(&self) -> (r: usize)
        ensures
            r == self@.position,
    {
        self.position
    }

    /// The databases that this run backs up, in order.
    pub fn targets(&self) -> (r: &Vec<String>)
        ensures
            r.deep_view() == self@.targets,
    {
        &self.targets
    }
}

/// Where every step succeeds, each database in turn has its dump compressed
/// and uploaded under its own key for the run's date, and the run moves to
/// the next database in catalog order, finishing after the last one.
pub proof fn lemma_successful_step(run: RunView, dump: Seq<u8>)
    requires
        run.stage == Stage::Dumping,
        run.position < run.targets.len(),
    ensures
        ({
            let (uploading, upload) = after_compress_spec(run, Ok(gzip_of(dump)));
            let (next, action) = after_upload_spec(uploading, true);
            &&& uploading.stage == Stage::Uploading
            &&& upload == ActionView::Upload(
                object_key_spec(run.targets[run.position as int], run.date),
                gzip_of(dump),
            )
            &&& next.targets == run.targets && next.date == run.date
            &&& next.position == run.position + 1
            &&& next.position < run.targets.len() ==> next.stage == Stage::Dumping && action
                == ActionView::Dump(run.targets[next.position as int])
            &&& next.position == run.targets.len() ==> next.stage == Stage::Finished && action
                == ActionView::Finish
        }),
{
}

/// A run finishes only when no step fails: a failed dump, compression or
/// upload aborts it with that step's error, at the database where it
/// failed, so no later database is dumped.
pub proof fn lemma_failure_aborts(run: RunView, failure: DumpFailure, error: BackupError)
    ensures
        abort_spec(run, dump_error_spec(failure)).0.stage == Stage::Aborted,
        abort_spec(run, dump_error_spec(failure)).0.position == run.position,
        abort_spec(run, dump_error_spec(failure)).1 == ActionView::Abort(dump_error_spec(failure)),
        after_compress_spec(run, Err(error)).0.stage == Stage::Aborted,
        after_compress_spec(run, Err(error)).0.position == run.position,
        after_compress_spec(run, Err(error)).1 == ActionView::Abort(error),
        after_upload_spec(run, false).0.stage == Stage::Aborted,
        after_upload_spec(run, false).0.position == run.position,
        after_upload_spec(run, false).1 == ActionView::Abort(BackupError::Upload),
{
}

} // verus!
