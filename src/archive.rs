use crate::error::BackupError;
use flate2::write::GzEncoder;
use flate2::Compression;
use std::io::Write;
use vstd::prelude::*;

verus! {

#[verifier::external_type_specification]
#[verifier::external_body]
pub struct ExIoError(std::io::Error);

/// The gzip stream that flate2 writes for `content` at the default level.
pub uninterp spec fn gzip_of(content: Seq<u8>) -> Seq<u8>;

/// Relies on flate2's `GzEncoder::new`, `write_all` and `finish` at
/// `Compression::default()`: one gzip member with a fixed header (no time
/// stamp, no name), so the stream depends on the content alone. The encoder
/// writes into a `Vec`, which never refuses a write, and empties its own
/// output buffer before each deflate call, so no step fails.
#[verifier::external_body]
fn gzip(content: &[u8]) -> (r: Result<Vec<u8>, std::io::Error>)
    ensures
        r is Ok,
        r matches Ok(c) ==> c@ == gzip_of(content@),
{
    let mut encoder = GzEncoder::new(Vec::new(), Compression::default());
    encoder.write_all(content)?;
    encoder.finish()
}

/// Compresses a dump into a gzip archive. The error `Compression` stands
/// for an encoder that cannot be finished, which an in-memory archive
/// never meets.
pub fn compress(content: &[u8]) -> (r: Result<Vec<u8>, BackupError>)
    ensures
        r matches Ok(c) && c@ == gzip_of(content@),
{
    match gzip(content) {
        Ok(c) => Ok(c),
        Err(_) => Err(BackupError::Compression),
    }
}

/// The key under which the archive of `database` made on `date` is stored:
/// `{database}/{database}.{date}.sql.gz`.
pub open spec fn object_key_spec(database: Seq<char>, date: Seq<char>) -> Seq<char> {
    database + "/"@ + database + "."@ + date + ".sql.gz"@
}

/// The key under which the archive of `database` made on `date` is stored.
pub fn object_key(database: &str, date: &str) -> (r: String)
    ensures
        r@ == object_key_spec(database@, date@),
{
    let key = String::from_str(database);
    let key = key.concat("/");
    let key = key.concat(database);
    let key = key.concat(".");
    let key = key.concat(date);
    key.concat(".sql.gz")
}

/// Naming is idempotent: the same database on the same date always gets the
/// same key, so a second run on that date overwrites the first archive.
pub proof fn lemma_object_key_stable(
    database: Seq<char>,
    date: Seq<char>,
    other_database: Seq<char>,
    other_date: Seq<char>,
)
    requires
        database == other_database,
        date == other_date,
    ensures
        object_key_spec(database, date) == object_key_spec(other_database, other_date),
{
}

} // verus!
