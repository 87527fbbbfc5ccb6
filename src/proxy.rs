//! Stored extensions: a tag, creation and update times, and the component
//! bytes.
use vstd::prelude::*;

verus! {

/// The format in which the store writes times.
pub const TIMESTAMP_FORMAT: &'static str = "%Y-%m-%d %H:%M:%S";

/// What `chrono` reads from `s` in the `strftime` format `format`: seconds
/// since the Unix epoch, taking the time as UTC, or `None` where `s` is not
/// such a time.
pub uninterp spec fn parsed_timestamp(s: Seq<char>, format: Seq<char>) -> Option<i64>;

/// A time as the store writes it, as a Unix timestamp.
pub open spec fn stored_timestamp(s: Seq<char>) -> Option<i64> {
    parsed_timestamp(s, TIMESTAMP_FORMAT@)
}

/// Relies on `chrono::NaiveDateTime::parse_from_str`, read as UTC and turned
/// into a Unix timestamp; a parse error gives `None`.
#[verifier::external_body]
fn parse_timestamp(s: &str, format: &str) -> (r: Option<i64>)
    ensures
        r == parsed_timestamp(s@, format@),
{
    chrono::NaiveDateTime::parse_from_str(s, format).ok().map(|d| d.and_utc().timestamp())
}

/// Relies on `chrono::Utc::now`: the current Unix timestamp.
#[verifier::external_body]
fn now_timestamp() -> (r: i64) {
    chrono::Utc::now().timestamp()
}

/// A column that should hold a time and does not.
#[derive(Debug, PartialEq, Eq)]
pub enum TimestampError {
    CreatedAt,
    UpdatedAt,
}

/// The description of a stored extension.
#[derive(Debug, PartialEq, Eq)]
pub struct ProxyMetadata {
    pub tag: String,
    pub created_at: i64,
    pub updated_at: i64,
}

impl ProxyMetadata {
    /// Metadata for a new extension, created and updated now.
    pub fn new(tag: String) -> (r: ProxyMetadata)
        ensures
            r.tag == tag,
            r.created_at == r.updated_at,
    {
        ProxyMetadata::stamped(tag, now_timestamp())
    }

    /// Metadata for a new extension created and updated at `now`.
    pub fn stamped(tag: String, now: i64) -> (r: ProxyMetadata)
        ensures
            r == (ProxyMetadata { tag, created_at: now, updated_at: now }),
    {
        ProxyMetadata { tag, created_at: now, updated_at: now }
    }

    /// Metadata from the store's columns: the tag and two times as text.
    pub fn from_columns(tag: String, created_at: &str, updated_at: &str) -> (r: Result<
        ProxyMetadata,
        TimestampError,
    >)
        ensures
            match (stored_timestamp(created_at@), stored_timestamp(updated_at@)) {
                (Some(c), Some(u)) => r == Ok::<ProxyMetadata, TimestampError>(
                    ProxyMetadata { tag, created_at: c, updated_at: u },
                ),
                (None, _) => r == Err::<ProxyMetadata, TimestampError>(TimestampError::CreatedAt),
                (Some(_), None) => r == Err::<ProxyMetadata, TimestampError>(
                    TimestampError::UpdatedAt,
                ),
            },
    {
        let created_at = match parse_timestamp(created_at, TIMESTAMP_FORMAT) {
            Some(t) => t,
            None => return Err(TimestampError::CreatedAt),
        };
        let updated_at = match parse_timestamp(updated_at, TIMESTAMP_FORMAT) {
            Some(t) => t,
            None => return Err(TimestampError::UpdatedAt),
        };
        Ok(ProxyMetadata { tag, created_at, updated_at })
    }
}

/// A stored extension: its metadata and its component bytes.
#[derive(Debug, PartialEq, Eq)]
pub struct Proxy {
    pub metadata: ProxyMetadata,
    pub component: Vec<u8>,
}

impl Proxy {
    /// A new extension, created and updated now.
    pub fn new(tag: String, component: Vec<u8>) -> (r: Proxy)
        ensures
            r.metadata.tag == tag,
            r.metadata.created_at == r.metadata.updated_at,
            r.component == component,
    {
        Proxy { metadata: ProxyMetadata::new(tag), component }
    }

    /// An extension from the store's columns.
    pub fn from_columns(tag: String, created_at: &str, updated_at: &str, component: Vec<u8>) -> (r:
        Result<Proxy, TimestampError>)
        ensures
            match (stored_timestamp(created_at@), stored_timestamp(updated_at@)) {
                (Some(c), Some(u)) => r == Ok::<Proxy, TimestampError>(
                    Proxy { metadata: ProxyMetadata { tag, created_at: c, updated_at: u }, component },
                ),
                (None, _) => r == Err::<Proxy, TimestampError>(TimestampError::CreatedAt),
                (Some(_), None) => r == Err::<Proxy, TimestampError>(TimestampError::UpdatedAt),
            },
    {
        match ProxyMetadata::from_columns(tag, created_at, updated_at) {
            Ok(metadata) => Ok(Proxy { metadata, component }),
            Err(e) => Err(e),
        }
    }
}

} // verus!
