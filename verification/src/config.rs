use vstd::prelude::*;

use crate::text::{decimal_text, push_char, push_decimal};

verus! {

/// Whether `c` is an ASCII decimal digit.
pub open spec fn is_digit(c: char) -> bool {
    '0' <= c <= '9'
}

/// The value of a sequence of decimal digits, most significant first.
pub open spec fn digits_value(digits: Seq<char>) -> nat
    decreases digits.len(),
{
    if digits.len() == 0 {
        0
    } else {
        digits_value(digits.drop_last()) * 10 + ((digits.last() as int) - ('0' as int)) as nat
    }
}

/// What `str::parse` reads as an unsigned integer of at most `max`: an optional
/// `+` and then one or more decimal digits, with nothing else, whose value fits.
pub open spec fn unsigned_parsed(text: Seq<char>, max: nat) -> Option<nat> {
    let digits = if text.len() > 0 && text[0] == '+' {
        text.drop_first()
    } else {
        text
    };
    if digits.len() > 0 && (forall|i: int| 0 <= i < digits.len() ==> is_digit(#[trigger] digits[i]))
        && digits_value(digits) <= max {
        Some(digits_value(digits))
    } else {
        None
    }
}

/// Reads a port number with `str::parse::<u16>`.
/// Trusted: std documents that an unsigned integer is read from an optional `+`
/// followed by decimal digits only, and that a value out of range is an error.
#[verifier::external_body]
fn parse_u16(text: &str) -> (res: Option<u16>)
    ensures
        match unsigned_parsed(text@, u16::MAX as nat) {
            Some(v) => res == Some(v as u16),
            None => res is None,
        },
{
    text.parse::<u16>().ok()
}

/// Reads a count with `str::parse::<u32>` (trusted as `parse_u16`).
#[verifier::external_body]
fn parse_u32(text: &str) -> (res: Option<u32>)
    ensures
        match unsigned_parsed(text@, u32::MAX as nat) {
            Some(v) => res == Some(v as u32),
            None => res is None,
        },
{
    text.parse::<u32>().ok()
}

/// Reads a size with `str::parse::<usize>` (trusted as `parse_u16`).
#[verifier::external_body]
fn parse_usize(text: &str) -> (res: Option<usize>)
    ensures
        match unsigned_parsed(text@, usize::MAX as nat) {
            Some(v) => res == Some(v as usize),
            None => res is None,
        },
{
    text.parse::<usize>().ok()
}

/// The host used when none is set.
pub open spec fn default_host() -> Seq<char> {
    "127.0.0.1"@
}

/// The port used when none is set or the setting does not read.
pub const DEFAULT_PORT: u16 = 8080u16;

/// The database used when none is set.
pub open spec fn default_database_url() -> Seq<char> {
    "sqlite://image-indexer-demo.db"@
}

/// The storage root used when none is set.
pub open spec fn default_storage_root() -> Seq<char> {
    "storage"@
}

/// The attempts a job gets when no setting reads.
pub const DEFAULT_MAX_ATTEMPTS: u32 = 3u32;

/// The largest upload, in bytes, when no setting reads: 10 MiB.
pub const DEFAULT_MAX_UPLOAD_BYTES: usize = 10485760usize;

/// The service's settings.
#[derive(Debug, Clone)]
pub struct Config {
    pub host: String,
    pub port: u16,
    pub database_url: String,
    pub storage_root: String,
    pub max_attempts: u32,
    pub max_upload_bytes: usize,
}

/// A text setting, or its default where it is not set.
fn text_or(value: Option<String>, default: &str) -> (res: String)
    ensures
        res@ == match value {
            Some(v) => v@,
            None => default@,
        },
{
    match value {
        Some(v) => v,
        None => String::from_str(default),
    }
}

impl Config {
    /// Settings from values already read, each replaced by its default where absent.
    pub fn from_settings(
        host: Option<String>,
        port: Option<u16>,
        database_url: Option<String>,
        storage_root: Option<String>,
        max_attempts: Option<u32>,
        max_upload_bytes: Option<usize>,
    ) -> (res: Config)
        ensures
            res.host@ == match host {
                Some(v) => v@,
                None => default_host(),
            },
            res.port == match port {
                Some(v) => v,
                None => DEFAULT_PORT,
            },
            res.database_url@ == match database_url {
                Some(v) => v@,
                None => default_database_url(),
            },
            res.storage_root@ == match storage_root {
                Some(v) => v@,
                None => default_storage_root(),
            },
            res.max_attempts == match max_attempts {
                Some(v) => v,
                None => DEFAULT_MAX_ATTEMPTS,
            },
            res.max_upload_bytes == match max_upload_bytes {
                Some(v) => v,
                None => DEFAULT_MAX_UPLOAD_BYTES,
            },
    {
        Config {
            host: text_or(host, "127.0.0.1"),
            port: match port {
                Some(v) => v,
                None => DEFAULT_PORT,
            },
            database_url: text_or(database_url, "sqlite://image-indexer-demo.db"),
            storage_root: text_or(storage_root, "storage"),
            max_attempts: match max_attempts {
                Some(v) => v,
                None => DEFAULT_MAX_ATTEMPTS,
            },
            max_upload_bytes: match max_upload_bytes {
                Some(v) => v,
                None => DEFAULT_MAX_UPLOAD_BYTES,
            },
        }
    }

    /// Settings from the environment's texts (`HOST`, `PORT`, `DATABASE_URL`,
    /// `STORAGE_ROOT`, `MAX_ATTEMPTS`, `MAX_UPLOAD_BYTES`): a number that does not
    /// read, like an unset value, takes the default.
    pub fn from_env_values(
        host: Option<String>,
        port: Option<String>,
        database_url: Option<String>,
        storage_root: Option<String>,
        max_attempts: Option<String>,
        max_upload_bytes: Option<String>,
    ) -> (res: Config)
        ensures
            res.host@ == match host {
                Some(v) => v@,
                None => default_host(),
            },
            res.port == match port {
                Some(v) => match unsigned_parsed(v@, u16::MAX as nat) {
                    Some(n) => n as u16,
                    None => DEFAULT_PORT,
                },
                None => DEFAULT_PORT,
            },
            res.database_url@ == match database_url {
                Some(v) => v@,
                None => default_database_url(),
            },
            res.storage_root@ == match storage_root {
                Some(v) => v@,
                None => default_storage_root(),
            },
            res.max_attempts == match max_attempts {
                Some(v) => match unsigned_parsed(v@, u32::MAX as nat) {
                    Some(n) => n as u32,
                    None => DEFAULT_MAX_ATTEMPTS,
                },
                None => DEFAULT_MAX_ATTEMPTS,
            },
            res.max_upload_bytes == match max_upload_bytes {
                Some(v) => match unsigned_parsed(v@, usize::MAX as nat) {
                    Some(n) => n as usize,
                    None => DEFAULT_MAX_UPLOAD_BYTES,
                },
                None => DEFAULT_MAX_UPLOAD_BYTES,
            },
    {
        let port = match port {
            Some(v) => parse_u16(v.as_str()),
            None => None,
        };
        let max_attempts = match max_attempts {
            Some(v) => parse_u32(v.as_str()),
            None => None,
        };
        let max_upload_bytes = match max_upload_bytes {
            Some(v) => parse_usize(v.as_str()),
            None => None,
        };
        Config::from_settings(host, port, database_url, storage_root, max_attempts, max_upload_bytes)
    }

    /// The address to listen on: the host, a colon and the port in decimal.
    pub fn bind_address(&self) -> (res: String)
        ensures
            res@ == self.host@ + seq![':'] + decimal_text(self.port as nat),
    {
        let mut address = self.host.clone();
        push_char(&mut address, ':');
        push_decimal(&mut address, self.port as u64);
        address
    }
}

} // verus!
