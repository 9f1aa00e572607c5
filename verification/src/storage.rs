//! Object storage configuration and key layout.
//!
//! The stores themselves — S3, the local filesystem, memory — are
//! outside the library, as is reading the environment. What is decided
//! here is the configuration record, the normalisation of text read
//! from the environment, and how an object key is joined with the
//! configured prefix.

use vstd::prelude::*;
use crate::text::str_eq;

verus! {

/// The text with leading and trailing whitespace removed.
pub uninterp spec fn trimmed(s: Seq<char>) -> Seq<char>;

/// An ASCII uppercase letter mapped to its lowercase form; any other
/// character unchanged.
pub open spec fn ascii_lower_char(c: char) -> char {
    if 'A' <= c && c <= 'Z' {
        ((c as u8) + 32) as char
    } else {
        c
    }
}

/// The text with ASCII letters lowered.
pub open spec fn ascii_lowered(s: Seq<char>) -> Seq<char> {
    s.map_values(|c: char| ascii_lower_char(c))
}

/// The text with leading slashes removed.
pub open spec fn slash_trimmed_start(s: Seq<char>) -> Seq<char>
    decreases s.len(),
{
    if s.len() > 0 && s[0] == '/' {
        slash_trimmed_start(s.drop_first())
    } else {
        s
    }
}

/// The text with trailing slashes removed.
pub open spec fn slash_trimmed_end(s: Seq<char>) -> Seq<char>
    decreases s.len(),
{
    if s.len() > 0 && s.last() == '/' {
        slash_trimmed_end(s.drop_last())
    } else {
        s
    }
}

/// The text with leading and trailing slashes removed.
pub open spec fn slash_trimmed(s: Seq<char>) -> Seq<char> {
    slash_trimmed_end(slash_trimmed_start(s))
}

/// Relies on str::trim: removes leading and trailing whitespace, so the
/// result is no longer than the input and empty input stays empty.
#[verifier::external_body]
fn trim_text(s: &str) -> (r: String)
    ensures
        r@ == trimmed(s@),
        r@.len() <= s@.len(),
        s@.len() == 0 ==> r@.len() == 0,
{
    s.trim().to_owned()
}

/// Relies on str::to_ascii_lowercase: lowers each ASCII uppercase
/// letter and keeps every other character.
#[verifier::external_body]
fn ascii_lower_text(s: &str) -> (r: String)
    ensures
        r@ == ascii_lowered(s@),
{
    s.to_ascii_lowercase()
}

/// Relies on str::trim_start_matches with a slash pattern: removes
/// leading slashes.
#[verifier::external_body]
fn trim_leading_slashes(s: &str) -> (r: String)
    ensures
        r@ == slash_trimmed_start(s@),
{
    s.trim_start_matches('/').to_owned()
}

/// Relies on str::trim_matches with a slash pattern: removes leading
/// and trailing slashes.
#[verifier::external_body]
fn trim_edge_slashes(s: &str) -> (r: String)
    ensures
        r@ == slash_trimmed(s@),
{
    s.trim_matches('/').to_owned()
}

/// The trimmed text, or None when nothing but whitespace remains.
pub fn non_empty(s: String) -> (r: Option<String>)
    ensures
        match r {
            None => trimmed(s@).len() == 0,
            Some(t) => trimmed(s@).len() > 0 && t@ == trimmed(s@),
        },
{
    let t = trim_text(s.as_str());
    if t.as_str().is_empty() {
        None
    } else {
        Some(t)
    }
}

/// Read a boolean from its environment spelling: after trimming and
/// ASCII-lowering, the usual affirmative spellings are true, the usual
/// negative ones false, and anything else is not a boolean.
pub fn parse_bool_text(v: &str) -> (r: Option<bool>)
    ensures
        ({
            let n = ascii_lowered(trimmed(v@));
            if n == "1"@ || n == "true"@ || n == "yes"@ || n == "y"@ {
                r == Some(true)
            } else if n == "0"@ || n == "false"@ || n == "no"@ || n == "n"@ {
                r == Some(false)
            } else {
                r is None
            }
        }),
{
    let t = trim_text(v);
    let n = ascii_lower_text(t.as_str());
    let s = n.as_str();
    if str_eq(s, "1") || str_eq(s, "true") || str_eq(s, "yes") || str_eq(s, "y") {
        Some(true)
    } else if str_eq(s, "0") || str_eq(s, "false") || str_eq(s, "no") || str_eq(s, "n") {
        Some(false)
    } else {
        None
    }
}

/// The kind of backing store in use.
#[derive(Clone, Copy, PartialEq, Eq, Structural, Debug)]
pub enum StorageKind {
    S3,
    Filesystem,
    Memory,
}

/// The display name of a storage kind.
pub open spec fn storage_kind_name(k: StorageKind) -> Seq<char> {
    match k {
        StorageKind::S3 => "s3"@,
        StorageKind::Filesystem => "filesystem"@,
        StorageKind::Memory => "memory"@,
    }
}

impl StorageKind {
    pub fn as_str(self) -> (r: &'static str)
        ensures
            r@ == storage_kind_name(self),
    {
        match self {
            StorageKind::S3 => "s3",
            StorageKind::Filesystem => "filesystem",
            StorageKind::Memory => "memory",
        }
    }
}

/// Configuration for an S3-compatible store.
#[derive(Clone, PartialEq, Eq, Debug)]
pub struct S3Config {
    pub bucket: String,
    pub region: String,
    pub endpoint: Option<String>,
    pub allow_http: bool,
    pub access_key_id: Option<String>,
    pub secret_access_key: Option<String>,
    pub session_token: Option<String>,
    pub virtual_hosted_style: bool,
}

/// Which backing store to use, with its settings.
#[derive(Clone, PartialEq, Eq, Debug)]
pub enum StorageBackendConfig {
    S3(S3Config),
    Filesystem { root: String },
    Memory,
}

/// Object storage configuration.
#[derive(Clone, PartialEq, Eq, Debug)]
pub struct StorageConfig {
    pub backend: StorageBackendConfig,
    /// Optional key prefix applied to all object keys.
    pub prefix: Option<String>,
}

impl StorageConfig {
    pub fn memory() -> (r: Self)
        ensures
            r == (StorageConfig { backend: StorageBackendConfig::Memory, prefix: None::<String> }),
    {
        StorageConfig { backend: StorageBackendConfig::Memory, prefix: None }
    }

    pub fn filesystem(root: String) -> (r: Self)
        ensures
            r == (StorageConfig {
                backend: StorageBackendConfig::Filesystem { root: root },
                prefix: None::<String>,
            }),
    {
        StorageConfig { backend: StorageBackendConfig::Filesystem { root }, prefix: None }
    }

    pub fn s3(cfg: S3Config) -> (r: Self)
        ensures
            r == (StorageConfig { backend: StorageBackendConfig::S3(cfg), prefix: None::<String> }),
    {
        StorageConfig { backend: StorageBackendConfig::S3(cfg), prefix: None }
    }
}

/// The full key an object is stored under: the key with leading slashes
/// removed, behind the prefix (itself stripped of edge slashes) when one
/// is configured and non-empty. A key that is empty once its slashes are
/// gone names nothing and is refused.
pub fn object_key(prefix: &Option<String>, key: &str) -> (r: Option<String>)
    ensures
        ({
            let k = slash_trimmed_start(key@);
            if k.len() == 0 {
                r is None
            } else {
                match prefix {
                    None => (r matches Some(t) && t@ == k),
                    Some(p) => {
                        let pp = slash_trimmed(p@);
                        if pp.len() == 0 {
                            r matches Some(t) && t@ == k
                        } else {
                            r matches Some(t) && t@ == pp + "/"@ + k
                        }
                    },
                }
            }
        }),
{
    let k = trim_leading_slashes(key);
    if k.as_str().is_empty() {
        return None;
    }
    match prefix {
        None => Some(k),
        Some(p) => {
            let pp = trim_edge_slashes(p.as_str());
            if pp.as_str().is_empty() {
                Some(k)
            } else {
                Some(pp.concat("/").concat(k.as_str()))
            }
        },
    }
}

} // verus!
