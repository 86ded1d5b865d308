//! Project configuration and the content digest that dates a lock.

use sha2::Digest;
use sha2::Sha256;
use vstd::prelude::*;
use vstd::string::StringExecFns;

verus! {

/// Number of bytes in a SHA-256 digest.
pub const DIGEST_BYTES: usize = 32;

/// One byte of the SHA-256 digest of a byte string, by its position.
pub uninterp spec fn sha256_byte(content: Seq<u8>, position: int) -> u8;

/// The SHA-256 digest of a byte string: thirty-two bytes.
pub open spec fn sha256(content: Seq<u8>) -> Seq<u8> {
    Seq::new(DIGEST_BYTES as nat, |position: int| sha256_byte(content, position))
}

/// The lower-case hexadecimal digit for a value below sixteen.
pub open spec fn hex_digit(nibble: int) -> char {
    if nibble < 10 {
        (48 + nibble) as char
    } else {
        (87 + nibble) as char
    }
}

/// Two lower-case hexadecimal digits per byte, high nibble first.
pub open spec fn hex_lower(bytes: Seq<u8>) -> Seq<char> {
    Seq::new(
        2 * bytes.len(),
        |i: int|
            if i % 2 == 0 {
                hex_digit(bytes[i / 2] as int / 16)
            } else {
                hex_digit(bytes[i / 2] as int % 16)
            },
    )
}

/// The digest that identifies `content`: its SHA-256 in lower-case hexadecimal.
pub open spec fn digest_of(content: Seq<u8>) -> Seq<char> {
    hex_lower(sha256(content))
}

/// Calls `sha2::Sha256::digest` (the `Digest` trait's one-shot hash) and copies
/// the output array into a vector. Trusted: the result is thirty-two bytes
/// long and its bytes are those of the SHA-256 of `content`.
#[verifier::external_body]
fn sha256_bytes(content: &[u8]) -> (digest: Vec<u8>)
    ensures
        digest@.len() == DIGEST_BYTES,
        forall|position: int|
            0 <= position < DIGEST_BYTES ==> digest@[position] == sha256_byte(
                content@,
                position,
            ),
{
    Sha256::digest(content).to_vec()
}

fn hex_char(nibble: u8) -> (c: char)
    requires
        nibble < 16,
    ensures
        c == hex_digit(nibble as int),
{
    if nibble < 10 {
        (48 + nibble) as char
    } else {
        (87 + nibble) as char
    }
}

/// Lower-case hexadecimal text of `bytes`.
pub fn to_hex(bytes: &[u8]) -> (text: String)
    ensures
        text@ == hex_lower(bytes@),
{
    let mut text = String::new();
    let mut i: usize = 0;
    while i < bytes.len()
        invariant
            i <= bytes.len(),
            text@.len() == 2 * i,
            forall|k: int| 0 <= k < 2 * i ==> text@[k] == hex_lower(bytes@)[k],
        decreases bytes.len() - i,
    {
        let byte: u8 = bytes[i];
        text.push(hex_char(byte / 16));
        text.push(hex_char(byte % 16));
        i += 1;
    }
    text
}

/// The checksum of a file's content: the text that the lock step records and
/// that later runs compare against.
pub fn checksum(content: &[u8]) -> (digest: String)
    ensures
        digest@ == digest_of(content@),
        digest@.len() == 64,
{
    let raw = sha256_bytes(content);
    assert(raw@ =~= sha256(content@));
    to_hex(raw.as_slice())
}

/// Whether a lock recorded as `recorded` no longer describes `content`: the
/// recorded text differs from the content's digest. A lock that was never
/// taken is recorded as the empty text, and is stale.
pub open spec fn stale(content: Seq<u8>, recorded: Seq<char>) -> bool {
    recorded != digest_of(content)
}

/// Compares the digest of the live configuration with the recorded one.
pub fn is_stale(content: &[u8], recorded: &str) -> (answer: bool)
    ensures
        answer == stale(content@, recorded@),
{
    let live = checksum(content);
    let kept = String::from_str(recorded);
    !(kept == live)
}

/// A digest is sixty-four characters long, so a lock without a record is
/// stale whatever the configuration holds.
pub proof fn lemma_unrecorded_is_stale(content: Seq<u8>)
    ensures
        digest_of(content).len() == 64,
        stale(content, Seq::empty()),
{
    assert(Seq::<char>::empty().len() != digest_of(content).len());
}

/// Staleness follows the digest: against the record of `before`, `before`
/// itself is fresh, and any content whose digest differs is stale.
pub proof fn lemma_changed_digest_is_stale(before: Seq<u8>, after: Seq<u8>)
    requires
        digest_of(after) != digest_of(before),
    ensures
        !stale(before, digest_of(before)),
        stale(after, digest_of(before)),
{
}

/// A semantic version, field by field.
#[derive(Clone, Debug, PartialEq, Eq)]
pub struct Version {
    pub major: u64,
    pub minor: u64,
    pub patch: u64,
    /// The pre-release identifiers, empty when there are none.
    pub pre: String,
    /// The build metadata, empty when there is none.
    pub build: String,
}

/// A plugin that a project asks for.
#[derive(Clone, Debug, PartialEq, Eq)]
pub struct PluginConfig {
    pub name: String,
    pub version: Option<Version>,
    pub path: Option<String>,
}

/// A project's configuration.
#[derive(Clone, Debug, PartialEq, Eq)]
pub struct Config {
    pub name: String,
    pub version: Version,
    pub authors: Vec<String>,
    pub use_autoplay_for_multimedia: Option<bool>,
    /// Tolerance of the outline simplification, as the bit pattern of a
    /// double-precision number. The library hands it on and never computes
    /// with it.
    pub rdp_epsilon: Option<u64>,
    /// Patterns of the asset files to build.
    pub assets: Option<Vec<String>>,
    pub plugins: Option<Vec<PluginConfig>>,
}

impl Version {
    /// A release version: no pre-release identifiers, no build metadata.
    pub fn new(major: u64, minor: u64, patch: u64) -> (version: Version)
        ensures
            version.major == major,
            version.minor == minor,
            version.patch == patch,
            version.pre@.len() == 0,
            version.build@.len() == 0,
    {
        Version { major, minor, patch, pre: String::new(), build: String::new() }
    }
}

impl Config {
    /// Whether this is the configuration that a new project called `name`
    /// starts with: version 0.0.1, no authors, an empty list of assets and
    /// one of plugins, and nothing else set.
    pub open spec fn is_starter(self, name: Seq<char>) -> bool {
        &&& self.name@ == name
        &&& self.version.major == 0
        &&& self.version.minor == 0
        &&& self.version.patch == 1
        &&& self.version.pre@.len() == 0
        &&& self.version.build@.len() == 0
        &&& self.authors@.len() == 0
        &&& self.use_autoplay_for_multimedia is None
        &&& self.rdp_epsilon is None
        &&& self.assets matches Some(assets) && assets@.len() == 0
        &&& self.plugins matches Some(plugins) && plugins@.len() == 0
    }

    /// The configuration that a new project starts with.
    pub fn starter(name: &str) -> (config: Config)
        ensures
            config.is_starter(name@),
    {
        Config {
            name: String::from_str(name),
            version: Version::new(0, 0, 1),
            authors: Vec::new(),
            use_autoplay_for_multimedia: None,
            rdp_epsilon: None,
            assets: Some(Vec::new()),
            plugins: Some(Vec::new()),
        }
    }
}

} // verus!
