//! Deciding whether a published release manifest offers an update.
//!
//! An update is offered only when the manifest names a newer valid semantic
//! version; the manifest and the download must both be served over HTTPS.
use vstd::prelude::*;
use vstd::utf8::encode_utf8;

use crate::text::{is_blank, is_blank_text, text_equals};
use crate::updater::{is_sha256_text, validate_sha256};
use crate::url::{parse_url, url_scheme};

verus! {

#[verifier::external_type_specification]
#[verifier::external_body]
pub struct ExVersion(semver::Version);

/// Why a manifest or a URL was refused.
#[derive(Clone, Debug, PartialEq, Eq)]
pub enum UpdateError {
    /// The URL described by the text does not parse.
    MalformedUrl(String),
    /// The URL described by the text does not use HTTPS.
    InsecureUrl(String),
    /// The version of this build is not a semantic version.
    InvalidCurrentVersion,
    /// The manifest's version is not a semantic version.
    InvalidVersion,
    /// A newer release does not declare a SHA-256 of 64 hexadecimal
    /// characters.
    InvalidChecksum,
}

/// A release manifest as published.
#[derive(Clone, Debug, PartialEq, Eq)]
pub struct UpdateManifest {
    pub version: String,
    pub url: String,
    pub sha256: Option<String>,
    pub notes: Option<String>,
}

/// A newer release that can be installed.
#[derive(Clone, Debug, PartialEq, Eq)]
pub struct AvailableUpdate {
    pub version: String,
    pub url: String,
    pub sha256: String,
    pub notes: Option<String>,
}

/// The canonical text (`Display`) of the semantic version that a text
/// parses as, or `None` when it is not one.
pub uninterp spec fn spec_semver_text(text: Seq<char>) -> Option<Seq<char>>;

/// Whether the version written canonically as `a` has higher precedence
/// than the one written as `b`.
pub uninterp spec fn spec_semver_greater(a: Seq<char>, b: Seq<char>) -> bool;

/// A parsed semantic version with its canonical text.
pub struct SemanticVersion {
    text: String,
    version: semver::Version,
}

impl SemanticVersion {
    /// The canonical text of this version.
    pub closed spec fn text(&self) -> Seq<char> {
        self.text@
    }

    /// The canonical text of this version.
    pub fn to_text(&self) -> (s: String)
        ensures
            s@ == self.text(),
    {
        self.text.clone()
    }
}

/// `semver::Version::parse`, kept with the parsed version's `Display` text.
#[verifier::external_body]
fn parse_semver(text: &str) -> (v: Option<SemanticVersion>)
    ensures
        v is Some <==> spec_semver_text(text@) is Some,
        v matches Some(version) ==> version.text() == spec_semver_text(text@)->0,
{
    match semver::Version::parse(text) {
        Ok(version) => Some(SemanticVersion { text: version.to_string(), version }),
        Err(_) => None,
    }
}

/// `>` on `semver::Version`: precedence by the semantic-versioning rules,
/// a function of the two versions, which their canonical texts determine.
#[verifier::external_body]
fn semver_greater(a: &SemanticVersion, b: &SemanticVersion) -> (greater: bool)
    ensures
        greater == spec_semver_greater(a.text(), b.text()),
{
    a.version > b.version
}

/// `text` without its leading `v` characters.
pub open spec fn strip_leading_v(text: Seq<char>) -> Seq<char>
    decreases text.len(),
{
    if text.len() > 0 && text[0] == 'v' {
        strip_leading_v(text.drop_first())
    } else {
        text
    }
}

/// `text` without its leading `v` characters (`trim_start_matches('v')`).
pub fn trim_leading_v(text: &str) -> (rest: &str)
    ensures
        rest@ == strip_leading_v(text@),
{
    let n = text.unicode_len();
    let mut k: usize = 0;
    assert(text@.subrange(0, n as int) =~= text@);
    while k < n && text.get_char(k) == 'v'
        invariant
            n == text@.len(),
            k <= n,
            strip_leading_v(text@) == strip_leading_v(text@.subrange(k as int, n as int)),
        decreases n - k,
    {
        assert(text@.subrange(k as int, n as int).drop_first() =~= text@.subrange(
            k + 1,
            n as int,
        ));
        k = k + 1;
    }
    text.substring_char(k, n)
}

/// Refuses a URL that does not parse or does not use HTTPS; `description`
/// names the URL in the error.
pub fn require_https(value: &str, description: &str) -> (r: Result<(), UpdateError>)
    ensures
        match url_scheme(value@) {
            None => r matches Err(UpdateError::MalformedUrl(d)) && d@ == description@,
            Some(scheme) => if scheme == "https"@ {
                r is Ok
            } else {
                r matches Err(UpdateError::InsecureUrl(d)) && d@ == description@
            },
        },
{
    match parse_url(value) {
        None => Err(UpdateError::MalformedUrl(description.to_owned())),
        Some(parts) => if text_equals(parts.scheme.as_str(), "https") {
            Ok(())
        } else {
            Err(UpdateError::InsecureUrl(description.to_owned()))
        },
    }
}

/// Release notes are shown only when they say something.
pub open spec fn shown_notes(notes: Option<String>) -> Option<String> {
    match notes {
        Some(n) => if is_blank_text(n@) {
            None
        } else {
            Some(n)
        },
        None => None,
    }
}

/// The manifest declares a SHA-256 of 64 hexadecimal characters.
pub open spec fn has_valid_checksum(manifest: UpdateManifest) -> bool {
    manifest.sha256 matches Some(s) && is_sha256_text(encode_utf8(s@))
}

/// Decides on a fetched manifest, given the version of this build: an
/// update is offered when the manifest's download URL uses HTTPS, both
/// versions are semantic versions (the manifest's may carry leading `v`s),
/// the manifest's is newer, and it declares a valid SHA-256.
pub fn evaluate_manifest(manifest: UpdateManifest, current_version: &str) -> (r: Result<
    Option<AvailableUpdate>,
    UpdateError,
>)
    ensures
        ({
            let offered = spec_semver_text(strip_leading_v(manifest.version@));
            let current = spec_semver_text(current_version@);
            if url_scheme(manifest.url@) is None {
                r matches Err(UpdateError::MalformedUrl(d)) && d@ == "the update download URL"@
            } else if url_scheme(manifest.url@)->0 != "https"@ {
                r matches Err(UpdateError::InsecureUrl(d)) && d@ == "the update download URL"@
            } else if current is None {
                r == Err::<Option<AvailableUpdate>, UpdateError>(
                    UpdateError::InvalidCurrentVersion,
                )
            } else if offered is None {
                r == Err::<Option<AvailableUpdate>, UpdateError>(UpdateError::InvalidVersion)
            } else if !spec_semver_greater(offered->0, current->0) {
                r == Ok::<Option<AvailableUpdate>, UpdateError>(None)
            } else if !has_valid_checksum(manifest) {
                r == Err::<Option<AvailableUpdate>, UpdateError>(UpdateError::InvalidChecksum)
            } else {
                r matches Ok(Some(update)) && update.version@ == offered->0 && update.url
                    == manifest.url && Some(update.sha256) == manifest.sha256 && update.notes
                    == shown_notes(manifest.notes)
            }
        }),
{
    require_https(manifest.url.as_str(), "the update download URL")?;
    let current = match parse_semver(current_version) {
        Some(v) => v,
        None => return Err(UpdateError::InvalidCurrentVersion),
    };
    let available = match parse_semver(trim_leading_v(manifest.version.as_str())) {
        Some(v) => v,
        None => return Err(UpdateError::InvalidVersion),
    };
    if !semver_greater(&available, &current) {
        return Ok(None);
    }
    let sha256 = match manifest.sha256 {
        Some(s) => s,
        None => return Err(UpdateError::InvalidChecksum),
    };
    if validate_sha256(sha256.as_str()).is_err() {
        return Err(UpdateError::InvalidChecksum);
    }
    let notes = match manifest.notes {
        Some(n) => if is_blank(n.as_str()) {
            None
        } else {
            Some(n)
        },
        None => None,
    };
    Ok(Some(AvailableUpdate {
        version: available.to_text(),
        url: manifest.url,
        sha256,
        notes,
    }))
}

} // verus!
