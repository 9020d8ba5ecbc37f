//! The rules of the update helper: which file it may replace, which
//! downloads it accepts and when it gives up waiting.
use vstd::prelude::*;
use vstd::string::StringSliceAdditionalSpecFns;
use vstd::utf8::encode_utf8;

use crate::hex::{encode_hex, eq_ignore_ascii_case, equal_ignoring_ascii_case, hex_value, spec_encode_hex};
use crate::bytes::append_bytes;
use crate::crypto::{sha256, spec_sha256};
use crate::text::text_equals;
use crate::url::{parse_url, url_scheme};

verus! {

/// Largest download accepted: 200 MiB.
pub const MAX_DOWNLOAD_BYTES: u64 = 200 * 1024 * 1024;

/// Attempts at replacing the executable, one second apart.
pub const REPLACE_RETRIES: u8 = 30;

/// Why the update helper refuses to go on.
#[derive(Clone, Copy, Debug, PartialEq, Eq)]
pub enum UpdaterError {
    /// Only `JRemote.exe` may be replaced.
    WrongTarget,
    /// The target is not in the helper's own directory.
    NotBesideUpdater,
    /// The download URL does not parse.
    MalformedUrl,
    /// The download URL does not use HTTPS.
    InsecureUrl,
    /// The checksum is not 64 hexadecimal characters.
    BadChecksum,
    /// The download exceeds the size limit.
    TooLarge,
    /// The download does not match its checksum.
    ChecksumMismatch,
}

/// The helper only ever replaces a file named `JRemote.exe`.
pub fn validate_target_name(file_name: Option<&str>) -> (r: Result<(), UpdaterError>)
    ensures
        r is Ok <==> (file_name matches Some(name) && name@ == "JRemote.exe"@),
        r is Err ==> r == Err::<(), UpdaterError>(UpdaterError::WrongTarget),
{
    match file_name {
        Some(name) => if text_equals(name, "JRemote.exe") {
            Ok(())
        } else {
            Err(UpdaterError::WrongTarget)
        },
        None => Err(UpdaterError::WrongTarget),
    }
}

/// The helper replaces only `JRemote.exe` in its own directory: the
/// target's file name must be `JRemote.exe` and its directory the helper's.
pub fn validate_target(file_name: Option<&str>, target_dir: Option<&str>, updater_dir: &str) -> (r:
    Result<(), UpdaterError>)
    ensures
        !(file_name matches Some(name) && name@ == "JRemote.exe"@) ==> r == Err::<(), UpdaterError>(
            UpdaterError::WrongTarget,
        ),
        (file_name matches Some(name) && name@ == "JRemote.exe"@) ==> (r is Ok <==> (target_dir matches Some(d) && d@ == updater_dir@)),
        (file_name matches Some(name) && name@ == "JRemote.exe"@) && r is Err ==> r == Err::<(), UpdaterError>(
            UpdaterError::NotBesideUpdater,
        ),
{
    validate_target_name(file_name)?;
    match target_dir {
        Some(d) => if text_equals(d, updater_dir) {
            Ok(())
        } else {
            Err(UpdaterError::NotBesideUpdater)
        },
        None => Err(UpdaterError::NotBesideUpdater),
    }
}

/// The download URL must parse and use HTTPS.
pub fn validate_https(url: &str) -> (r: Result<(), UpdaterError>)
    ensures
        match url_scheme(url@) {
            None => r == Err::<(), UpdaterError>(UpdaterError::MalformedUrl),
            Some(scheme) => if scheme == "https"@ {
                r is Ok
            } else {
                r == Err::<(), UpdaterError>(UpdaterError::InsecureUrl)
            },
        },
{
    match parse_url(url) {
        None => Err(UpdaterError::MalformedUrl),
        Some(parts) => if text_equals(parts.scheme.as_str(), "https") {
            Ok(())
        } else {
            Err(UpdaterError::InsecureUrl)
        },
    }
}

/// A SHA-256 checksum written as exactly 64 ASCII hexadecimal digits.
pub open spec fn is_sha256_text(bytes: Seq<u8>) -> bool {
    bytes.len() == 64 && forall|i: int| 0 <= i < 64 ==> (#[trigger] hex_value(bytes[i])) is Some
}

/// The checksum must be 64 hexadecimal characters of either case.
pub fn validate_sha256(value: &str) -> (r: Result<(), UpdaterError>)
    ensures
        r is Ok <==> is_sha256_text(value.spec_bytes()),
        r is Err ==> r == Err::<(), UpdaterError>(UpdaterError::BadChecksum),
{
    let bytes = value.as_bytes();
    if bytes.len() != 64 {
        return Err(UpdaterError::BadChecksum);
    }
    let mut i: usize = 0;
    while i < 64
        invariant
            bytes@ == value.spec_bytes(),
            bytes@.len() == 64,
            i <= 64,
            forall|j: int| 0 <= j < i ==> (#[trigger] hex_value(bytes@[j])) is Some,
        decreases 64 - i,
    {
        let b = bytes[i];
        if !((48 <= b && b <= 57) || (97 <= b && b <= 102) || (65 <= b && b <= 70)) {
            assert(hex_value(bytes@[i as int]) is None);
            return Err(UpdaterError::BadChecksum);
        }
        i = i + 1;
    }
    Ok(())
}

/// A download that announces its size is refused up front when that size
/// exceeds the limit.
pub fn check_announced_size(content_length: Option<u64>) -> (r: Result<(), UpdaterError>)
    ensures
        r is Err <==> (content_length matches Some(n) && n > MAX_DOWNLOAD_BYTES),
        r is Err ==> r == Err::<(), UpdaterError>(UpdaterError::TooLarge),
{
    match content_length {
        Some(n) => if n > MAX_DOWNLOAD_BYTES {
            Err(UpdaterError::TooLarge)
        } else {
            Ok(())
        },
        None => Ok(()),
    }
}

/// The downloaded file's SHA-256 `digest` must match the expected checksum,
/// compared as hexadecimal text without regard to case.
pub fn verify_checksum(digest: &[u8], expected: &str) -> (r: Result<(), UpdaterError>)
    ensures
        r is Ok <==> equal_ignoring_ascii_case(
            encode_utf8(spec_encode_hex(digest@)),
            expected.spec_bytes(),
        ),
        r is Err ==> r == Err::<(), UpdaterError>(UpdaterError::ChecksumMismatch),
{
    let actual = encode_hex(digest);
    if eq_ignore_ascii_case(actual.as_str(), expected) {
        Ok(())
    } else {
        Err(UpdaterError::ChecksumMismatch)
    }
}

/// After a failed replacement attempt (counted from one), whether to wait
/// and try again.
pub fn should_retry(attempt: u8) -> (retry: bool)
    ensures
        retry == (attempt < REPLACE_RETRIES),
{
    attempt < REPLACE_RETRIES
}

/// Whether to tell the user that the helper is waiting for the application
/// to close: once, before the last attempt.
pub fn announce_wait(attempt: u8) -> (announce: bool)
    ensures
        announce == (attempt == REPLACE_RETRIES - 1),
{
    attempt == REPLACE_RETRIES - 1
}

/// A download being received: the bytes taken so far, never more than
/// `MAX_DOWNLOAD_BYTES`, whose SHA-256 is checked at the end.
pub struct DownloadCheck {
    absorbed: Vec<u8>,
}

impl DownloadCheck {
    /// The bytes received so far.
    pub closed spec fn absorbed(&self) -> Seq<u8> {
        self.absorbed@
    }

    /// A download with nothing received yet.
    pub fn new() -> (check: Self)
        ensures
            check.absorbed() == Seq::<u8>::empty(),
    {
        DownloadCheck { absorbed: Vec::new() }
    }

    /// Takes the next chunk of the download, unless the download would then
    /// exceed `MAX_DOWNLOAD_BYTES`.
    pub fn accept_chunk(&mut self, chunk: &[u8]) -> (r: Result<(), UpdaterError>)
        ensures
            old(self).absorbed().len() + chunk@.len() <= MAX_DOWNLOAD_BYTES ==> r is Ok
                && final(self).absorbed() == old(self).absorbed() + chunk@,
            old(self).absorbed().len() + chunk@.len() > MAX_DOWNLOAD_BYTES ==> r == Err::<
                (),
                UpdaterError,
            >(UpdaterError::TooLarge) && final(self).absorbed() == old(self).absorbed(),
    {
        let total: u128 = self.absorbed.len() as u128 + chunk.len() as u128;
        if total > MAX_DOWNLOAD_BYTES as u128 {
            return Err(UpdaterError::TooLarge);
        }
        append_bytes(&mut self.absorbed, chunk);
        Ok(())
    }

    /// Ends the download: the SHA-256 of every byte received, in hexadecimal,
    /// must equal `expected` up to ASCII case.
    pub fn finish(self, expected: &str) -> (r: Result<(), UpdaterError>)
        ensures
            r is Ok <==> equal_ignoring_ascii_case(
                encode_utf8(spec_encode_hex(spec_sha256(self.absorbed()))),
                expected.spec_bytes(),
            ),
            r is Err ==> r == Err::<(), UpdaterError>(UpdaterError::ChecksumMismatch),
    {
        let digest = sha256(self.absorbed.as_slice());
        verify_checksum(digest.as_slice(), expected)
    }
}

} // verus!
