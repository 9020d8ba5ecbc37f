//! Signing release manifests. The signature covers every field, each
//! written with its length, so that no two manifests share a payload.
use vstd::prelude::*;
use vstd::string::StringSliceAdditionalSpecFns;
use vstd::utf8::encode_utf8;

use crate::bytes::to_array32;
use crate::crypto::{ed25519_sign, spec_ed25519_sign};
use crate::hex::{decode_hex, encode_hex, spec_decode_hex, spec_encode_hex, HexError};
use crate::text::{
    decimal, decimal_string, lemma_decimal_injective, lemma_decimal_is_digits, push_char, push_str,
    trim, trim_text,
};

verus! {

/// One field of the signing payload: `name:length:value` and a newline,
/// where the length counts the value's UTF-8 bytes.
pub open spec fn payload_field(name: Seq<char>, value: Seq<char>) -> Seq<char> {
    name + seq![':'] + decimal(byte_length(value)) + seq![':'] + value + seq!['\n']
}

/// The number of UTF-8 bytes of a text, as `str::len` reports it.
pub open spec fn byte_length(value: Seq<char>) -> nat {
    (encode_utf8(value).len() as usize) as nat
}

/// The text of an optional field; an absent field is empty.
pub open spec fn field_text(value: Option<&str>) -> Seq<char> {
    match value {
        Some(v) => v@,
        None => Seq::empty(),
    }
}

/// The payload that a manifest's signature covers.
pub open spec fn spec_signing_payload(
    version: Seq<char>,
    url: Seq<char>,
    sha256: Seq<char>,
    notes: Seq<char>,
) -> Seq<char> {
    payload_field("version"@, version) + payload_field("url"@, url) + payload_field(
        "sha256"@,
        sha256,
    ) + payload_field("notes"@, notes)
}

fn push_field(out: &mut String, name: &str, value: &str)
    ensures
        final(out)@ == old(out)@ + payload_field(name@, value@),
{
    push_str(out, name);
    push_char(out, ':');
    let byte_length = value.len();
    let length = decimal_string(byte_length as u64);
    push_str(out, length.as_str());
    push_char(out, ':');
    push_str(out, value);
    push_char(out, '\n');
    assert(out@ =~= old(out)@ + payload_field(name@, value@));
}

/// The payload that a manifest's signature covers: version, URL, SHA-256
/// and notes, each as `name:length:value` on its own line.
pub fn manifest_signing_payload(
    version: &str,
    url: &str,
    sha256: Option<&str>,
    notes: Option<&str>,
) -> (payload: String)
    ensures
        payload@ == spec_signing_payload(version@, url@, field_text(sha256), field_text(notes)),
{
    let sha256_text = match sha256 {
        Some(s) => s,
        None => "",
    };
    let notes_text = match notes {
        Some(n) => n,
        None => "",
    };
    proof {
        reveal_strlit("");
    }
    let mut payload = String::new();
    push_field(&mut payload, "version", version);
    push_field(&mut payload, "url", url);
    push_field(&mut payload, "sha256", sha256_text);
    push_field(&mut payload, "notes", notes_text);
    assert(payload@ =~= spec_signing_payload(
        version@,
        url@,
        field_text(sha256),
        field_text(notes),
    ));
    payload
}

/// Signs a manifest with the Ed25519 key written (surrounded by any white
/// space) as 64 hexadecimal characters; returns the signature in lower-case
/// hexadecimal.
pub fn sign_manifest(
    private_key_text: &str,
    version: &str,
    url: &str,
    sha256: Option<&str>,
    notes: Option<&str>,
) -> (r: Result<String, HexError>)
    ensures
        match spec_decode_hex(encode_utf8(trim_text(private_key_text@)), 32) {
            Err(e) => r == Err::<String, HexError>(e),
            Ok(secret) => r matches Ok(signature) && signature@ == spec_encode_hex(
                spec_ed25519_sign(
                    secret,
                    encode_utf8(
                        spec_signing_payload(version@, url@, field_text(sha256), field_text(notes)),
                    ),
                ),
            ),
        },
{
    let key_text = trim(private_key_text);
    let secret = decode_hex(key_text, 32)?;
    let key = to_array32(secret.as_slice());
    let payload = manifest_signing_payload(version, url, sha256, notes);
    let signature = ed25519_sign(&key, payload.as_str().as_bytes());
    Ok(encode_hex(signature.as_slice()))
}

/// Encoding a concatenation encodes each part in turn.
proof fn lemma_encode_utf8_concat(a: Seq<char>, b: Seq<char>)
    ensures
        encode_utf8(a + b) == encode_utf8(a) + encode_utf8(b),
    decreases a.len(),
{
    if a.len() == 0 {
        assert(a + b =~= b);
        assert(encode_utf8(a) =~= Seq::<u8>::empty());
        assert(encode_utf8(a + b) =~= encode_utf8(a) + encode_utf8(b));
    } else {
        assert((a + b).drop_first() =~= a.drop_first() + b);
        lemma_encode_utf8_concat(a.drop_first(), b);
        assert(encode_utf8(a + b) =~= encode_utf8(a) + encode_utf8(b));
    }
}

/// Every character takes at least one byte.
proof fn lemma_encode_utf8_len(a: Seq<char>)
    ensures
        encode_utf8(a).len() >= a.len(),
    decreases a.len(),
{
    if a.len() > 0 {
        lemma_encode_utf8_len(a.drop_first());
    }
}

/// A text that begins another and has as many UTF-8 bytes is that text.
proof fn lemma_prefix_with_same_bytes(a: Seq<char>, b: Seq<char>)
    requires
        a.len() <= b.len(),
        b.subrange(0, a.len() as int) == a,
        encode_utf8(a).len() == encode_utf8(b).len(),
    ensures
        a == b,
{
    let r = b.subrange(a.len() as int, b.len() as int);
    assert(b =~= a + r);
    lemma_encode_utf8_concat(a, r);
    lemma_encode_utf8_len(r);
    assert(r.len() == 0);
    assert(a =~= b);
}

/// A field at the front of a text is read back unambiguously: the length
/// ends at the first `:`, and the value ends where its byte length says.
proof fn lemma_field_split(
    name: Seq<char>,
    a: Seq<char>,
    b: Seq<char>,
    rest_a: Seq<char>,
    rest_b: Seq<char>,
)
    requires
        encode_utf8(a).len() <= usize::MAX,
        encode_utf8(b).len() <= usize::MAX,
        payload_field(name, a) + rest_a == payload_field(name, b) + rest_b,
    ensures
        a == b,
        rest_a == rest_b,
{
    let x = payload_field(name, a) + rest_a;
    let la = decimal(byte_length(a));
    let lb = decimal(byte_length(b));
    let ta = la + seq![':'] + a + seq!['\n'] + rest_a;
    let tb = lb + seq![':'] + b + seq!['\n'] + rest_b;
    let n: int = name.len() + 1int;
    assert(x.subrange(n, x.len() as int) =~= ta);
    assert((payload_field(name, b) + rest_b).subrange(n, x.len() as int) =~= tb);
    assert(ta == tb);
    lemma_decimal_is_digits(byte_length(a));
    lemma_decimal_is_digits(byte_length(b));
    if la.len() < lb.len() {
        assert(ta[la.len() as int] == ':');
        assert(tb[la.len() as int] == lb[la.len() as int]);
    }
    if lb.len() < la.len() {
        assert(tb[lb.len() as int] == ':');
        assert(ta[lb.len() as int] == la[lb.len() as int]);
    }
    assert(la.len() == lb.len());
    assert(la =~= ta.subrange(0, la.len() as int));
    assert(lb =~= tb.subrange(0, la.len() as int));
    lemma_decimal_injective(byte_length(a), byte_length(b));
    let m: int = la.len() + 1int;
    let ua = a + seq!['\n'] + rest_a;
    let ub = b + seq!['\n'] + rest_b;
    assert(ta.subrange(m, ta.len() as int) =~= ua);
    assert(tb.subrange(m, tb.len() as int) =~= ub);
    assert(ua == ub);
    if a.len() <= b.len() {
        assert(b.subrange(0, a.len() as int) =~= a) by {
            assert forall|i: int| 0 <= i < a.len() implies b[i] == a[i] by {
                assert(ua[i] == a[i]);
                assert(ub[i] == b[i]);
            }
        }
        lemma_prefix_with_same_bytes(a, b);
    } else {
        assert(a.subrange(0, b.len() as int) =~= b) by {
            assert forall|i: int| 0 <= i < b.len() implies a[i] == b[i] by {
                assert(ua[i] == a[i]);
                assert(ub[i] == b[i]);
            }
        }
        lemma_prefix_with_same_bytes(b, a);
    }
    assert(rest_a =~= ua.subrange(a.len() + 1int, ua.len() as int));
    assert(rest_b =~= ub.subrange(b.len() + 1int, ub.len() as int));
}

/// The signed text determines the manifest it was made from: manifests
/// that differ in version, URL, checksum or notes never share a signing
/// payload, so a signature covers exactly one manifest.
pub proof fn law_signing_payload_is_unambiguous(
    version_a: Seq<char>,
    url_a: Seq<char>,
    sha256_a: Seq<char>,
    notes_a: Seq<char>,
    version_b: Seq<char>,
    url_b: Seq<char>,
    sha256_b: Seq<char>,
    notes_b: Seq<char>,
)
    requires
        encode_utf8(version_a).len() <= usize::MAX,
        encode_utf8(url_a).len() <= usize::MAX,
        encode_utf8(sha256_a).len() <= usize::MAX,
        encode_utf8(notes_a).len() <= usize::MAX,
        encode_utf8(version_b).len() <= usize::MAX,
        encode_utf8(url_b).len() <= usize::MAX,
        encode_utf8(sha256_b).len() <= usize::MAX,
        encode_utf8(notes_b).len() <= usize::MAX,
        spec_signing_payload(version_a, url_a, sha256_a, notes_a) == spec_signing_payload(
            version_b,
            url_b,
            sha256_b,
            notes_b,
        ),
    ensures
        version_a == version_b,
        url_a == url_b,
        sha256_a == sha256_b,
        notes_a == notes_b,
{
    let notes_part_a = payload_field("notes"@, notes_a);
    let notes_part_b = payload_field("notes"@, notes_b);
    let sha_part_a = payload_field("sha256"@, sha256_a) + notes_part_a;
    let sha_part_b = payload_field("sha256"@, sha256_b) + notes_part_b;
    let url_part_a = payload_field("url"@, url_a) + sha_part_a;
    let url_part_b = payload_field("url"@, url_b) + sha_part_b;
    assert(spec_signing_payload(version_a, url_a, sha256_a, notes_a) =~= payload_field(
        "version"@,
        version_a,
    ) + url_part_a);
    assert(spec_signing_payload(version_b, url_b, sha256_b, notes_b) =~= payload_field(
        "version"@,
        version_b,
    ) + url_part_b);
    lemma_field_split("version"@, version_a, version_b, url_part_a, url_part_b);
    lemma_field_split("url"@, url_a, url_b, sha_part_a, sha_part_b);
    lemma_field_split("sha256"@, sha256_a, sha256_b, notes_part_a, notes_part_b);
    assert(notes_part_a + Seq::<char>::empty() =~= notes_part_a);
    assert(notes_part_b + Seq::<char>::empty() =~= notes_part_b);
    lemma_field_split("notes"@, notes_a, notes_b, Seq::<char>::empty(), Seq::<char>::empty());
}

} // verus!
