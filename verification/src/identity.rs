//! The local device identity: a random UUID, an Ed25519 key and the
//! nine-digit public locator derived from the public key. The locator only
//! finds a registered endpoint; it never grants access.
use vstd::prelude::*;

use crate::bytes::{append_bytes, be_prefix_to_u64, be_value};
use crate::protocol::{registration_payload, spec_registration_payload, Message};
use crate::relay::registration_proof_valid;
use crate::crypto::{
    ed25519_public_key, ed25519_sign, new_signing_key, sha256, spec_ed25519_key_valid,
    spec_ed25519_public_key, spec_ed25519_verify_strict,
    spec_ed25519_sign, spec_sha256,
};
use crate::system::{new_uuid, unix_now};
use crate::text::{decimal, decimal_digits, string_from_chars, zeros};

verus! {

/// Smallest public locator (the first nine-digit number).
pub const MIN_DEVICE_ID: u32 = 100_000_000;

/// One past the largest public locator.
pub const DEVICE_ID_LIMIT: u32 = 1_000_000_000;

/// Why a new identity could not be made.
#[derive(Clone, Copy, Debug, PartialEq, Eq)]
pub enum IdentityError {
    /// The system clock reads a time before the Unix epoch.
    ClockBeforeEpoch,
}

/// The locator that a SHA-256 digest of a public key gives: its first eight
/// bytes read as a big-endian number, reduced into the nine-digit range.
pub open spec fn spec_device_id_from_digest(digest: Seq<u8>) -> u32 {
    (MIN_DEVICE_ID + be_value(digest.subrange(0, 8)) % 900_000_000) as u32
}

/// The locator of a public key.
pub open spec fn spec_device_id_from_public_key(public_key: Seq<u8>) -> u32 {
    spec_device_id_from_digest(spec_sha256(public_key))
}

/// The locator that a SHA-256 digest gives.
pub fn device_id_from_digest(digest: &[u8; 32]) -> (id: u32)
    ensures
        id == spec_device_id_from_digest(digest@),
        id == 100_000_000 + be_value(digest@.subrange(0, 8)) % 900_000_000,
        MIN_DEVICE_ID <= id < DEVICE_ID_LIMIT,
{
    let first_eight = be_prefix_to_u64(digest.as_slice(), 8);
    (first_eight % 900_000_000) as u32 + MIN_DEVICE_ID
}

/// Random-looking nine-digit locator derived from a device public key.
pub fn device_id_from_public_key(public_key: &[u8; 32]) -> (id: u32)
    ensures
        id == spec_device_id_from_public_key(public_key@),
        MIN_DEVICE_ID <= id < DEVICE_ID_LIMIT,
{
    device_id_from_key_slice(public_key.as_slice())
}

/// The locator of a public key given as a byte slice.
pub fn device_id_from_key_slice(public_key: &[u8]) -> (id: u32)
    ensures
        id == spec_device_id_from_public_key(public_key@),
        MIN_DEVICE_ID <= id < DEVICE_ID_LIMIT,
{
    let digest = sha256(public_key);
    device_id_from_digest(&digest)
}

/// The decimal digits of `n`, padded with zeros to at least nine digits.
pub open spec fn nine_digits(n: nat) -> Seq<char> {
    let d = decimal(n);
    if d.len() < 9 {
        zeros((9 - d.len()) as nat) + d
    } else {
        d
    }
}

/// The first nine padded digits of `n` in groups of three: `ddd ddd ddd`.
pub open spec fn spec_formatted_id(n: nat) -> Seq<char> {
    let v = nine_digits(n);
    v.subrange(0, 3) + seq![' '] + v.subrange(3, 6) + seq![' '] + v.subrange(6, 9)
}

/// A secret Ed25519 key. Its bytes are readable only through
/// `DeviceIdentity::signing_key_bytes`, for storing the identity.
#[derive(Clone, Copy, Debug)]
pub struct SecretKey {
    bytes: [u8; 32],
}

impl SecretKey {
    /// The bytes of the key.
    pub closed spec fn key_bytes(&self) -> Seq<u8> {
        self.bytes@
    }
}

/// A device's persistent identity.
#[derive(Clone, Debug)]
pub struct DeviceIdentity {
    pub uuid: u128,
    /// Random-looking nine-digit locator derived from the device public key.
    /// It locates a registered endpoint and is never an authenticator.
    pub public_id: u32,
    pub created_at_unix: u64,
    pub display_name: Option<String>,
    /// The secret Ed25519 key. It is stored with the identity and must never
    /// leave the device.
    pub signing_key: SecretKey,
}

impl DeviceIdentity {
    /// The secret Ed25519 key of this identity.
    pub open spec fn secret(&self) -> Seq<u8> {
        self.signing_key.key_bytes()
    }

    /// The public key of this identity.
    pub open spec fn spec_public_key(&self) -> Seq<u8> {
        spec_ed25519_public_key(self.secret())
    }

    /// The locator matches the public key.
    pub open spec fn is_consistent(&self) -> bool {
        self.public_id == spec_device_id_from_public_key(self.spec_public_key())
    }

    /// An identity from stored fields.
    pub fn from_parts(
        uuid: u128,
        public_id: u32,
        created_at_unix: u64,
        display_name: Option<String>,
        signing_key: [u8; 32],
    ) -> (identity: Self)
        ensures
            identity.uuid == uuid,
            identity.public_id == public_id,
            identity.created_at_unix == created_at_unix,
            identity.display_name == display_name,
            identity.secret() == signing_key@,
    {
        DeviceIdentity {
            uuid,
            public_id,
            created_at_unix,
            display_name,
            signing_key: SecretKey { bytes: signing_key },
        }
    }

    /// An identity read back from storage. An identity stored before keys
    /// existed has none and gets a fresh random key. The locator is then
    /// derived from the key; the flag says whether it changed, in which case
    /// the identity must be stored again.
    pub fn restore(
        uuid: u128,
        public_id: u32,
        created_at_unix: u64,
        display_name: Option<String>,
        signing_key: Option<[u8; 32]>,
    ) -> (restored: (Self, bool))
        ensures
            restored.0.is_consistent(),
            restored.0.uuid == uuid,
            restored.0.created_at_unix == created_at_unix,
            restored.0.display_name == display_name,
            signing_key matches Some(k) ==> restored.0.secret() == k@,
            restored.1 == (restored.0.public_id != public_id),
    {
        let key = match signing_key {
            Some(k) => k,
            None => new_signing_key(),
        };
        let mut identity = DeviceIdentity { uuid, public_id, created_at_unix, display_name,
            signing_key: SecretKey { bytes: key } };
        let changed = identity.refresh_public_id();
        (identity, changed)
    }

    /// The secret key, for storing the identity.
    pub fn signing_key_bytes(&self) -> (key: [u8; 32])
        ensures
            key@ == self.secret(),
    {
        self.signing_key.bytes
    }

    /// A fresh identity: a random UUID, a random key, the locator of that
    /// key and the current time. It fails only when the clock reads a time
    /// before the Unix epoch.
    pub fn generate() -> (r: Result<Self, IdentityError>)
        ensures
            r matches Ok(identity) ==> identity.is_consistent() && identity.display_name is None,
            r matches Err(e) ==> e == IdentityError::ClockBeforeEpoch,
    {
        let signing_key = new_signing_key();
        let public_key = ed25519_public_key(&signing_key);
        let created_at_unix = match unix_now() {
            Some(seconds) => seconds,
            None => return Err(IdentityError::ClockBeforeEpoch),
        };
        Ok(DeviceIdentity {
            uuid: new_uuid(),
            public_id: device_id_from_public_key(&public_key),
            created_at_unix,
            display_name: None,
            signing_key: SecretKey { bytes: signing_key },
        })
    }

    /// The Ed25519 public key of this identity.
    pub fn public_key(&self) -> (public_key: [u8; 32])
        ensures
            public_key@ == self.spec_public_key(),
            spec_ed25519_key_valid(public_key@),
    {
        ed25519_public_key(&self.signing_key.bytes)
    }

    /// Signs `payload` with this identity's key.
    pub fn sign(&self, payload: &[u8]) -> (signature: [u8; 64])
        ensures
            signature@ == spec_ed25519_sign(self.secret(), payload@),
    {
        ed25519_sign(&self.signing_key.bytes, payload)
    }

    /// The `REGISTER` message that answers the relay's challenge `nonce`: the
    /// locator, the public key and the signature of the registration payload.
    /// When the locator matches the key, the relay accepts it exactly when
    /// the signature passes strict Ed25519 verification.
    pub fn registration_message(&self, nonce: &[u8]) -> (m: Message)
        ensures
            m matches Message::Register { device_id, public_key, signature } && device_id
                == self.public_id && public_key@ == self.spec_public_key() && signature@
                == spec_ed25519_sign(
                self.secret(),
                spec_registration_payload(nonce@, self.public_id),
            ) && (self.is_consistent() ==> (registration_proof_valid(
                nonce@,
                device_id,
                public_key@,
                signature@,
            ) <==> spec_ed25519_verify_strict(
                public_key@,
                spec_registration_payload(nonce@, device_id),
                signature@,
            ))),
    {
        let public_key = self.public_key();
        let payload = registration_payload(nonce, self.public_id);
        let signature = self.sign(payload.as_slice());
        let mut key_bytes: Vec<u8> = Vec::new();
        append_bytes(&mut key_bytes, public_key.as_slice());
        let mut signature_bytes: Vec<u8> = Vec::new();
        append_bytes(&mut signature_bytes, signature.as_slice());
        assert(key_bytes@ =~= public_key@);
        assert(signature_bytes@ =~= signature@);
        proof {
            law_derived_locator_is_nine_digits(public_key@);
        }
        Message::Register {
            device_id: self.public_id,
            public_key: key_bytes,
            signature: signature_bytes,
        }
    }

    /// Re-derives the locator from the key, as identities stored before the
    /// key existed carry another one. Returns whether the locator changed,
    /// in which case the identity must be stored again.
    pub fn refresh_public_id(&mut self) -> (changed: bool)
        ensures
            final(self).is_consistent(),
            changed == (old(self).public_id != final(self).public_id),
            final(self).uuid == old(self).uuid,
            final(self).created_at_unix == old(self).created_at_unix,
            final(self).display_name == old(self).display_name,
            final(self).secret() == old(self).secret(),
    {
        let derived = device_id_from_public_key(&self.public_key());
        if self.public_id != derived {
            self.public_id = derived;
            true
        } else {
            false
        }
    }

    /// The locator as `ddd ddd ddd`, padded with leading zeros.
    pub fn public_id_formatted(&self) -> (s: String)
        ensures
            s@ == spec_formatted_id(self.public_id as nat),
    {
        let digits = decimal_digits(self.public_id as u64);
        proof {
            lemma_decimal_nonempty(self.public_id as nat);
        }
        let mut padded: Vec<char> = Vec::new();
        let mut k: usize = digits.len();
        while k < 9
            invariant
                digits.len() <= k <= 9 || (digits.len() > 9 && k == digits.len()),
                padded@ == zeros((k - digits.len()) as nat),
            decreases 9 - k,
        {
            padded.push('0');
            k = k + 1;
            assert(padded@ =~= zeros((k - digits.len()) as nat));
        }
        let mut i: usize = 0;
        let ghost before = padded@;
        while i < digits.len()
            invariant
                i <= digits@.len(),
                padded@ == before + digits@.subrange(0, i as int),
            decreases digits@.len() - i,
        {
            padded.push(digits[i]);
            i = i + 1;
            assert(padded@ =~= before + digits@.subrange(0, i as int));
        }
        assert(digits@.subrange(0, i as int) =~= digits@);
        assert(padded@ =~= nine_digits(self.public_id as nat));
        let mut grouped: Vec<char> = Vec::new();
        let mut j: usize = 0;
        while j < 9
            invariant
                j <= 9,
                padded@ == nine_digits(self.public_id as nat),
                padded@.len() >= 9,
                grouped@ == group_prefix(padded@, j as int),
            decreases 9 - j,
        {
            if j == 3 || j == 6 {
                grouped.push(' ');
            }
            grouped.push(padded[j]);
            j = j + 1;
            assert(grouped@ =~= group_prefix(padded@, j as int));
        }
        assert(grouped@ =~= spec_formatted_id(self.public_id as nat));
        string_from_chars(&grouped)
    }
}

/// The first `j` of nine digits, with a space before the fourth and the
/// seventh.
pub open spec fn group_prefix(v: Seq<char>, j: int) -> Seq<char> {
    if j <= 3 {
        v.subrange(0, j)
    } else if j <= 6 {
        v.subrange(0, 3) + seq![' '] + v.subrange(3, j)
    } else {
        v.subrange(0, 3) + seq![' '] + v.subrange(3, 6) + seq![' '] + v.subrange(6, j)
    }
}

/// Every number has at least one decimal digit.
pub proof fn lemma_decimal_nonempty(n: nat)
    ensures
        decimal(n).len() >= 1,
    decreases n,
{
    if n >= 10 {
        lemma_decimal_nonempty(n / 10);
    }
}

/// A number below `10^k` (and `k >= 1`) has at most `k` decimal digits;
/// from `10^(k-1)` on it has at least `k`.
pub proof fn lemma_decimal_len(n: nat, k: nat)
    requires
        k >= 1,
    ensures
        n < pow10(k) ==> decimal(n).len() <= k,
        n >= pow10((k - 1) as nat) ==> decimal(n).len() >= k,
    decreases k,
{
    if k > 1 {
        lemma_decimal_len(n / 10, (k - 1) as nat);
        assert(pow10(k) == 10 * pow10((k - 1) as nat));
        assert(pow10((k - 1) as nat) == 10 * pow10((k - 2) as nat));
        if n < pow10(k) {
            assert(n / 10 < pow10((k - 1) as nat));
        }
        if n >= pow10((k - 1) as nat) {
            assert(n / 10 >= pow10((k - 2) as nat));
            assert(n >= 10);
        }
        if n < 10 {
            assert(decimal(n).len() == 1);
        } else {
            assert(decimal(n).len() == decimal(n / 10).len() + 1);
        }
    } else {
        assert(pow10(0) == 1);
        assert(pow10(1) == 10);
        if n >= 10 {
            lemma_decimal_nonempty(n / 10);
        } else {
            assert(decimal(n).len() == 1);
        }
    }
}

/// `10` to the power `k`.
pub open spec fn pow10(k: nat) -> nat
    decreases k,
{
    if k == 0 {
        1
    } else {
        10 * pow10((k - 1) as nat)
    }
}

/// Every locator formats as eleven characters: three groups of three
/// digits; a nine-digit locator formats as its own digits.
pub proof fn law_formatted_id_shape(n: nat)
    ensures
        spec_formatted_id(n).len() == 11,
        spec_formatted_id(n)[3] == ' ' && spec_formatted_id(n)[7] == ' ',
        MIN_DEVICE_ID <= n < DEVICE_ID_LIMIT ==> spec_formatted_id(n) == decimal(n).subrange(0, 3)
            + seq![' '] + decimal(n).subrange(3, 6) + seq![' '] + decimal(n).subrange(6, 9),
{
    lemma_decimal_nonempty(n);
    if MIN_DEVICE_ID <= n < DEVICE_ID_LIMIT {
        reveal_with_fuel(pow10, 10);
        lemma_decimal_len(n, 9);
    }
}

/// Every derived locator is a nine-digit number.
pub proof fn law_derived_locator_is_nine_digits(public_key: Seq<u8>)
    ensures
        MIN_DEVICE_ID <= spec_device_id_from_public_key(public_key) < DEVICE_ID_LIMIT,
{
}

/// The locator of a digest is 100 000 000 plus the big-endian number of its
/// first eight bytes reduced modulo 900 000 000; so it depends on those
/// eight bytes alone.
pub proof fn law_locator_reads_the_first_eight_bytes(d: Seq<u8>, e: Seq<u8>)
    requires
        d.len() >= 8,
        e.len() >= 8,
    ensures
        spec_device_id_from_digest(d) == 100_000_000 + be_value(d.subrange(0, 8)) % 900_000_000,
        d.subrange(0, 8) == e.subrange(0, 8) ==> spec_device_id_from_digest(d)
            == spec_device_id_from_digest(e),
{
}

} // verus!
