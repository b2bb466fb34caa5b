use vstd::prelude::*;

use crate::error::AgentError;

verus! {

/// Tag that opens every bundle: the protocol version of its layout.
pub const BUNDLE_VERSION: u8 = 3;

/// First byte of every serialized public key: the Curve25519 key type.
pub const KEY_TYPE_DJB: u8 = 5;

/// A serialized public key: the key type byte and 32 bytes of the point.
pub const PUBLIC_KEY_LEN: usize = 33;

/// A signature over the signed prekey.
pub const SIGNATURE_LEN: usize = 64;

/// Offsets of the fields in the binary layout.
pub const REGISTRATION_ID_AT: usize = 1;
pub const DEVICE_ID_AT: usize = 5;
pub const IDENTITY_KEY_AT: usize = 9;
pub const SIGNED_PRE_KEY_ID_AT: usize = 42;
pub const SIGNED_PRE_KEY_AT: usize = 46;
pub const SIGNATURE_AT: usize = 79;
pub const ONE_TIME_MARKER_AT: usize = 143;
pub const ONE_TIME_PRE_KEY_ID_AT: usize = 144;
pub const ONE_TIME_PRE_KEY_AT: usize = 148;

/// Length of a bundle without, and with, a one-time prekey.
pub const BUNDLE_LEN_WITHOUT_ONE_TIME: usize = 144;
pub const BUNDLE_LEN_WITH_ONE_TIME: usize = 181;

/// The signed prekey of a bundle: its id, public key and the identity key's signature over it.
pub struct SignedPreKey {
    pub id: u32,
    pub public_key: Vec<u8>,
    pub signature: Vec<u8>,
}

/// A one-time prekey of a bundle.
pub struct OneTimePreKey {
    pub id: u32,
    pub public_key: Vec<u8>,
}

/// What a counterparty publishes so that a session can be started with it.
pub struct KeyBundle {
    pub registration_id: u32,
    pub device_id: u32,
    pub identity_key: Vec<u8>,
    pub signed_pre_key: SignedPreKey,
    pub one_time_pre_key: Option<OneTimePreKey>,
}

/// The big-endian integer held by the four bytes of `b` from `at` on.
pub open spec fn be_u32(b: Seq<u8>, at: int) -> int {
    b[at] * 16777216 + b[at + 1] * 65536 + b[at + 2] * 256 + b[at + 3]
}

/// The bytes of `b` from `at` on hold a serialized Curve25519 public key.
pub open spec fn key_at(b: Seq<u8>, at: int) -> bool {
    b[at] == KEY_TYPE_DJB
}

/// `b` carries a one-time prekey.
pub open spec fn has_one_time(b: Seq<u8>) -> bool {
    b.len() == BUNDLE_LEN_WITH_ONE_TIME && b[ONE_TIME_MARKER_AT as int] == 1
}

/// `b` is a bundle in the binary layout: version tag, registration id, device id,
/// identity key, signed prekey id, signed prekey, signature, a marker byte and,
/// where the marker is 1, the one-time prekey's id and key.
pub open spec fn well_formed(b: Seq<u8>) -> bool {
    &&& (b.len() == BUNDLE_LEN_WITHOUT_ONE_TIME && b[ONE_TIME_MARKER_AT as int] == 0)
        || has_one_time(b)
    &&& b[0] == BUNDLE_VERSION
    &&& key_at(b, IDENTITY_KEY_AT as int)
    &&& key_at(b, SIGNED_PRE_KEY_AT as int)
    &&& has_one_time(b) ==> key_at(b, ONE_TIME_PRE_KEY_AT as int)
}

/// `k` holds the fields that the layout places in `b`.
pub open spec fn decodes_to(b: Seq<u8>, k: KeyBundle) -> bool {
    &&& k.registration_id as int == be_u32(b, REGISTRATION_ID_AT as int)
    &&& k.device_id as int == be_u32(b, DEVICE_ID_AT as int)
    &&& k.identity_key@ == b.subrange(IDENTITY_KEY_AT as int, SIGNED_PRE_KEY_ID_AT as int)
    &&& k.signed_pre_key.id as int == be_u32(b, SIGNED_PRE_KEY_ID_AT as int)
    &&& k.signed_pre_key.public_key@ == b.subrange(SIGNED_PRE_KEY_AT as int, SIGNATURE_AT as int)
    &&& k.signed_pre_key.signature@ == b.subrange(SIGNATURE_AT as int, ONE_TIME_MARKER_AT as int)
    &&& match k.one_time_pre_key {
        Some(o) => {
            &&& has_one_time(b)
            &&& o.id as int == be_u32(b, ONE_TIME_PRE_KEY_ID_AT as int)
            &&& o.public_key@ == b.subrange(ONE_TIME_PRE_KEY_AT as int, BUNDLE_LEN_WITH_ONE_TIME as int)
        },
        None => !has_one_time(b),
    }
}

fn read_u32_be(b: &[u8], at: usize) -> (r: u32)
    requires
        at + 4 <= b@.len(),
    ensures
        r as int == be_u32(b@, at as int),
{
    let b0 = b[at] as u32;
    let b1 = b[at + 1] as u32;
    let b2 = b[at + 2] as u32;
    let b3 = b[at + 3] as u32;
    b0 * 16777216 + b1 * 65536 + b2 * 256 + b3
}

fn copy_range(b: &[u8], start: usize, end: usize) -> (r: Vec<u8>)
    requires
        start <= end <= b@.len(),
    ensures
        r@ == b@.subrange(start as int, end as int),
{
    let mut r: Vec<u8> = Vec::new();
    let mut i: usize = start;
    while i < end
        invariant
            start <= i <= end <= b@.len(),
            r@ == b@.subrange(start as int, i as int),
        decreases end - i,
    {
        r.push(b[i]);
        i = i + 1;
        assert(r@ =~= b@.subrange(start as int, i as int));
    }
    r
}

/// Decodes a bundle from its binary layout. Fails with `MalformedBundle` exactly when
/// the layout is broken: wrong length or version tag, an unknown marker, or a key
/// whose type byte does not name a Curve25519 point.
pub fn parse_bundle(b: &[u8]) -> (r: Result<KeyBundle, AgentError>)
    ensures
        r.is_ok() <==> well_formed(b@),
        r is Err ==> r == Err::<KeyBundle, AgentError>(AgentError::MalformedBundle),
        r matches Ok(k) ==> decodes_to(b@, k),
{
    let n = b.len();
    if n != BUNDLE_LEN_WITHOUT_ONE_TIME && n != BUNDLE_LEN_WITH_ONE_TIME {
        return Err(AgentError::MalformedBundle);
    }
    let marker = b[ONE_TIME_MARKER_AT];
    let with_one_time = n == BUNDLE_LEN_WITH_ONE_TIME && marker == 1;
    if !(n == BUNDLE_LEN_WITHOUT_ONE_TIME && marker == 0) && !with_one_time {
        return Err(AgentError::MalformedBundle);
    }
    if b[0] != BUNDLE_VERSION || b[IDENTITY_KEY_AT] != KEY_TYPE_DJB
        || b[SIGNED_PRE_KEY_AT] != KEY_TYPE_DJB {
        return Err(AgentError::MalformedBundle);
    }
    if with_one_time && b[ONE_TIME_PRE_KEY_AT] != KEY_TYPE_DJB {
        return Err(AgentError::MalformedBundle);
    }
    let one_time_pre_key = if with_one_time {
        Some(
            OneTimePreKey {
                id: read_u32_be(b, ONE_TIME_PRE_KEY_ID_AT),
                public_key: copy_range(b, ONE_TIME_PRE_KEY_AT, BUNDLE_LEN_WITH_ONE_TIME),
            },
        )
    } else {
        None
    };
    Ok(
        KeyBundle {
            registration_id: read_u32_be(b, REGISTRATION_ID_AT),
            device_id: read_u32_be(b, DEVICE_ID_AT),
            identity_key: copy_range(b, IDENTITY_KEY_AT, SIGNED_PRE_KEY_ID_AT),
            signed_pre_key: SignedPreKey {
                id: read_u32_be(b, SIGNED_PRE_KEY_ID_AT),
                public_key: copy_range(b, SIGNED_PRE_KEY_AT, SIGNATURE_AT),
                signature: copy_range(b, SIGNATURE_AT, ONE_TIME_MARKER_AT),
            },
            one_time_pre_key,
        },
    )
}

/// `at` is where the layout of `b` places a public key.
pub open spec fn is_key_offset(b: Seq<u8>, at: int) -> bool {
    at == IDENTITY_KEY_AT as int || at == SIGNED_PRE_KEY_AT as int
        || (has_one_time(b) && at == ONE_TIME_PRE_KEY_AT as int)
}

/// No bundle is read from zero bytes.
pub proof fn lemma_empty_bundle_is_malformed()
    ensures
        !well_formed(Seq::<u8>::empty()),
{
}

/// A key field whose type byte names no Curve25519 point makes the bundle malformed,
/// whatever its other bytes hold.
pub proof fn lemma_off_curve_key_is_malformed(b: Seq<u8>, at: int)
    requires
        b.len() == BUNDLE_LEN_WITHOUT_ONE_TIME || b.len() == BUNDLE_LEN_WITH_ONE_TIME,
        is_key_offset(b, at),
        b[at] != KEY_TYPE_DJB,
    ensures
        !well_formed(b),
{
}

/// Changing a byte of the signature of a bundle leaves it a bundle whose every other
/// byte is as it was: the tampering is not hidden by the layout, it reaches the
/// signature check with the same key material.
pub proof fn lemma_signature_change_reaches_check(b: Seq<u8>, i: int, x: u8)
    requires
        well_formed(b),
        SIGNATURE_AT as int <= i < ONE_TIME_MARKER_AT as int,
    ensures
        well_formed(b.update(i, x)),
        b.update(i, x).subrange(0, SIGNATURE_AT as int) == b.subrange(0, SIGNATURE_AT as int),
        b.update(i, x).subrange(ONE_TIME_MARKER_AT as int, b.len() as int)
            == b.subrange(ONE_TIME_MARKER_AT as int, b.len() as int),
        b.update(i, x).subrange(SIGNATURE_AT as int, ONE_TIME_MARKER_AT as int)
            == b.subrange(SIGNATURE_AT as int, ONE_TIME_MARKER_AT as int).update(i - SIGNATURE_AT, x),
{
    let c = b.update(i, x);
    assert(c.subrange(0, SIGNATURE_AT as int) =~= b.subrange(0, SIGNATURE_AT as int));
    assert(c.subrange(ONE_TIME_MARKER_AT as int, b.len() as int)
        =~= b.subrange(ONE_TIME_MARKER_AT as int, b.len() as int));
    assert(c.subrange(SIGNATURE_AT as int, ONE_TIME_MARKER_AT as int)
        =~= b.subrange(SIGNATURE_AT as int, ONE_TIME_MARKER_AT as int).update(i - SIGNATURE_AT, x));
}

} // verus!
