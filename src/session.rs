use vstd::prelude::*;

use crate::bundle::KeyBundle;

verus! {

/// Which of the initiator's key pairs enters a Diffie-Hellman term.
#[derive(Clone, Copy, Debug, PartialEq, Eq, Structural)]
pub enum LocalKey {
    /// The initiator's identity key pair, generated for this call.
    Identity,
    /// The base key pair, generated for this handshake.
    Ephemeral,
}

/// One Diffie-Hellman term of the handshake: a local key pair against a remote public key.
pub struct AgreementTerm {
    pub local: LocalKey,
    pub remote_key: Vec<u8>,
}

/// `t` pairs the local key pair `local` with the remote public key `remote`.
pub open spec fn term_is(t: AgreementTerm, local: LocalKey, remote: Seq<u8>) -> bool {
    t.local == local && t.remote_key@ == remote
}

/// The number of terms the handshake derives from `k`: a fourth one only where the
/// bundle carries a one-time prekey.
pub open spec fn term_count(k: KeyBundle) -> nat {
    if k.one_time_pre_key is Some { 4 } else { 3 }
}

/// `plan` lists the terms that the key derivation combines for `k`, in order:
/// identity with signed prekey, ephemeral with identity, ephemeral with signed
/// prekey and, where present, ephemeral with one-time prekey.
pub open spec fn is_plan_for(k: KeyBundle, plan: Seq<AgreementTerm>) -> bool {
    &&& plan.len() == term_count(k)
    &&& term_is(plan[0], LocalKey::Identity, k.signed_pre_key.public_key@)
    &&& term_is(plan[1], LocalKey::Ephemeral, k.identity_key@)
    &&& term_is(plan[2], LocalKey::Ephemeral, k.signed_pre_key.public_key@)
    &&& match k.one_time_pre_key {
        Some(o) => term_is(plan[3], LocalKey::Ephemeral, o.public_key@),
        None => true,
    }
}

fn copy_key(key: &Vec<u8>) -> (r: Vec<u8>)
    ensures
        r@ == key@,
{
    let mut r: Vec<u8> = Vec::new();
    let mut i: usize = 0;
    while i < key.len()
        invariant
            i <= key@.len(),
            r@ == key@.subrange(0, i as int),
        decreases key@.len() - i,
    {
        r.push(key[i]);
        i = i + 1;
        assert(r@ =~= key@.subrange(0, i as int));
    }
    assert(r@ =~= key@);
    r
}

/// The Diffie-Hellman terms that the handshake computes against `bundle` before the
/// key derivation combines them into the root and chain keys.
pub fn agreement_plan(bundle: &KeyBundle) -> (plan: Vec<AgreementTerm>)
    ensures
        is_plan_for(*bundle, plan@),
{
    let mut plan: Vec<AgreementTerm> = Vec::new();
    plan.push(AgreementTerm {
        local: LocalKey::Identity,
        remote_key: copy_key(&bundle.signed_pre_key.public_key),
    });
    plan.push(AgreementTerm {
        local: LocalKey::Ephemeral,
        remote_key: copy_key(&bundle.identity_key),
    });
    plan.push(AgreementTerm {
        local: LocalKey::Ephemeral,
        remote_key: copy_key(&bundle.signed_pre_key.public_key),
    });
    match &bundle.one_time_pre_key {
        Some(o) => {
            plan.push(AgreementTerm { local: LocalKey::Ephemeral, remote_key: copy_key(&o.public_key) });
        },
        None => {},
    }
    plan
}

} // verus!
