use vstd::prelude::*;

use crate::encoding::copy_bytes;

verus! {

#[verifier::external_type_specification]
#[verifier::external_body]
pub struct ExKeypair(schnorrkel::Keypair);

/// Whether `sig` is a schnorrkel signature by the key encoded in `pk` over
/// the message `msg` under the signing context `ctx`. Names the result of
/// `schnorrkel::PublicKey::verify`, a function of the four byte strings
/// alone: parsing the key and signature bytes and checking the signature
/// equation involve no randomness.
pub uninterp spec fn sig_valid(pk: Seq<u8>, ctx: Seq<u8>, msg: Seq<u8>, sig: Seq<u8>) -> bool;

/// The 32-byte VRF pre-output of the key encoded in `pk` over the message
/// `msg` under the signing context `ctx`. Names the output part of
/// `schnorrkel::Keypair::vrf_sign`: the pre-output point is the transcript's
/// input hash multiplied by the secret scalar (`vrf_create_hash`), so it is
/// determined by the keypair and the transcript alone, and the secret scalar
/// is in turn determined by the public key.
pub uninterp spec fn vrf_output_of(pk: Seq<u8>, ctx: Seq<u8>, msg: Seq<u8>) -> Seq<u8>;

/// One party's keypair. `public` holds the 32-byte encoding of the public
/// key of `keypair`; the fields are private to this module, and `generate`
/// is the only constructor, so that invariant cannot be broken from outside.
pub(crate) struct Identity {
    keypair: schnorrkel::Keypair,
    public: Vec<u8>,
}

impl Identity {
    /// The encoding of this identity's public key.
    pub(crate) closed spec fn pk(&self) -> Seq<u8> {
        self.public@
    }

    pub(crate) open spec fn wf(&self) -> bool {
        self.pk().len() == 32
    }

    /// Relies on `schnorrkel::Keypair::generate_with` over the operating
    /// system's entropy source (`rand::rngs::OsRng`), and on
    /// `PublicKey::to_bytes`, whose result is 32 bytes. Nothing is promised
    /// of the sampled key itself.
    #[verifier::external_body]
    pub(crate) fn generate() -> (r: Identity)
        ensures
            r.wf(),
    {
        let keypair = schnorrkel::Keypair::generate_with(rand::rngs::OsRng);
        let public = keypair.public.to_bytes().to_vec();
        Identity { keypair, public }
    }

    /// The shareable verification key; the private component never leaves
    /// the identity.
    pub(crate) fn public_key(&self) -> (r: Vec<u8>)
        ensures
            r@ == self.pk(),
    {
        copy_bytes(&self.public)
    }

    /// Relies on `schnorrkel::Keypair::sign` over the transcript
    /// `signing_context(ctx).bytes(msg)`, and on `Signature::to_bytes` /
    /// `Signature::from_bytes` round-tripping: the returned 64 bytes parse
    /// back to a signature that `PublicKey::verify` accepts for the same
    /// context and message under this identity's public key (`public` is
    /// that key's encoding, by construction in `generate`). Signing is
    /// randomized, so nothing more is promised of the bytes.
    #[verifier::external_body]
    pub(crate) fn sign(&self, ctx: &[u8], msg: &[u8]) -> (r: Vec<u8>)
        ensures
            r@.len() == 64,
            sig_valid(self.pk(), ctx@, msg@, r@),
    {
        let t = schnorrkel::signing_context(ctx).bytes(msg);
        self.keypair.sign(t).to_bytes().to_vec()
    }

    /// Relies on `schnorrkel::Keypair::vrf_sign` over the transcript
    /// `signing_context(ctx).bytes(msg)`, and on `VRFPreOut::to_bytes` and
    /// `VRFProof::to_bytes`. The first component encodes the VRF pre-output,
    /// which is a function of the keypair and the transcript alone, named by
    /// `vrf_output_of` over this identity's public key. The second encodes
    /// the 64-byte proof, kept so a third party can verify the draw; proving
    /// is randomized, so nothing more is promised of it.
    #[verifier::external_body]
    pub(crate) fn vrf_evaluate(&self, ctx: &[u8], msg: &[u8]) -> (r: (Vec<u8>, Vec<u8>))
        ensures
            r.0@.len() == 32,
            r.0@ == vrf_output_of(self.pk(), ctx@, msg@),
            r.1@.len() == 64,
    {
        let t = schnorrkel::signing_context(ctx).bytes(msg);
        let (io, proof, _batchable) = self.keypair.vrf_sign(t);
        (io.output.to_bytes().to_vec(), proof.to_bytes().to_vec())
    }
}

/// Relies on `schnorrkel::PublicKey::{from_bytes, verify}` and
/// `schnorrkel::Signature::from_bytes`: returns whether the key and
/// signature bytes parse and the signature equation holds over the
/// transcript `signing_context(ctx).bytes(msg)` — the deterministic check
/// named by `sig_valid`. Bytes that parse as neither key nor signature
/// never verify.
#[verifier::external_body]
pub(crate) fn verify_signature(pk: &[u8], ctx: &[u8], msg: &[u8], sig: &[u8]) -> (r: bool)
    ensures
        r == sig_valid(pk@, ctx@, msg@, sig@),
{
    match (schnorrkel::PublicKey::from_bytes(pk), schnorrkel::Signature::from_bytes(sig)) {
        (Ok(p), Ok(s)) => p.verify(schnorrkel::signing_context(ctx).bytes(msg), &s).is_ok(),
        _ => false,
    }
}

/// Relies on `rand::random`: a uniformly sampled 32-bit value. Nothing is
/// promised of it.
#[verifier::external_body]
pub(crate) fn random_u32() -> u32 {
    rand::random::<u32>()
}

} // verus!
