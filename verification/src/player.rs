use vstd::prelude::*;

use crate::crypto::{sig_valid, vrf_output_of, Identity};
use crate::domain::{commit_context, commit_context_bytes, draw_context, draw_context_bytes};
use crate::encoding::{copy_bytes, encode_le32, u32_le};
use crate::errors::ProtocolError;

verus! {

/// The lifecycle of one party within a round: it commits to an input,
/// has the commitment checked, and then draws a card. Each operation is
/// valid in exactly one phase.
#[derive(Clone, Copy, PartialEq, Eq, Structural, Debug)]
pub enum Phase {
    Created,
    Committed,
    Verified,
    Drawn,
}

/// One party of the draw. It owns its keypair and, phase by phase, its
/// committed input, the signature over that input, and its VRF output.
/// Parties share nothing: they communicate only through the values the
/// `reveal_*` methods publish.
pub struct Player {
    identity: Identity,
    phase: Phase,
    selected_input: Option<u32>,
    selected_input_signature: Option<Vec<u8>>,
    vrf_output: Option<Vec<u8>>,
    vrf_proof: Option<Vec<u8>>,
}

impl Player {
    /// The encoding of this party's public key.
    pub closed spec fn pk(&self) -> Seq<u8> {
        self.identity.pk()
    }

    pub closed spec fn phase(&self) -> Phase {
        self.phase
    }

    /// The committed input, once one exists.
    pub closed spec fn input(&self) -> Option<u32> {
        self.selected_input
    }

    /// The bytes of the signature over the committed input, once one exists.
    pub closed spec fn signature_bytes(&self) -> Option<Seq<u8>> {
        match self.selected_input_signature {
            Some(ref s) => Some(s@),
            None => None,
        }
    }

    /// The bytes of the VRF output, once one exists.
    pub closed spec fn output_bytes(&self) -> Option<Seq<u8>> {
        match self.vrf_output {
            Some(ref o) => Some(o@),
            None => None,
        }
    }

    /// The bytes of the VRF proof, once one exists.
    pub closed spec fn proof_bytes(&self) -> Option<Seq<u8>> {
        match self.vrf_proof {
            Some(ref p) => Some(p@),
            None => None,
        }
    }

    /// Phase-tagged well-formedness: from `Committed` on, the party holds an
    /// input and a signature over its little-endian encoding that verifies
    /// under the party's public key and the commitment context; from `Drawn`
    /// on, it holds a 32-byte VRF output.
    pub open spec fn wf(&self) -> bool {
        &&& self.pk().len() == 32
        &&& (self.phase() == Phase::Created ==> {
            &&& self.input() is None
            &&& self.signature_bytes() is None
        })
        &&& (self.phase() != Phase::Created ==> {
            &&& self.input() is Some
            &&& self.signature_bytes() is Some
            &&& self.signature_bytes()->Some_0.len() == 64
            &&& sig_valid(
                self.pk(),
                commit_context(),
                u32_le(self.input()->Some_0),
                self.signature_bytes()->Some_0,
            )
        })
        &&& (self.phase() == Phase::Drawn <==> self.output_bytes() is Some)
        &&& (self.output_bytes() is Some ==> self.output_bytes()->Some_0.len() == 32)
        &&& (self.phase() == Phase::Drawn <==> self.proof_bytes() is Some)
        &&& (self.proof_bytes() is Some ==> self.proof_bytes()->Some_0.len() == 64)
    }

    /// Create a party with a fresh keypair and no commitments.
    pub fn new() -> (r: Player)
        ensures
            r.wf(),
            r.phase() == Phase::Created,
    {
        Player {
            identity: Identity::generate(),
            phase: Phase::Created,
            selected_input: None,
            selected_input_signature: None,
            vrf_output: None,
            vrf_proof: None,
        }
    }

    /// The shareable verification key.
    pub fn public_key(&self) -> (r: Vec<u8>)
        ensures
            r@ == self.pk(),
    {
        self.identity.public_key()
    }

    /// Commit: sample a 32-bit input and sign its little-endian encoding
    /// under the commitment context, binding this party to its choice
    /// before aggregation. Valid only in `Created`.
    pub fn select_input(&mut self) -> (r: Result<(), ProtocolError>)
        requires
            old(self).wf(),
        ensures
            final(self).wf(),
            final(self).pk() == old(self).pk(),
            old(self).phase() == Phase::Created ==> {
                &&& r is Ok
                &&& final(self).phase() == Phase::Committed
                &&& final(self).input() is Some
            },
            old(self).phase() != Phase::Created ==> {
                &&& r == Err::<(), ProtocolError>(ProtocolError::WrongPhase)
                &&& *final(self) == *old(self)
            },
    {
        match self.phase {
            Phase::Created => {
                let value = crate::crypto::random_u32();
                let ctx = commit_context_bytes();
                let msg = encode_le32(value);
                let signature = self.identity.sign(ctx.as_slice(), msg.as_slice());
                self.selected_input = Some(value);
                self.selected_input_signature = Some(signature);
                self.phase = Phase::Committed;
                Ok(())
            },
            _ => Err(ProtocolError::WrongPhase),
        }
    }

    /// Publish the committed input. Valid once a commitment exists.
    pub fn reveal_input(&self) -> (r: Result<u32, ProtocolError>)
        requires
            self.wf(),
        ensures
            self.phase() == Phase::Created ==> r == Err::<u32, ProtocolError>(
                ProtocolError::MissingCommitment,
            ),
            self.phase() != Phase::Created ==> r == Ok::<u32, ProtocolError>(
                self.input()->Some_0,
            ),
    {
        match self.selected_input {
            Some(value) => Ok(value),
            None => Err(ProtocolError::MissingCommitment),
        }
    }

    /// Publish the signature over the committed input. Valid once a
    /// commitment exists.
    pub fn reveal_signature(&self) -> (r: Result<Vec<u8>, ProtocolError>)
        requires
            self.wf(),
        ensures
            self.phase() == Phase::Created ==> r == Err::<Vec<u8>, ProtocolError>(
                ProtocolError::MissingCommitment,
            ),
            self.phase() != Phase::Created ==> {
                &&& r is Ok
                &&& r->Ok_0@ == self.signature_bytes()->Some_0
            },
    {
        match self.selected_input_signature {
            Some(ref signature) => Ok(copy_bytes(signature)),
            None => Err(ProtocolError::MissingCommitment),
        }
    }

    /// Record that this party's commitment was checked. Valid only in
    /// `Committed`.
    pub fn mark_verified(&mut self) -> (r: Result<(), ProtocolError>)
        requires
            old(self).wf(),
        ensures
            final(self).wf(),
            old(self).phase() == Phase::Committed ==> {
                &&& r is Ok
                &&& final(self).phase() == Phase::Verified
                &&& final(self).pk() == old(self).pk()
                &&& final(self).input() == old(self).input()
                &&& final(self).signature_bytes() == old(self).signature_bytes()
            },
            old(self).phase() != Phase::Committed ==> {
                &&& r == Err::<(), ProtocolError>(ProtocolError::WrongPhase)
                &&& *final(self) == *old(self)
            },
    {
        match self.phase {
            Phase::Committed => {
                self.phase = Phase::Verified;
                Ok(())
            },
            _ => Err(ProtocolError::WrongPhase),
        }
    }

    /// Evaluate this party's VRF over `input` under the drawing context,
    /// without recording anything, returning the output and its proof. The
    /// output is a function of the party's key and `input` alone, so it is
    /// the same on every evaluation, and `draw_card` records exactly this
    /// value; the proof lets a third party verify the draw, and is the one
    /// randomized part.
    pub fn evaluate_vrf(&self, input: &[u8]) -> (r: (Vec<u8>, Vec<u8>))
        requires
            self.wf(),
        ensures
            r.0@ == vrf_output_of(self.pk(), draw_context(), input@),
            r.0@.len() == 32,
            r.1@.len() == 64,
    {
        let ctx = draw_context_bytes();
        self.identity.vrf_evaluate(ctx.as_slice(), input)
    }

    /// Draw: evaluate the VRF over `input` (the encoded aggregate seed)
    /// under the drawing context. Valid only in `Verified`, so a round that
    /// failed verification can never reach a draw.
    pub fn draw_card(&mut self, input: &[u8]) -> (r: Result<(), ProtocolError>)
        requires
            old(self).wf(),
        ensures
            final(self).wf(),
            old(self).phase() == Phase::Verified ==> {
                &&& r is Ok
                &&& final(self).phase() == Phase::Drawn
                &&& final(self).pk() == old(self).pk()
                &&& final(self).input() == old(self).input()
                &&& final(self).signature_bytes() == old(self).signature_bytes()
                &&& final(self).output_bytes() == Some(
                    vrf_output_of(old(self).pk(), draw_context(), input@),
                )
                &&& final(self).proof_bytes() is Some
            },
            old(self).phase() != Phase::Verified ==> {
                &&& r == Err::<(), ProtocolError>(ProtocolError::WrongPhase)
                &&& *final(self) == *old(self)
            },
    {
        match self.phase {
            Phase::Verified => {
                let ctx = draw_context_bytes();
                let (output, proof) = self.identity.vrf_evaluate(ctx.as_slice(), input);
                self.vrf_output = Some(output);
                self.vrf_proof = Some(proof);
                self.phase = Phase::Drawn;
                Ok(())
            },
            _ => Err(ProtocolError::WrongPhase),
        }
    }

    /// Publish the VRF output. Valid once a draw happened.
    pub fn reveal_output(&self) -> (r: Result<Vec<u8>, ProtocolError>)
        requires
            self.wf(),
        ensures
            self.phase() != Phase::Drawn ==> r == Err::<Vec<u8>, ProtocolError>(
                ProtocolError::MissingDrawOutput,
            ),
            self.phase() == Phase::Drawn ==> {
                &&& r is Ok
                &&& r->Ok_0@ == self.output_bytes()->Some_0
            },
    {
        match self.vrf_output {
            Some(ref output) => Ok(copy_bytes(output)),
            None => Err(ProtocolError::MissingDrawOutput),
        }
    }

    /// Publish the VRF proof, with which a third party holding this party's
    /// public key can verify that the revealed output really is this party's
    /// VRF output over the seed. Valid once a draw happened.
    pub fn reveal_proof(&self) -> (r: Result<Vec<u8>, ProtocolError>)
        requires
            self.wf(),
        ensures
            self.phase() != Phase::Drawn ==> r == Err::<Vec<u8>, ProtocolError>(
                ProtocolError::MissingDrawOutput,
            ),
            self.phase() == Phase::Drawn ==> {
                &&& r is Ok
                &&& r->Ok_0@ == self.proof_bytes()->Some_0
            },
    {
        match self.vrf_proof {
            Some(ref proof) => Ok(copy_bytes(proof)),
            None => Err(ProtocolError::MissingDrawOutput),
        }
    }

    /// Law: the signature round trip holds. Any committed party's published
    /// triple — public key, revealed input, signature — passes verification,
    /// because committing signs the input's little-endian encoding under the
    /// commitment context, which is exactly what `verify_commitment` checks.
    pub proof fn lemma_commitment_round_trip(&self)
        requires
            self.wf(),
            self.phase() != Phase::Created,
        ensures
            sig_valid(
                self.pk(),
                commit_context(),
                u32_le(self.input()->Some_0),
                self.signature_bytes()->Some_0,
            ),
    {
    }

    /// The card this party drew: the first byte of its VRF output modulo
    /// 52. Valid once a draw happened.
    pub fn reveal_card(&self) -> (r: Result<u8, ProtocolError>)
        requires
            self.wf(),
        ensures
            self.phase() != Phase::Drawn ==> r == Err::<u8, ProtocolError>(
                ProtocolError::MissingDrawOutput,
            ),
            self.phase() == Phase::Drawn ==> {
                &&& r == Ok::<u8, ProtocolError>(
                    crate::round::card_of(self.output_bytes()->Some_0),
                )
                &&& r->Ok_0 < 52
            },
    {
        match self.vrf_output {
            Some(ref output) => Ok(output[0] % 52),
            None => Err(ProtocolError::MissingDrawOutput),
        }
    }
}

} // verus!
