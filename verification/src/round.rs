use vstd::prelude::*;

use crate::crypto::{sig_valid, vrf_output_of};
use crate::domain::{commit_context, draw_context};
use crate::encoding::{encode_le32, u32_le};
use crate::errors::ProtocolError;
use crate::player::{Phase, Player};

verus! {

// ---------------------------------------------------------------------------
// Aggregation: the shared seed is the wrapping sum of all revealed inputs.
// ---------------------------------------------------------------------------

/// Addition of two 32-bit values modulo 2^32.
pub open spec fn add_wrap(a: u32, b: u32) -> u32 {
    ((a + b) % 0x1_0000_0000) as u32
}

/// The wrapping sum of a sequence of 32-bit values.
pub open spec fn wrap_sum(s: Seq<u32>) -> u32
    decreases s.len(),
{
    if s.len() == 0 {
        0u32
    } else {
        add_wrap(wrap_sum(s.drop_last()), s.last())
    }
}

/// Combine all revealed inputs into the shared seed: their sum modulo 2^32.
pub fn aggregate(values: &Vec<u32>) -> (r: u32)
    ensures
        r == wrap_sum(values@),
{
    let mut acc: u32 = 0;
    let mut i: usize = 0;
    while i < values.len()
        invariant
            i <= values.len(),
            acc == wrap_sum(values@.take(i as int)),
        decreases values.len() - i,
    {
        let v = values[i];
        let sum: u64 = (acc as u64) + (v as u64);
        let next: u32 = (sum % 0x1_0000_0000) as u32;
        proof {
            assert(values@.take(i as int + 1).drop_last() =~= values@.take(i as int));
            assert(values@.take(i as int + 1).last() == values@[i as int]);
        }
        acc = next;
        i = i + 1;
    }
    assert(values@.take(values.len() as int) =~= values@);
    acc
}

/// Two wrapping additions commute with one another: adding `y` then `z`
/// equals adding `z` then `y`.
proof fn lemma_add_wrap_reorder(x: u32, y: u32, z: u32)
    ensures
        add_wrap(add_wrap(x, y), z) == add_wrap(add_wrap(x, z), y),
{
    let m = 0x1_0000_0000int;
    vstd::arithmetic::div_mod::lemma_small_mod(y as nat, m as nat);
    vstd::arithmetic::div_mod::lemma_small_mod(z as nat, m as nat);
    vstd::arithmetic::div_mod::lemma_add_mod_noop(x + y, z as int, m);
    vstd::arithmetic::div_mod::lemma_add_mod_noop(x + z, y as int, m);
    assert(x + y + z == x + z + y);
}

/// Removing one element and adding it back into the wrapping sum restores
/// the sum of the whole sequence.
proof fn lemma_wrap_sum_remove(s: Seq<u32>, i: int)
    requires
        0 <= i < s.len(),
    ensures
        wrap_sum(s) == add_wrap(wrap_sum(s.remove(i)), s[i]),
    decreases s.len(),
{
    if i == s.len() - 1 {
        assert(s.remove(i) =~= s.drop_last());
    } else {
        let t = s.drop_last();
        lemma_wrap_sum_remove(t, i);
        assert(s.remove(i).drop_last() =~= t.remove(i));
        assert(s.remove(i).last() == s.last());
        lemma_add_wrap_reorder(wrap_sum(t.remove(i)), s[i], s.last());
    }
}

/// Law: aggregation is order-independent. Any two orderings of the same
/// revealed values — any two sequences with equal multisets — produce the
/// same seed, so no party's position in the list gives it influence.
pub proof fn lemma_aggregate_order_independent(a: Seq<u32>, b: Seq<u32>)
    requires
        a.to_multiset() == b.to_multiset(),
    ensures
        wrap_sum(a) == wrap_sum(b),
    decreases a.len(),
{
    broadcast use vstd::seq_lib::group_to_multiset_ensures;

    if a.len() == 0 {
        assert(b.to_multiset().len() == 0);
    } else {
        let x = a.last();
        assert(a[a.len() - 1] == x);
        assert(a.contains(x));
        assert(b.to_multiset().count(x) > 0);
        assert(b.contains(x));
        let j = choose|j: int| 0 <= j < b.len() && b[j] == x;
        lemma_wrap_sum_remove(b, j);
        assert(a.drop_last() =~= a.remove(a.len() - 1));
        assert(a.drop_last().to_multiset() =~= b.remove(j).to_multiset());
        lemma_aggregate_order_independent(a.drop_last(), b.remove(j));
    }
}

// ---------------------------------------------------------------------------
// Verification: every commitment is checked before aggregation.
// ---------------------------------------------------------------------------

/// Whether party `i`'s published triple checks out: its signature verifies,
/// under the commitment context, over the little-endian encoding of its
/// revealed value.
pub open spec fn commitment_ok(
    public_keys: Seq<Vec<u8>>,
    values: Seq<u32>,
    signatures: Seq<Vec<u8>>,
    i: int,
) -> bool {
    sig_valid(public_keys[i]@, commit_context(), u32_le(values[i]), signatures[i]@)
}

/// Whether every party's published triple checks out.
pub open spec fn all_commitments_ok(
    public_keys: Seq<Vec<u8>>,
    values: Seq<u32>,
    signatures: Seq<Vec<u8>>,
) -> bool {
    forall|i: int|
        0 <= i < values.len() ==> commitment_ok(public_keys, values, signatures, i)
}

/// Check one party's revealed input against its commitment signature, under
/// the same domain-separation context the commitment was signed with.
pub fn verify_commitment(public_key: &Vec<u8>, claimed_value: u32, signature: &Vec<u8>) -> (r:
    bool)
    ensures
        r == sig_valid(public_key@, commit_context(), u32_le(claimed_value), signature@),
{
    let ctx = crate::domain::commit_context_bytes();
    let msg = encode_le32(claimed_value);
    crate::crypto::verify_signature(
        public_key.as_slice(),
        ctx.as_slice(),
        msg.as_slice(),
        signature.as_slice(),
    )
}

/// Check every party's revealed input against its signature. Succeeds if
/// and only if all signatures verify; otherwise reports the first party
/// whose signature does not, and the round must abort.
pub fn verify_all(
    public_keys: &Vec<Vec<u8>>,
    values: &Vec<u32>,
    signatures: &Vec<Vec<u8>>,
) -> (r: Result<(), ProtocolError>)
    requires
        public_keys@.len() == values@.len(),
        signatures@.len() == values@.len(),
    ensures
        r is Ok <==> all_commitments_ok(public_keys@, values@, signatures@),
        match r {
            Ok(()) => true,
            Err(ProtocolError::InvalidSignature(i)) => {
                &&& i < values@.len()
                &&& !commitment_ok(public_keys@, values@, signatures@, i as int)
                &&& forall|j: int|
                    0 <= j < i ==> commitment_ok(public_keys@, values@, signatures@, j)
            },
            Err(_) => false,
        },
{
    let mut i: usize = 0;
    while i < values.len()
        invariant
            i <= values.len(),
            public_keys@.len() == values@.len(),
            signatures@.len() == values@.len(),
            forall|j: int| 0 <= j < i ==> commitment_ok(public_keys@, values@, signatures@, j),
        decreases values.len() - i,
    {
        if !verify_commitment(&public_keys[i], values[i], &signatures[i]) {
            proof {
                assert(!commitment_ok(public_keys@, values@, signatures@, i as int));
            }
            return Err(ProtocolError::InvalidSignature(i));
        }
        i = i + 1;
    }
    Ok(())
}

// ---------------------------------------------------------------------------
// Outcome resolution: cards, the winner, and the tie-break.
// ---------------------------------------------------------------------------

/// The card derived from a VRF output: its first byte modulo 52.
pub open spec fn card_of(output: Seq<u8>) -> u8
    recommends
        output.len() > 0,
{
    output[0] % 52
}

/// Law: every derived card lies in [0, 52).
pub proof fn lemma_card_in_range(output: Seq<u8>)
    requires
        output.len() > 0,
    ensures
        card_of(output) < 52,
{
}

/// Law: the draw is deterministic. The VRF output of a given key over a
/// given seed under the drawing context is a single value — which is what
/// `draw_card` and `evaluate_vrf` ensure they return — so evaluating the
/// draw twice with the same identity and seed yields identical output and
/// identical derived card.
pub proof fn lemma_draw_deterministic(
    pk: Seq<u8>,
    seed_bytes: Seq<u8>,
    out1: Seq<u8>,
    out2: Seq<u8>,
)
    requires
        out1 == vrf_output_of(pk, draw_context(), seed_bytes),
        out2 == vrf_output_of(pk, draw_context(), seed_bytes),
    ensures
        out1 == out2,
        out1.len() > 0 ==> card_of(out1) == card_of(out2),
{
}

/// One party's draw: the raw 32-byte VRF output and the card derived from
/// its first byte.
#[derive(Debug, PartialEq, Eq)]
pub struct DrawOutput {
    pub vrf_output: Vec<u8>,
    pub derived_card: u8,
}

impl DrawOutput {
    pub open spec fn wf(&self) -> bool {
        &&& self.vrf_output@.len() == 32
        &&& self.derived_card == card_of(self.vrf_output@)
        &&& self.derived_card < 52
    }

    /// Derive the card from a 32-byte VRF output.
    pub fn new(vrf_output: Vec<u8>) -> (r: DrawOutput)
        requires
            vrf_output@.len() == 32,
        ensures
            r.wf(),
            r.vrf_output@ == vrf_output@,
            r.derived_card == card_of(vrf_output@),
    {
        let derived_card = vrf_output[0] % 52;
        DrawOutput { vrf_output, derived_card }
    }
}

/// The cards of a sequence of draws, in party order.
pub open spec fn cards_of(outputs: Seq<DrawOutput>) -> Seq<u8> {
    outputs.map_values(|o: DrawOutput| o.derived_card)
}

/// Whether party `i` wins over `cards`: it holds a maximal card, and every
/// earlier party holds a strictly smaller one — the lowest-indexed party
/// among ties wins.
pub open spec fn is_winner(cards: Seq<u8>, i: int) -> bool {
    &&& 0 <= i < cards.len()
    &&& forall|j: int| 0 <= j < cards.len() ==> cards[j] <= cards[i]
    &&& forall|j: int| 0 <= j < i ==> cards[j] < cards[i]
}

/// The outcome of a round: every party's draw, the winner, and its card.
#[derive(Debug, PartialEq, Eq)]
pub struct RoundResult {
    pub outputs: Vec<DrawOutput>,
    pub winner_index: usize,
    pub winning_card: u8,
}

/// Resolve a round: scan the draws in party order, tracking the running
/// maximum under strict comparison, so the lowest-indexed party among ties
/// wins. An empty set of draws is refused.
pub fn resolve(outputs: Vec<DrawOutput>) -> (r: Result<RoundResult, ProtocolError>)
    requires
        forall|j: int| 0 <= j < outputs@.len() ==> (#[trigger] outputs@[j]).wf(),
    ensures
        outputs@.len() == 0 ==> r == Err::<RoundResult, ProtocolError>(
            ProtocolError::NoParticipants,
        ),
        outputs@.len() > 0 ==> {
            &&& r is Ok
            &&& r->Ok_0.outputs@ == outputs@
            &&& is_winner(cards_of(outputs@), r->Ok_0.winner_index as int)
            &&& r->Ok_0.winning_card == cards_of(outputs@)[r->Ok_0.winner_index as int]
        },
{
    if outputs.len() == 0 {
        return Err(ProtocolError::NoParticipants);
    }
    let mut winner_index: usize = 0;
    let mut winning_card: u8 = outputs[0].derived_card;
    let mut i: usize = 1;
    while i < outputs.len()
        invariant
            1 <= i <= outputs@.len(),
            winner_index < i,
            winning_card == cards_of(outputs@)[winner_index as int],
            forall|j: int| 0 <= j < i ==> cards_of(outputs@)[j] <= winning_card,
            forall|j: int| 0 <= j < winner_index ==> cards_of(outputs@)[j] < winning_card,
        decreases outputs@.len() - i,
    {
        if outputs[i].derived_card > winning_card {
            winner_index = i;
            winning_card = outputs[i].derived_card;
        }
        i = i + 1;
    }
    Ok(RoundResult { outputs, winner_index, winning_card })
}

// ---------------------------------------------------------------------------
// The full round, phase by phase.
// ---------------------------------------------------------------------------

/// An auditable transcript for a set of draws: one public key, committed
/// value and signature per party, such that every signature verifies over
/// its value's little-endian encoding under the commitment context, and
/// every draw is that party's VRF output, under the drawing context, over
/// the encoded aggregate seed of all the committed values.
pub open spec fn protocol_transcript(
    outputs: Seq<DrawOutput>,
    public_keys: Seq<Seq<u8>>,
    values: Seq<u32>,
    signatures: Seq<Seq<u8>>,
) -> bool {
    &&& public_keys.len() == outputs.len()
    &&& values.len() == outputs.len()
    &&& signatures.len() == outputs.len()
    &&& forall|j: int| 0 <= j < outputs.len() ==> (#[trigger] public_keys[j]).len() == 32
    &&& forall|j: int|
        0 <= j < outputs.len() ==> sig_valid(
            public_keys[j],
            commit_context(),
            u32_le(#[trigger] values[j]),
            signatures[j],
        )
    &&& forall|j: int|
        0 <= j < outputs.len() ==> (#[trigger] outputs[j]).vrf_output@ == vrf_output_of(
            public_keys[j],
            draw_context(),
            u32_le(wrap_sum(values)),
        )
}

/// Run one full round with `n` freshly generated parties: all commit, every
/// commitment is verified, the verified inputs are aggregated into the
/// seed, every party draws over the seed's little-endian encoding, and the
/// round is resolved. A round with no participants is refused; with at
/// least one participant it always succeeds, because a commitment produced
/// by an honest party always passes verification. The outputs are no
/// arbitrary well-formed draws: they admit a protocol transcript — keys,
/// committed values and verifying signatures under which each output is
/// that party's VRF output over the aggregate seed.
pub fn run_round(n: usize) -> (r: Result<RoundResult, ProtocolError>)
    ensures
        n == 0 ==> r == Err::<RoundResult, ProtocolError>(ProtocolError::NoParticipants),
        n > 0 ==> {
            &&& r is Ok
            &&& r->Ok_0.outputs@.len() == n
            &&& forall|j: int| 0 <= j < n ==> r->Ok_0.outputs@[j].wf()
            &&& is_winner(cards_of(r->Ok_0.outputs@), r->Ok_0.winner_index as int)
            &&& r->Ok_0.winning_card == cards_of(r->Ok_0.outputs@)[r->Ok_0.winner_index as int]
            &&& exists|pks: Seq<Seq<u8>>, vals: Seq<u32>, sigs: Seq<Seq<u8>>|
                protocol_transcript(r->Ok_0.outputs@, pks, vals, sigs)
        },
{
    if n == 0 {
        return Err(ProtocolError::NoParticipants);
    }
    // Commitment phase: every party samples and signs its input.
    let mut players: Vec<Player> = Vec::new();
    let mut public_keys: Vec<Vec<u8>> = Vec::new();
    let mut values: Vec<u32> = Vec::new();
    let mut signatures: Vec<Vec<u8>> = Vec::new();
    let mut i: usize = 0;
    while i < n
        invariant
            players@.len() == i,
            public_keys@.len() == i,
            values@.len() == i,
            signatures@.len() == i,
            i <= n,
            forall|j: int|
                0 <= j < i ==> (#[trigger] players@[j]).wf() && players@[j].phase()
                    == Phase::Committed,
            forall|j: int| 0 <= j < i ==> (#[trigger] public_keys@[j])@ == players@[j].pk(),
            forall|j: int| 0 <= j < i ==> players@[j].input() == Some(#[trigger] values@[j]),
            forall|j: int|
                0 <= j < i ==> players@[j].signature_bytes() == Some(
                    (#[trigger] signatures@[j])@,
                ),
        decreases n - i,
    {
        let mut p = Player::new();
        let selected = p.select_input();
        if selected.is_err() {
            return Err(ProtocolError::WrongPhase);
        }
        public_keys.push(p.public_key());
        let value = match p.reveal_input() {
            Ok(v) => v,
            Err(_) => {
                return Err(ProtocolError::MissingCommitment);
            },
        };
        values.push(value);
        let signature = match p.reveal_signature() {
            Ok(s) => s,
            Err(_) => {
                return Err(ProtocolError::MissingCommitment);
            },
        };
        signatures.push(signature);
        players.push(p);
        i = i + 1;
    }
    // Verification phase: every commitment is checked before aggregation.
    proof {
        assert forall|j: int|
            0 <= j < values@.len() implies commitment_ok(
            public_keys@,
            values@,
            signatures@,
            j,
        ) by {
            assert(players@[j].wf());
        }
    }
    match verify_all(&public_keys, &values, &signatures) {
        Ok(()) => (),
        Err(e) => {
            return Err(e);
        },
    }
    // Aggregation: the shared seed, fed to each draw in little-endian form.
    let seed = aggregate(&values);
    let seed_bytes = encode_le32(seed);
    // Draw phase: every party evaluates its VRF over the seed.
    let mut outputs: Vec<DrawOutput> = Vec::new();
    let mut k: usize = 0;
    while k < n
        invariant
            players@.len() == n - k,
            outputs@.len() == k,
            k <= n,
            public_keys@.len() == n,
            seed_bytes@ == u32_le(seed),
            forall|j: int|
                0 <= j < players@.len() ==> (#[trigger] players@[j]).wf() && players@[j].phase()
                    == Phase::Committed,
            forall|j: int|
                0 <= j < players@.len() ==> (#[trigger] players@[j]).pk() == public_keys@[k + j]@,
            forall|j: int| 0 <= j < k ==> (#[trigger] outputs@[j]).wf(),
            forall|j: int|
                0 <= j < k ==> (#[trigger] outputs@[j]).vrf_output@ == vrf_output_of(
                    public_keys@[j]@,
                    draw_context(),
                    u32_le(seed),
                ),
        decreases n - k,
    {
        let mut p = players.remove(0);
        if p.mark_verified().is_err() {
            return Err(ProtocolError::WrongPhase);
        }
        if p.draw_card(seed_bytes.as_slice()).is_err() {
            return Err(ProtocolError::WrongPhase);
        }
        let output_bytes = match p.reveal_output() {
            Ok(o) => o,
            Err(_) => {
                return Err(ProtocolError::MissingDrawOutput);
            },
        };
        outputs.push(DrawOutput::new(output_bytes));
        k = k + 1;
    }
    // Outcome resolution. The vectors built above witness the transcript.
    let ghost drawn = outputs@;
    let result = resolve(outputs);
    proof {
        let pks = public_keys@.map_values(|v: Vec<u8>| v@);
        let sigs = signatures@.map_values(|v: Vec<u8>| v@);
        assert(protocol_transcript(drawn, pks, values@, sigs));
        assert(result->Ok_0.outputs@ == drawn);
        assert(protocol_transcript(result->Ok_0.outputs@, pks, values@, sigs));
    }
    result
}

} // verus!
