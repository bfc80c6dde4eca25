use fair_draw::errors::ProtocolError;
use fair_draw::encoding::encode_le32;
use fair_draw::player::Player;
use fair_draw::round::{aggregate, resolve, run_round, verify_all, verify_commitment, DrawOutput};

fn output_with_first_byte(b: u8) -> Vec<u8> {
    let mut v = vec![0u8; 32];
    v[0] = b;
    v
}

#[test]
fn encode_le32_exact() {
    assert_eq!(encode_le32(0x0102_0304), vec![0x04, 0x03, 0x02, 0x01]);
    assert_eq!(encode_le32(38), vec![38, 0, 0, 0]);
    assert_eq!(encode_le32(0), vec![0, 0, 0, 0]);
    assert_eq!(encode_le32(u32::MAX), vec![0xff, 0xff, 0xff, 0xff]);
}

#[test]
fn determinism_of_vrf() {
    let mut p = Player::new();
    p.select_input().unwrap();
    let seed_bytes = encode_le32(38);
    let (out1, proof1) = p.evaluate_vrf(&seed_bytes);
    let (out2, _proof2) = p.evaluate_vrf(&seed_bytes);
    assert_eq!(out1, out2);
    assert_eq!(out1.len(), 32);
    assert_eq!(proof1.len(), 64);
    assert_eq!(out1[0] % 52, out2[0] % 52);
    // A different party draws its own, independent output.
    let q = Player::new();
    let (out3, _) = q.evaluate_vrf(&seed_bytes);
    assert_ne!(out1, out3);
}

#[test]
fn third_party_can_verify_draw() {
    let mut p = Player::new();
    p.select_input().unwrap();
    p.mark_verified().unwrap();
    let seed_bytes = encode_le32(38);
    p.draw_card(&seed_bytes).unwrap();
    let output = p.reveal_output().unwrap();
    let proof = p.reveal_proof().unwrap();
    assert_eq!(proof.len(), 64);
    // An outside verifier holding only the published values checks the draw.
    let pk = schnorrkel::PublicKey::from_bytes(&p.public_key()).unwrap();
    let pre_out = schnorrkel::vrf::VRFPreOut::from_bytes(&output).unwrap();
    let vrf_proof = schnorrkel::vrf::VRFProof::from_bytes(&proof).unwrap();
    let t = schnorrkel::signing_context(b"drawing card").bytes(&seed_bytes);
    assert!(pk.vrf_verify(t, &pre_out, &vrf_proof).is_ok());
    // The proof does not vouch for another seed or a tampered output.
    let t_other = schnorrkel::signing_context(b"drawing card").bytes(&encode_le32(39));
    assert!(pk.vrf_verify(t_other, &pre_out, &vrf_proof).is_err());
    let mut tampered = output.clone();
    tampered[0] ^= 1;
    if let Ok(bad_out) = schnorrkel::vrf::VRFPreOut::from_bytes(&tampered) {
        let t_again = schnorrkel::signing_context(b"drawing card").bytes(&seed_bytes);
        assert!(pk.vrf_verify(t_again, &bad_out, &vrf_proof).is_err());
    }
}

#[test]
fn signature_round_trip() {
    let mut p = Player::new();
    p.select_input().unwrap();
    let pk = p.public_key();
    let value = p.reveal_input().unwrap();
    let signature = p.reveal_signature().unwrap();
    assert!(verify_commitment(&pk, value, &signature));
    // Flipping any bit of the value makes verification fail.
    for bit in 0..32 {
        assert!(!verify_commitment(&pk, value ^ (1u32 << bit), &signature));
    }
    // Flipping one bit of each signature byte makes verification fail.
    for i in 0..signature.len() {
        let mut tampered = signature.clone();
        tampered[i] ^= 1;
        assert!(!verify_commitment(&pk, value, &tampered));
    }
}

#[test]
fn aggregation_commutativity() {
    let orderings: [[u32; 3]; 6] = [
        [11, 7, 20],
        [11, 20, 7],
        [7, 11, 20],
        [7, 20, 11],
        [20, 7, 11],
        [20, 11, 7],
    ];
    for values in orderings.iter() {
        assert_eq!(aggregate(&values.to_vec()), 38);
    }
    // The sum wraps modulo 2^32.
    assert_eq!(aggregate(&vec![u32::MAX, 2]), 1);
    assert_eq!(aggregate(&vec![2, u32::MAX]), 1);
    assert_eq!(aggregate(&vec![]), 0);
}

#[test]
fn card_range() {
    for b in 0..=255u8 {
        let out = DrawOutput::new(output_with_first_byte(b));
        assert!(out.derived_card < 52);
        assert_eq!(out.derived_card, b % 52);
    }
}

#[test]
fn winner_tie_break() {
    // Cards [10, 25, 25, 3]: the first of the two tied maxima wins.
    let outputs = vec![
        DrawOutput::new(output_with_first_byte(10)),
        DrawOutput::new(output_with_first_byte(25)),
        DrawOutput::new(output_with_first_byte(25)),
        DrawOutput::new(output_with_first_byte(3)),
    ];
    let result = resolve(outputs).unwrap();
    assert_eq!(result.winner_index, 1);
    assert_eq!(result.winning_card, 25);
}

#[test]
fn abort_on_tampering() {
    let mut players = vec![Player::new(), Player::new(), Player::new()];
    for p in players.iter_mut() {
        p.select_input().unwrap();
    }
    let public_keys: Vec<Vec<u8>> = players.iter().map(|p| p.public_key()).collect();
    let mut values: Vec<u32> = players.iter().map(|p| p.reveal_input().unwrap()).collect();
    let signatures: Vec<Vec<u8>> =
        players.iter().map(|p| p.reveal_signature().unwrap()).collect();
    // One party's revealed value does not match its signature.
    values[1] = values[1].wrapping_add(1);
    assert_eq!(
        verify_all(&public_keys, &values, &signatures),
        Err(ProtocolError::InvalidSignature(1))
    );
    // The round aborts before any draw: no party was marked verified, so no
    // party can draw.
    let seed_bytes = encode_le32(aggregate(&values));
    for p in players.iter_mut() {
        assert_eq!(p.draw_card(&seed_bytes), Err(ProtocolError::WrongPhase));
        assert_eq!(p.reveal_card(), Err(ProtocolError::MissingDrawOutput));
    }
}

#[test]
fn end_to_end_mocked_outputs() {
    // Committed values {11, 7, 20} sum to seed 38; VRF outputs with first
    // bytes {200, 45, 200} yield cards {44, 45, 44}, so party 1 wins with
    // the unique maximum 45.
    let seed = aggregate(&vec![11, 7, 20]);
    assert_eq!(seed, 38);
    let outputs = vec![
        DrawOutput::new(output_with_first_byte(200)),
        DrawOutput::new(output_with_first_byte(45)),
        DrawOutput::new(output_with_first_byte(200)),
    ];
    assert_eq!(outputs[0].derived_card, 44);
    assert_eq!(outputs[1].derived_card, 45);
    assert_eq!(outputs[2].derived_card, 44);
    let result = resolve(outputs).unwrap();
    assert_eq!(result.winner_index, 1);
    assert_eq!(result.winning_card, 45);
}

#[test]
fn end_to_end_real_keys() {
    let mut players = vec![Player::new(), Player::new(), Player::new()];
    for p in players.iter_mut() {
        p.select_input().unwrap();
    }
    let public_keys: Vec<Vec<u8>> = players.iter().map(|p| p.public_key()).collect();
    let values: Vec<u32> = players.iter().map(|p| p.reveal_input().unwrap()).collect();
    let signatures: Vec<Vec<u8>> =
        players.iter().map(|p| p.reveal_signature().unwrap()).collect();
    assert_eq!(verify_all(&public_keys, &values, &signatures), Ok(()));
    let seed = aggregate(&values);
    assert_eq!(seed, values.iter().fold(0u32, |a, v| a.wrapping_add(*v)));
    let seed_bytes = encode_le32(seed);
    let mut outputs = Vec::new();
    for p in players.iter_mut() {
        p.mark_verified().unwrap();
        p.draw_card(&seed_bytes).unwrap();
        let bytes = p.reveal_output().unwrap();
        let card = p.reveal_card().unwrap();
        assert_eq!(card, bytes[0] % 52);
        assert!(card < 52);
        outputs.push(DrawOutput::new(bytes));
    }
    let cards: Vec<u8> = outputs.iter().map(|o| o.derived_card).collect();
    let result = resolve(outputs).unwrap();
    let max = *cards.iter().max().unwrap();
    assert_eq!(result.winning_card, max);
    assert_eq!(
        result.winner_index,
        cards.iter().position(|c| *c == max).unwrap()
    );
}

#[test]
fn run_round_full() {
    let result = run_round(3).unwrap();
    assert_eq!(result.outputs.len(), 3);
    let cards: Vec<u8> = result.outputs.iter().map(|o| o.derived_card).collect();
    for (i, o) in result.outputs.iter().enumerate() {
        assert_eq!(o.vrf_output.len(), 32);
        assert_eq!(o.derived_card, o.vrf_output[0] % 52);
        assert!(o.derived_card < 52);
        assert!(cards[i] <= result.winning_card);
    }
    assert_eq!(cards[result.winner_index], result.winning_card);
    assert!(cards[..result.winner_index]
        .iter()
        .all(|c| *c < result.winning_card));
}

#[test]
fn run_round_no_participants() {
    assert_eq!(run_round(0), Err(ProtocolError::NoParticipants));
}

#[test]
fn resolve_no_participants() {
    assert_eq!(resolve(Vec::new()), Err(ProtocolError::NoParticipants));
}

#[test]
fn phase_ordering_errors() {
    let mut p = Player::new();
    // Nothing committed yet.
    assert_eq!(p.reveal_input(), Err(ProtocolError::MissingCommitment));
    assert_eq!(p.reveal_signature(), Err(ProtocolError::MissingCommitment));
    assert_eq!(p.reveal_card(), Err(ProtocolError::MissingDrawOutput));
    assert_eq!(p.reveal_output(), Err(ProtocolError::MissingDrawOutput));
    assert_eq!(p.reveal_proof(), Err(ProtocolError::MissingDrawOutput));
    // Drawing and verifying are refused before their phases.
    assert_eq!(p.draw_card(&encode_le32(0)), Err(ProtocolError::WrongPhase));
    assert_eq!(p.mark_verified(), Err(ProtocolError::WrongPhase));
    // Committing twice is refused.
    p.select_input().unwrap();
    assert_eq!(p.select_input(), Err(ProtocolError::WrongPhase));
    // Drawing before verification is refused.
    assert_eq!(p.draw_card(&encode_le32(0)), Err(ProtocolError::WrongPhase));
    p.mark_verified().unwrap();
    assert_eq!(p.mark_verified(), Err(ProtocolError::WrongPhase));
    p.draw_card(&encode_le32(0)).unwrap();
    assert_eq!(p.draw_card(&encode_le32(0)), Err(ProtocolError::WrongPhase));
    assert!(p.reveal_card().is_ok());
    assert!(p.reveal_proof().is_ok());
}

#[test]
fn public_key_is_stable() {
    let mut p = Player::new();
    let pk1 = p.public_key();
    assert_eq!(pk1.len(), 32);
    p.select_input().unwrap();
    let pk2 = p.public_key();
    assert_eq!(pk1, pk2);
    // Garbage never verifies.
    assert!(!verify_commitment(&vec![0u8; 32], 7, &vec![0u8; 64]));
    assert!(!verify_commitment(&pk1, 7, &vec![]));
}
