use proving_games::error::Error;
use proving_games::game::{
    check_invariant, comparison_value, ComparisonValue, DomainInput, Fault, Game,
};
use proving_games::harness::validate_public_output;
use proving_games::output::{
    decode_public_output, encode_public_output, BlockExecutionOutput, DecompressionOutput,
    PublicOutput,
};

fn height_word(x: u32) -> Vec<u8> {
    let mut w = vec![0u8; 28];
    w.extend_from_slice(&x.to_be_bytes());
    w
}

fn decompression_bytes(hash: [u8; 32], first: u32, last: u32) -> Vec<u8> {
    let mut b = hash.to_vec();
    b.extend(height_word(first));
    b.extend(height_word(last));
    b
}

#[test]
fn block_output_encodes_as_two_words() {
    let o = PublicOutput::BlockExecution(BlockExecutionOutput {
        input_hash: [0x11; 32],
        block_id: [0x22; 32],
    });
    let bytes = encode_public_output(&o);
    assert_eq!(bytes.len(), 64);
    assert_eq!(&bytes[..32], &[0x11u8; 32][..]);
    assert_eq!(&bytes[32..], &[0x22u8; 32][..]);
}

#[test]
fn decompression_output_encodes_padded_heights() {
    let o = PublicOutput::Decompression(DecompressionOutput {
        input_hash: [0xab; 32],
        first_block_height: 0x0102_0304,
        last_block_height: 7,
    });
    let bytes = encode_public_output(&o);
    assert_eq!(bytes, decompression_bytes([0xab; 32], 0x0102_0304, 7));
    assert_eq!(&bytes[60..64], &[1u8, 2, 3, 4][..]);
    assert_eq!(bytes[95], 7);
}

#[test]
fn public_output_round_trips_for_both_games() {
    let block = PublicOutput::BlockExecution(BlockExecutionOutput {
        input_hash: [3; 32],
        block_id: [9; 32],
    });
    let bytes = encode_public_output(&block);
    assert_eq!(decode_public_output(Game::BlockExecution, &bytes), Ok(block));

    let batch = PublicOutput::Decompression(DecompressionOutput {
        input_hash: [5; 32],
        first_block_height: 14_133_451,
        last_block_height: 14_136_885,
    });
    let bytes = encode_public_output(&batch);
    assert_eq!(decode_public_output(Game::Decompression, &bytes), Ok(batch));
}

#[test]
fn honest_output_round_trip_passes_invariant() {
    let id = [0x5a; 32];
    let expected = comparison_value(&DomainInput::BlockExecution { block_id: id });
    assert_eq!(expected, ComparisonValue::BlockId(id));
    let honest = PublicOutput::BlockExecution(BlockExecutionOutput {
        input_hash: [1; 32],
        block_id: id,
    });
    let bytes = encode_public_output(&honest);
    let decoded = decode_public_output(Game::BlockExecution, &bytes).unwrap();
    assert_eq!(check_invariant(&expected, &decoded), Ok(()));

    let expected = comparison_value(&DomainInput::Decompression);
    assert_eq!(expected, ComparisonValue::OrderedHeights);
    let honest = PublicOutput::Decompression(DecompressionOutput {
        input_hash: [2; 32],
        first_block_height: 10,
        last_block_height: 10,
    });
    let bytes = encode_public_output(&honest);
    let decoded = decode_public_output(Game::Decompression, &bytes).unwrap();
    assert_eq!(check_invariant(&expected, &decoded), Ok(()));
}

#[test]
fn block_output_of_wrong_length_is_rejected() {
    for len in [0usize, 8, 63, 65, 96] {
        let bytes = vec![0u8; len];
        match decode_public_output(Game::BlockExecution, &bytes) {
            Err(Error::FailedToDeserializePublicOutput(_)) => {}
            other => panic!("length {len}: unexpected {other:?}"),
        }
    }
}

#[test]
fn decompression_output_with_dirty_padding_is_rejected() {
    let mut bytes = decompression_bytes([0; 32], 1, 2);
    bytes[40] = 1;
    assert!(matches!(
        decode_public_output(Game::Decompression, &bytes),
        Err(Error::FailedToDeserializePublicOutput(_))
    ));
    let mut bytes = decompression_bytes([0; 32], 1, 2);
    bytes[64] = 0x80;
    assert!(matches!(
        decode_public_output(Game::Decompression, &bytes),
        Err(Error::FailedToDeserializePublicOutput(_))
    ));
    let mut bytes = decompression_bytes([0; 32], 1, 2);
    bytes.push(0);
    assert!(matches!(
        decode_public_output(Game::Decompression, &bytes),
        Err(Error::FailedToDeserializePublicOutput(_))
    ));
}

#[test]
fn reversed_heights_fault_with_both_values() {
    let bytes = decompression_bytes([0x33; 32], 100, 50);
    let r = validate_public_output(&ComparisonValue::OrderedHeights, &bytes);
    assert_eq!(r, Err(Error::Fault(Fault::HeightsOutOfOrder { first: 100, last: 50 })));
}

#[test]
fn block_id_mismatch_is_a_fault() {
    let expected = [0xaa; 32];
    let mut committed = [0xaa; 32];
    committed[31] = 0xab;
    let o = PublicOutput::BlockExecution(BlockExecutionOutput {
        input_hash: [0; 32],
        block_id: committed,
    });
    let bytes = encode_public_output(&o);
    let r = validate_public_output(&ComparisonValue::BlockId(expected), &bytes);
    assert_eq!(
        r,
        Err(Error::Fault(Fault::BlockIdMismatch { expected, actual: committed }))
    );
}

#[test]
fn output_of_the_other_game_is_a_game_mismatch() {
    let o = PublicOutput::Decompression(DecompressionOutput {
        input_hash: [0; 32],
        first_block_height: 1,
        last_block_height: 2,
    });
    assert_eq!(
        check_invariant(&ComparisonValue::BlockId([0; 32]), &o),
        Err(Fault::GameMismatch { checked_against: Game::BlockExecution, committed_by: Game::Decompression })
    );
}

#[test]
fn undecodable_journal_is_not_a_fault() {
    let r = validate_public_output(&ComparisonValue::BlockId([1; 32]), &[0u8; 10]);
    assert!(matches!(r, Err(Error::FailedToDeserializePublicOutput(_))));
}

#[test]
fn decoded_bytes_re_encode_exactly() {
    let bytes = decompression_bytes([0x7e; 32], 0xdead_beef, 0xffff_ffff);
    let o = decode_public_output(Game::Decompression, &bytes).unwrap();
    assert_eq!(encode_public_output(&o), bytes);
    let mut bytes = vec![0xc1u8; 32];
    bytes.extend([0x0du8; 32]);
    let o = decode_public_output(Game::BlockExecution, &bytes).unwrap();
    assert_eq!(encode_public_output(&o), bytes);
}
