//! Structural equality: same variant and same field values, nothing less.

use block_execution_errors::primitives::{BlockNumHash, Bloom, Hash256};
use block_execution_errors::BlockExecutionError;

#[test]
fn equal_when_variant_and_fields_match() {
    let a = BlockExecutionError::EVM {
        hash: Hash256::new([0x11; 32]),
        message: String::from("gas"),
    };
    let b = BlockExecutionError::EVM {
        hash: Hash256::new([0x11; 32]),
        message: String::from("gas"),
    };
    assert_eq!(a, b);
    assert_eq!(b, a);
}

#[test]
fn not_equal_when_hash_differs() {
    let a = BlockExecutionError::EVM {
        hash: Hash256::new([0x11; 32]),
        message: String::from("gas"),
    };
    let b = BlockExecutionError::EVM {
        hash: Hash256::new([0x22; 32]),
        message: String::from("gas"),
    };
    assert_ne!(a, b);
}

#[test]
fn not_equal_when_message_differs() {
    let a = BlockExecutionError::CanonicalCommit {
        inner: String::from("x"),
    };
    let b = BlockExecutionError::CanonicalCommit {
        inner: String::from("y"),
    };
    assert_ne!(a, b);
}

#[test]
fn not_equal_across_variants_with_matching_fields() {
    let a = BlockExecutionError::BlockSideChainIdConsistency { chain_id: 5 };
    let b = BlockExecutionError::BlockNumberNotFoundInChain { block_number: 5 };
    assert_ne!(a, b);

    let c = BlockExecutionError::CanonicalCommit {
        inner: String::from("same"),
    };
    let d = BlockExecutionError::CanonicalRevert {
        inner: String::from("same"),
    };
    assert_ne!(c, d);

    let e = BlockExecutionError::BlockPreMerge {
        hash: Hash256::new([0x11; 32]),
    };
    let f = BlockExecutionError::MissingTotalDifficulty {
        hash: Hash256::new([0x11; 32]),
    };
    assert_ne!(e, f);
}

#[test]
fn equality_is_reflexive_on_samples() {
    let samples = [
        BlockExecutionError::ProviderError,
        BlockExecutionError::BlockGasUsed { got: 3, expected: 4 },
        BlockExecutionError::CanonicalRevert {
            inner: String::from("r"),
        },
    ];
    for e in &samples {
        assert_eq!(e, e);
    }
}

#[test]
fn bloom_equality_is_by_value() {
    let a = BlockExecutionError::BloomLogDiff {
        got: Bloom::new([0x01; 256]),
        expected: Bloom::new([0x02; 256]),
    };
    let b = BlockExecutionError::BloomLogDiff {
        got: Bloom::new([0x01; 256]),
        expected: Bloom::new([0x02; 256]),
    };
    assert_eq!(a, b);
    let mut other = [0x01; 256];
    other[255] = 0xFF;
    let c = BlockExecutionError::BloomLogDiff {
        got: Bloom::new(other),
        expected: Bloom::new([0x02; 256]),
    };
    assert_ne!(a, c);
}

#[test]
fn num_hash_equality_compares_both_fields() {
    let tip = BlockNumHash::new(7, Hash256::new([0xCD; 32]));
    let fork = BlockNumHash::new(3, Hash256::new([0xEF; 32]));
    let a = BlockExecutionError::AppendChainDoesntConnect {
        chain_tip: tip,
        other_chain_fork: fork,
    };
    let b = BlockExecutionError::AppendChainDoesntConnect {
        chain_tip: BlockNumHash::new(7, Hash256::new([0xCD; 32])),
        other_chain_fork: BlockNumHash::new(3, Hash256::new([0xEF; 32])),
    };
    assert_eq!(a, b);
    let c = BlockExecutionError::AppendChainDoesntConnect {
        chain_tip: tip,
        other_chain_fork: BlockNumHash::new(4, Hash256::new([0xEF; 32])),
    };
    assert_ne!(a, c);
}

#[test]
fn clone_equals_original() {
    let samples = [
        BlockExecutionError::EVM {
            hash: Hash256::new([0x77; 32]),
            message: String::from("m"),
        },
        BlockExecutionError::CanonicalCommit {
            inner: String::from("db closed"),
        },
        BlockExecutionError::PendingBlockIsFinalized {
            block_hash: Hash256::new([0x33; 32]),
            block_number: 90,
            last_finalized: 100,
        },
        BlockExecutionError::UnavailableForTest,
    ];
    for e in &samples {
        let copy = e.clone();
        assert_eq!(&copy, e);
        assert_eq!(copy.render(), e.render());
    }
}
