//! The fatality partition: `is_fatal` is true exactly on commit and revert
//! failures, and classification survives cloning.

use block_execution_errors::primitives::{BlockNumHash, Bloom, Hash256};
use block_execution_errors::BlockExecutionError;

fn one_of_each() -> Vec<BlockExecutionError> {
    vec![
        BlockExecutionError::EVM {
            hash: Hash256::new([1; 32]),
            message: String::from("m"),
        },
        BlockExecutionError::SenderRecoveryError,
        BlockExecutionError::ReceiptRootDiff {
            got: Hash256::new([2; 32]),
            expected: Hash256::new([3; 32]),
        },
        BlockExecutionError::BloomLogDiff {
            got: Bloom::new([4; 256]),
            expected: Bloom::new([5; 256]),
        },
        BlockExecutionError::TransactionGasLimitMoreThenAvailableBlockGas {
            transaction_gas_limit: 21_000,
            block_available_gas: 10_000,
        },
        BlockExecutionError::BlockGasUsed { got: 1, expected: 2 },
        BlockExecutionError::ProviderError,
        BlockExecutionError::BlockSideChainIdConsistency { chain_id: 6 },
        BlockExecutionError::AppendChainDoesntConnect {
            chain_tip: BlockNumHash::new(7, Hash256::new([7; 32])),
            other_chain_fork: BlockNumHash::new(8, Hash256::new([8; 32])),
        },
        BlockExecutionError::CanonicalChain {
            block_hash: Hash256::new([9; 32]),
        },
        BlockExecutionError::PendingBlockIsFinalized {
            block_hash: Hash256::new([10; 32]),
            block_number: 10,
            last_finalized: 11,
        },
        BlockExecutionError::BlockNumberNotFoundInChain { block_number: 12 },
        BlockExecutionError::BlockHashNotFoundInChain {
            block_hash: Hash256::new([13; 32]),
        },
        BlockExecutionError::CanonicalRevert {
            inner: String::from("revert reason"),
        },
        BlockExecutionError::CanonicalCommit {
            inner: String::from("commit reason"),
        },
        BlockExecutionError::BlockPreMerge {
            hash: Hash256::new([14; 32]),
        },
        BlockExecutionError::MissingTotalDifficulty {
            hash: Hash256::new([15; 32]),
        },
        BlockExecutionError::UnavailableForTest,
    ]
}

#[test]
fn fatal_iff_commit_or_revert() {
    let all = one_of_each();
    assert_eq!(all.len(), 18);
    let mut fatal_count = 0;
    for e in &all {
        let expected = matches!(
            e,
            BlockExecutionError::CanonicalCommit { .. } | BlockExecutionError::CanonicalRevert { .. }
        );
        assert_eq!(e.is_fatal(), expected);
        if e.is_fatal() {
            fatal_count += 1;
        }
    }
    assert_eq!(fatal_count, 2);
}

#[test]
fn commit_failure_scenario() {
    let e = BlockExecutionError::CanonicalCommit {
        inner: String::from("db closed"),
    };
    assert_eq!(e.render(), "Transaction error on commit: \"db closed\"");
    assert!(e.is_fatal());
}

#[test]
fn receipt_root_mismatch_scenario() {
    let e = BlockExecutionError::ReceiptRootDiff {
        got: Hash256::new([0xAA; 32]),
        expected: Hash256::new([0xBB; 32]),
    };
    assert!(!e.is_fatal());
}

#[test]
fn provider_failure_scenario() {
    let e = BlockExecutionError::ProviderError;
    assert_eq!(e.render(), "Provider error");
    assert!(!e.is_fatal());
}

#[test]
fn test_sentinel_is_never_fatal() {
    assert!(!BlockExecutionError::UnavailableForTest.is_fatal());
}

#[test]
fn clone_keeps_classification() {
    for e in &one_of_each() {
        let copy = e.clone();
        assert_eq!(copy.is_fatal(), e.is_fatal());
    }
}

#[test]
fn rendering_never_fails_on_any_variant() {
    for e in &one_of_each() {
        assert!(!e.render().is_empty());
    }
}
