//! The error taxonomy of the block-execution pipeline: every failure that
//! can arise while validating, executing, and committing a block, as one
//! closed set of variants, together with the fatality classifier that
//! decides whether the owning pipeline must halt.

use crate::primitives::{BlockHash, BlockNumHash, BlockNumber, Bloom, Hash256};
use crate::primitives::{hex_text, num_hash_text};
use crate::text::{decimal_of, push_decimal, push_quoted, quoted};
use vstd::prelude::*;
use vstd::string::StringExecFns;

verus! {

/// A failure of the block-execution pipeline.
///
/// Exactly one variant is active per value; every embedded identifier is
/// opaque, caller-supplied context that the taxonomy stores, compares, and
/// renders, but never interprets. The set of variants is closed: callers
/// match exhaustively.
#[derive(Debug)]
pub enum BlockExecutionError {
    /// The EVM rejected a transaction of the block.
    EVM { hash: Hash256, message: String },
    /// The sender of a transaction could not be recovered.
    SenderRecoveryError,
    /// The computed receipt root disagrees with the header.
    ReceiptRootDiff { got: Hash256, expected: Hash256 },
    /// The computed log bloom filter disagrees with the header.
    BloomLogDiff { got: Bloom, expected: Bloom },
    /// A transaction's gas limit exceeds the gas left in the block.
    TransactionGasLimitMoreThenAvailableBlockGas {
        transaction_gas_limit: u64,
        block_available_gas: u64,
    },
    /// The gas used by the block disagrees with the header.
    BlockGasUsed { got: u64, expected: u64 },
    /// The backing state provider could not answer a query.
    ProviderError,
    /// A side-chain id is unknown to the chain tree.
    BlockSideChainIdConsistency { chain_id: u64 },
    /// A chain cannot be appended because it does not connect at the fork
    /// point.
    AppendChainDoesntConnect { chain_tip: BlockNumHash, other_chain_fork: BlockNumHash },
    /// A canonical chain header is missing.
    CanonicalChain { block_hash: BlockHash },
    /// A block cannot be inserted below the last finalized block.
    PendingBlockIsFinalized {
        block_hash: BlockHash,
        block_number: BlockNumber,
        last_finalized: BlockNumber,
    },
    /// A block number is not present in the chain tree.
    BlockNumberNotFoundInChain { block_number: BlockNumber },
    /// A block hash is not present in the chain tree.
    BlockHashNotFoundInChain { block_hash: BlockHash },
    /// Rolling back a state transaction failed.
    CanonicalRevert { inner: String },
    /// Committing a state transaction failed.
    CanonicalCommit { inner: String },
    /// The block predates the merge consensus transition.
    BlockPreMerge { hash: Hash256 },
    /// The total difficulty of a block is missing.
    MissingTotalDifficulty { hash: Hash256 },
    /// Sentinel used only by non-production executor stand-ins.
    UnavailableForTest,
}

impl BlockExecutionError {
    /// Holds exactly on the two transactional outcomes, after which the
    /// underlying state store may be left in an indeterminate condition.
    pub open spec fn spec_is_fatal(self) -> bool {
        self is CanonicalCommit || self is CanonicalRevert
    }

    /// Returns `true` if the error is fatal: true exactly on commit and
    /// revert failures, false on every other variant.
    pub fn is_fatal(&self) -> (r: bool)
        ensures
            r == self.spec_is_fatal(),
    {
        matches!(
            self,
            BlockExecutionError::CanonicalCommit { .. } | BlockExecutionError::CanonicalRevert { .. }
        )
    }

    /// The exact diagnostic text of each variant: a fixed template with
    /// the embedded fields interpolated (hashes and blooms in hexadecimal,
    /// numbers in decimal, inner diagnostics quoted).
    pub open spec fn render_spec(self) -> Seq<char> {
        match self {
            BlockExecutionError::EVM { hash, message } => "EVM reported invalid transaction ("@
                + hex_text(hash@) + "): "@ + message@,
            BlockExecutionError::SenderRecoveryError => "Failed to recover sender for transaction"@,
            BlockExecutionError::ReceiptRootDiff { got, expected } => "Receipt root "@ + hex_text(
                got@,
            ) + " is different than expected "@ + hex_text(expected@) + "."@,
            BlockExecutionError::BloomLogDiff { got, expected } => "Header bloom filter "@
                + hex_text(got@) + " is different than expected "@ + hex_text(expected@) + "."@,
            BlockExecutionError::TransactionGasLimitMoreThenAvailableBlockGas {
                transaction_gas_limit,
                block_available_gas,
            } => "Transaction gas limit "@ + decimal_of(transaction_gas_limit as nat)
                + " is more than blocks available gas "@ + decimal_of(block_available_gas as nat),
            BlockExecutionError::BlockGasUsed { got, expected } => "Block gas used "@ + decimal_of(
                got as nat,
            ) + " is different from expected gas used "@ + decimal_of(expected as nat) + "."@,
            BlockExecutionError::ProviderError => "Provider error"@,
            BlockExecutionError::BlockSideChainIdConsistency { chain_id } =>
                "BlockChainId can't be found in BlockchainTree with internal index "@ + decimal_of(
                chain_id as nat,
            ),
            BlockExecutionError::AppendChainDoesntConnect { chain_tip, other_chain_fork } =>
                "Appending chain on fork (other_chain_fork:?) is not possible as the tip is "@
                + num_hash_text(chain_tip.number, chain_tip.hash@),
            BlockExecutionError::CanonicalChain { block_hash } => "Canonical chain header #"@
                + hex_text(block_hash@) + " can't be found "@,
            BlockExecutionError::PendingBlockIsFinalized {
                block_hash,
                block_number,
                last_finalized,
            } => "Can't insert #"@ + decimal_of(block_number as nat) + " "@ + hex_text(block_hash@)
                + " as last finalized block number is "@ + decimal_of(last_finalized as nat),
            BlockExecutionError::BlockNumberNotFoundInChain { block_number } => "Block number #"@
                + decimal_of(block_number as nat) + " not found in blockchain tree chain"@,
            BlockExecutionError::BlockHashNotFoundInChain { block_hash } => "Block hash "@
                + hex_text(block_hash@) + " not found in blockchain tree chain"@,
            BlockExecutionError::CanonicalRevert { inner } => "Transaction error on revert: "@
                + quoted(inner@),
            BlockExecutionError::CanonicalCommit { inner } => "Transaction error on commit: "@
                + quoted(inner@),
            BlockExecutionError::BlockPreMerge { hash } => "Block "@ + hex_text(hash@)
                + " is pre merge"@,
            BlockExecutionError::MissingTotalDifficulty { hash } => "Missing total difficulty"@,
            BlockExecutionError::UnavailableForTest => "Execution unavailable for tests"@,
        }
    }

    /// Renders the human-readable diagnostic for this error. Rendering is
    /// total and deterministic: the result is exactly the variant's
    /// template with the embedded fields substituted.
    pub fn render(&self) -> (r: String)
        ensures
            r@ == self.render_spec(),
    {
        match self {
            BlockExecutionError::EVM { hash, message } => {
                let mut out = "EVM reported invalid transaction (".to_owned();
                hash.push_text(&mut out);
                out.append("): ");
                out.append(message.as_str());
                out
            },
            BlockExecutionError::SenderRecoveryError => {
                "Failed to recover sender for transaction".to_owned()
            },
            BlockExecutionError::ReceiptRootDiff { got, expected } => {
                let mut out = "Receipt root ".to_owned();
                got.push_text(&mut out);
                out.append(" is different than expected ");
                expected.push_text(&mut out);
                out.append(".");
                out
            },
            BlockExecutionError::BloomLogDiff { got, expected } => {
                let mut out = "Header bloom filter ".to_owned();
                got.push_text(&mut out);
                out.append(" is different than expected ");
                expected.push_text(&mut out);
                out.append(".");
                out
            },
            BlockExecutionError::TransactionGasLimitMoreThenAvailableBlockGas {
                transaction_gas_limit,
                block_available_gas,
            } => {
                let mut out = "Transaction gas limit ".to_owned();
                push_decimal(&mut out, *transaction_gas_limit);
                out.append(" is more than blocks available gas ");
                push_decimal(&mut out, *block_available_gas);
                out
            },
            BlockExecutionError::BlockGasUsed { got, expected } => {
                let mut out = "Block gas used ".to_owned();
                push_decimal(&mut out, *got);
                out.append(" is different from expected gas used ");
                push_decimal(&mut out, *expected);
                out.append(".");
                out
            },
            BlockExecutionError::ProviderError => { "Provider error".to_owned() },
            BlockExecutionError::BlockSideChainIdConsistency { chain_id } => {
                let mut out =
                    "BlockChainId can't be found in BlockchainTree with internal index ".to_owned();
                push_decimal(&mut out, *chain_id);
                out
            },
            BlockExecutionError::AppendChainDoesntConnect { chain_tip, other_chain_fork } => {
                let mut out =
                    "Appending chain on fork (other_chain_fork:?) is not possible as the tip is ".to_owned();
                chain_tip.push_text(&mut out);
                out
            },
            BlockExecutionError::CanonicalChain { block_hash } => {
                let mut out = "Canonical chain header #".to_owned();
                block_hash.push_text(&mut out);
                out.append(" can't be found ");
                out
            },
            BlockExecutionError::PendingBlockIsFinalized {
                block_hash,
                block_number,
                last_finalized,
            } => {
                let mut out = "Can't insert #".to_owned();
                push_decimal(&mut out, *block_number);
                out.append(" ");
                block_hash.push_text(&mut out);
                out.append(" as last finalized block number is ");
                push_decimal(&mut out, *last_finalized);
                out
            },
            BlockExecutionError::BlockNumberNotFoundInChain { block_number } => {
                let mut out = "Block number #".to_owned();
                push_decimal(&mut out, *block_number);
                out.append(" not found in blockchain tree chain");
                out
            },
            BlockExecutionError::BlockHashNotFoundInChain { block_hash } => {
                let mut out = "Block hash ".to_owned();
                block_hash.push_text(&mut out);
                out.append(" not found in blockchain tree chain");
                out
            },
            BlockExecutionError::CanonicalRevert { inner } => {
                let mut out = "Transaction error on revert: ".to_owned();
                push_quoted(&mut out, inner.as_str());
                out
            },
            BlockExecutionError::CanonicalCommit { inner } => {
                let mut out = "Transaction error on commit: ".to_owned();
                push_quoted(&mut out, inner.as_str());
                out
            },
            BlockExecutionError::BlockPreMerge { hash } => {
                let mut out = "Block ".to_owned();
                hash.push_text(&mut out);
                out.append(" is pre merge");
                out
            },
            BlockExecutionError::MissingTotalDifficulty { hash } => {
                "Missing total difficulty".to_owned()
            },
            BlockExecutionError::UnavailableForTest => {
                "Execution unavailable for tests".to_owned()
            },
        }
    }
}

impl BlockExecutionError {
    /// Structural equality: two errors are equal exactly when they carry
    /// the same variant tag and identical field values.
    pub open spec fn spec_eq(self, other: Self) -> bool {
        match (self, other) {
            (
                BlockExecutionError::EVM { hash: h1, message: m1 },
                BlockExecutionError::EVM { hash: h2, message: m2 },
            ) => h1@ == h2@ && m1@ == m2@,
            (
                BlockExecutionError::SenderRecoveryError,
                BlockExecutionError::SenderRecoveryError,
            ) => true,
            (
                BlockExecutionError::ReceiptRootDiff { got: g1, expected: e1 },
                BlockExecutionError::ReceiptRootDiff { got: g2, expected: e2 },
            ) => g1@ == g2@ && e1@ == e2@,
            (
                BlockExecutionError::BloomLogDiff { got: g1, expected: e1 },
                BlockExecutionError::BloomLogDiff { got: g2, expected: e2 },
            ) => g1@ == g2@ && e1@ == e2@,
            (
                BlockExecutionError::TransactionGasLimitMoreThenAvailableBlockGas {
                    transaction_gas_limit: t1,
                    block_available_gas: b1,
                },
                BlockExecutionError::TransactionGasLimitMoreThenAvailableBlockGas {
                    transaction_gas_limit: t2,
                    block_available_gas: b2,
                },
            ) => t1 == t2 && b1 == b2,
            (
                BlockExecutionError::BlockGasUsed { got: g1, expected: e1 },
                BlockExecutionError::BlockGasUsed { got: g2, expected: e2 },
            ) => g1 == g2 && e1 == e2,
            (BlockExecutionError::ProviderError, BlockExecutionError::ProviderError) => true,
            (
                BlockExecutionError::BlockSideChainIdConsistency { chain_id: c1 },
                BlockExecutionError::BlockSideChainIdConsistency { chain_id: c2 },
            ) => c1 == c2,
            (
                BlockExecutionError::AppendChainDoesntConnect {
                    chain_tip: t1,
                    other_chain_fork: f1,
                },
                BlockExecutionError::AppendChainDoesntConnect {
                    chain_tip: t2,
                    other_chain_fork: f2,
                },
            ) => t1.spec_eq(&t2) && f1.spec_eq(&f2),
            (
                BlockExecutionError::CanonicalChain { block_hash: h1 },
                BlockExecutionError::CanonicalChain { block_hash: h2 },
            ) => h1@ == h2@,
            (
                BlockExecutionError::PendingBlockIsFinalized {
                    block_hash: h1,
                    block_number: n1,
                    last_finalized: l1,
                },
                BlockExecutionError::PendingBlockIsFinalized {
                    block_hash: h2,
                    block_number: n2,
                    last_finalized: l2,
                },
            ) => h1@ == h2@ && n1 == n2 && l1 == l2,
            (
                BlockExecutionError::BlockNumberNotFoundInChain { block_number: n1 },
                BlockExecutionError::BlockNumberNotFoundInChain { block_number: n2 },
            ) => n1 == n2,
            (
                BlockExecutionError::BlockHashNotFoundInChain { block_hash: h1 },
                BlockExecutionError::BlockHashNotFoundInChain { block_hash: h2 },
            ) => h1@ == h2@,
            (
                BlockExecutionError::CanonicalRevert { inner: i1 },
                BlockExecutionError::CanonicalRevert { inner: i2 },
            ) => i1@ == i2@,
            (
                BlockExecutionError::CanonicalCommit { inner: i1 },
                BlockExecutionError::CanonicalCommit { inner: i2 },
            ) => i1@ == i2@,
            (
                BlockExecutionError::BlockPreMerge { hash: h1 },
                BlockExecutionError::BlockPreMerge { hash: h2 },
            ) => h1@ == h2@,
            (
                BlockExecutionError::MissingTotalDifficulty { hash: h1 },
                BlockExecutionError::MissingTotalDifficulty { hash: h2 },
            ) => h1@ == h2@,
            (
                BlockExecutionError::UnavailableForTest,
                BlockExecutionError::UnavailableForTest,
            ) => true,
            _ => false,
        }
    }

    /// A distinct index for each variant tag, used to state that equal
    /// errors carry the same tag.
    pub open spec fn variant_tag(self) -> int {
        match self {
            BlockExecutionError::EVM { .. } => 0,
            BlockExecutionError::SenderRecoveryError => 1,
            BlockExecutionError::ReceiptRootDiff { .. } => 2,
            BlockExecutionError::BloomLogDiff { .. } => 3,
            BlockExecutionError::TransactionGasLimitMoreThenAvailableBlockGas { .. } => 4,
            BlockExecutionError::BlockGasUsed { .. } => 5,
            BlockExecutionError::ProviderError => 6,
            BlockExecutionError::BlockSideChainIdConsistency { .. } => 7,
            BlockExecutionError::AppendChainDoesntConnect { .. } => 8,
            BlockExecutionError::CanonicalChain { .. } => 9,
            BlockExecutionError::PendingBlockIsFinalized { .. } => 10,
            BlockExecutionError::BlockNumberNotFoundInChain { .. } => 11,
            BlockExecutionError::BlockHashNotFoundInChain { .. } => 12,
            BlockExecutionError::CanonicalRevert { .. } => 13,
            BlockExecutionError::CanonicalCommit { .. } => 14,
            BlockExecutionError::BlockPreMerge { .. } => 15,
            BlockExecutionError::MissingTotalDifficulty { .. } => 16,
            BlockExecutionError::UnavailableForTest => 17,
        }
    }
}

impl PartialEq for BlockExecutionError {
    fn eq(&self, other: &Self) -> (r: bool) {
        match (self, other) {
            (
                BlockExecutionError::EVM { hash: h1, message: m1 },
                BlockExecutionError::EVM { hash: h2, message: m2 },
            ) => *h1 == *h2 && *m1 == *m2,
            (
                BlockExecutionError::SenderRecoveryError,
                BlockExecutionError::SenderRecoveryError,
            ) => true,
            (
                BlockExecutionError::ReceiptRootDiff { got: g1, expected: e1 },
                BlockExecutionError::ReceiptRootDiff { got: g2, expected: e2 },
            ) => *g1 == *g2 && *e1 == *e2,
            (
                BlockExecutionError::BloomLogDiff { got: g1, expected: e1 },
                BlockExecutionError::BloomLogDiff { got: g2, expected: e2 },
            ) => *g1 == *g2 && *e1 == *e2,
            (
                BlockExecutionError::TransactionGasLimitMoreThenAvailableBlockGas {
                    transaction_gas_limit: t1,
                    block_available_gas: b1,
                },
                BlockExecutionError::TransactionGasLimitMoreThenAvailableBlockGas {
                    transaction_gas_limit: t2,
                    block_available_gas: b2,
                },
            ) => *t1 == *t2 && *b1 == *b2,
            (
                BlockExecutionError::BlockGasUsed { got: g1, expected: e1 },
                BlockExecutionError::BlockGasUsed { got: g2, expected: e2 },
            ) => *g1 == *g2 && *e1 == *e2,
            (BlockExecutionError::ProviderError, BlockExecutionError::ProviderError) => true,
            (
                BlockExecutionError::BlockSideChainIdConsistency { chain_id: c1 },
                BlockExecutionError::BlockSideChainIdConsistency { chain_id: c2 },
            ) => *c1 == *c2,
            (
                BlockExecutionError::AppendChainDoesntConnect {
                    chain_tip: t1,
                    other_chain_fork: f1,
                },
                BlockExecutionError::AppendChainDoesntConnect {
                    chain_tip: t2,
                    other_chain_fork: f2,
                },
            ) => *t1 == *t2 && *f1 == *f2,
            (
                BlockExecutionError::CanonicalChain { block_hash: h1 },
                BlockExecutionError::CanonicalChain { block_hash: h2 },
            ) => *h1 == *h2,
            (
                BlockExecutionError::PendingBlockIsFinalized {
                    block_hash: h1,
                    block_number: n1,
                    last_finalized: l1,
                },
                BlockExecutionError::PendingBlockIsFinalized {
                    block_hash: h2,
                    block_number: n2,
                    last_finalized: l2,
                },
            ) => *h1 == *h2 && *n1 == *n2 && *l1 == *l2,
            (
                BlockExecutionError::BlockNumberNotFoundInChain { block_number: n1 },
                BlockExecutionError::BlockNumberNotFoundInChain { block_number: n2 },
            ) => *n1 == *n2,
            (
                BlockExecutionError::BlockHashNotFoundInChain { block_hash: h1 },
                BlockExecutionError::BlockHashNotFoundInChain { block_hash: h2 },
            ) => *h1 == *h2,
            (
                BlockExecutionError::CanonicalRevert { inner: i1 },
                BlockExecutionError::CanonicalRevert { inner: i2 },
            ) => *i1 == *i2,
            (
                BlockExecutionError::CanonicalCommit { inner: i1 },
                BlockExecutionError::CanonicalCommit { inner: i2 },
            ) => *i1 == *i2,
            (
                BlockExecutionError::BlockPreMerge { hash: h1 },
                BlockExecutionError::BlockPreMerge { hash: h2 },
            ) => *h1 == *h2,
            (
                BlockExecutionError::MissingTotalDifficulty { hash: h1 },
                BlockExecutionError::MissingTotalDifficulty { hash: h2 },
            ) => *h1 == *h2,
            (
                BlockExecutionError::UnavailableForTest,
                BlockExecutionError::UnavailableForTest,
            ) => true,
            _ => false,
        }
    }
}

impl Eq for BlockExecutionError {

}

impl vstd::std_specs::cmp::PartialEqSpecImpl for BlockExecutionError {
    open spec fn obeys_eq_spec() -> bool {
        true
    }

    open spec fn eq_spec(&self, other: &Self) -> bool {
        self.spec_eq(*other)
    }
}

impl Clone for BlockExecutionError {
    /// Cloning yields a value structurally equal to the original.
    fn clone(&self) -> (r: Self)
        ensures
            r.spec_eq(*self),
    {
        match self {
            BlockExecutionError::EVM { hash, message } => BlockExecutionError::EVM {
                hash: *hash,
                message: message.clone(),
            },
            BlockExecutionError::SenderRecoveryError => BlockExecutionError::SenderRecoveryError,
            BlockExecutionError::ReceiptRootDiff { got, expected } =>
                BlockExecutionError::ReceiptRootDiff { got: *got, expected: *expected },
            BlockExecutionError::BloomLogDiff { got, expected } =>
                BlockExecutionError::BloomLogDiff { got: *got, expected: *expected },
            BlockExecutionError::TransactionGasLimitMoreThenAvailableBlockGas {
                transaction_gas_limit,
                block_available_gas,
            } => BlockExecutionError::TransactionGasLimitMoreThenAvailableBlockGas {
                transaction_gas_limit: *transaction_gas_limit,
                block_available_gas: *block_available_gas,
            },
            BlockExecutionError::BlockGasUsed { got, expected } =>
                BlockExecutionError::BlockGasUsed { got: *got, expected: *expected },
            BlockExecutionError::ProviderError => BlockExecutionError::ProviderError,
            BlockExecutionError::BlockSideChainIdConsistency { chain_id } =>
                BlockExecutionError::BlockSideChainIdConsistency { chain_id: *chain_id },
            BlockExecutionError::AppendChainDoesntConnect { chain_tip, other_chain_fork } =>
                BlockExecutionError::AppendChainDoesntConnect {
                    chain_tip: *chain_tip,
                    other_chain_fork: *other_chain_fork,
                },
            BlockExecutionError::CanonicalChain { block_hash } =>
                BlockExecutionError::CanonicalChain { block_hash: *block_hash },
            BlockExecutionError::PendingBlockIsFinalized {
                block_hash,
                block_number,
                last_finalized,
            } => BlockExecutionError::PendingBlockIsFinalized {
                block_hash: *block_hash,
                block_number: *block_number,
                last_finalized: *last_finalized,
            },
            BlockExecutionError::BlockNumberNotFoundInChain { block_number } =>
                BlockExecutionError::BlockNumberNotFoundInChain { block_number: *block_number },
            BlockExecutionError::BlockHashNotFoundInChain { block_hash } =>
                BlockExecutionError::BlockHashNotFoundInChain { block_hash: *block_hash },
            BlockExecutionError::CanonicalRevert { inner } => BlockExecutionError::CanonicalRevert {
                inner: inner.clone(),
            },
            BlockExecutionError::CanonicalCommit { inner } => BlockExecutionError::CanonicalCommit {
                inner: inner.clone(),
            },
            BlockExecutionError::BlockPreMerge { hash } => BlockExecutionError::BlockPreMerge {
                hash: *hash,
            },
            BlockExecutionError::MissingTotalDifficulty { hash } =>
                BlockExecutionError::MissingTotalDifficulty { hash: *hash },
            BlockExecutionError::UnavailableForTest => BlockExecutionError::UnavailableForTest,
        }
    }
}

/// Structural equality is reflexive.
pub proof fn lemma_eq_reflexive(e: BlockExecutionError)
    ensures
        e.spec_eq(e),
{
}

/// Structural equality is symmetric.
pub proof fn lemma_eq_symmetric(a: BlockExecutionError, b: BlockExecutionError)
    ensures
        a.spec_eq(b) == b.spec_eq(a),
{
}

/// Structural equality is transitive.
pub proof fn lemma_eq_transitive(
    a: BlockExecutionError,
    b: BlockExecutionError,
    c: BlockExecutionError,
)
    requires
        a.spec_eq(b),
        b.spec_eq(c),
    ensures
        a.spec_eq(c),
{
}

/// Structural equality discriminates variant tags: equal errors carry the
/// same variant, so errors of different variants are never equal, whatever
/// their field values.
pub proof fn lemma_eq_discriminates(a: BlockExecutionError, b: BlockExecutionError)
    requires
        a.spec_eq(b),
    ensures
        a.variant_tag() == b.variant_tag(),
{
}

/// Equal errors are classified alike: the fatality flag depends only on
/// the value, so a copy of an error is fatal exactly when the original is.
pub proof fn lemma_eq_same_classification(a: BlockExecutionError, b: BlockExecutionError)
    requires
        a.spec_eq(b),
    ensures
        a.spec_is_fatal() == b.spec_is_fatal(),
{
}

/// Equal errors render the same diagnostic text.
pub proof fn lemma_eq_same_rendering(a: BlockExecutionError, b: BlockExecutionError)
    requires
        a.spec_eq(b),
    ensures
        a.render_spec() == b.render_spec(),
{
}

} // verus!
