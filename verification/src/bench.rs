//! Pure planning pieces of the offline gas-measurement harness: the
//! synthetic account naming scheme and the transaction-count arithmetic.
//! The harness's clock reading and block execution live outside the
//! crate; nothing here touches them.

use vstd::prelude::*;
use vstd::string::*;
use crate::decimal::{spec_decimal, u64_to_decimal};

verus! {

/// How the harness counts cost.
#[derive(Debug, Clone, Copy, PartialEq, Eq, Structural)]
pub enum GasMetric {
    /// Executed instructions, read from a simulator.
    ICount,
    /// Elapsed wall-clock time.
    Time,
}

/// The wasm runtime the harness drives.
#[derive(Debug, Clone, Copy, PartialEq, Eq, Structural)]
pub enum VmKind {
    Wasmer,
    Wasmtime,
}

/// Configuration which the harness uses to run measurements.
#[derive(Debug, Clone, PartialEq, Eq)]
pub struct Config {
    /// How many warm up iterations per block should be run.
    pub warmup_iters_per_block: usize,
    /// How many iterations per block are going to be tried.
    pub iter_per_block: usize,
    /// Total active accounts.
    pub active_accounts: usize,
    /// Number of the transactions in the block.
    pub block_sizes: Vec<usize>,
    /// Where the state dump is located in case a testbed must be created.
    pub state_dump_path: String,
    /// Metric used for counting.
    pub metric: GasMetric,
    /// The runtime driven.
    pub vm_kind: VmKind,
    /// Whether to skip measuring action creation.
    pub disable_measure_action_creation: bool,
    /// Whether to skip measuring plain transaction cost.
    pub disable_measure_transaction: bool,
}

/// The synthetic account name of an index.
pub open spec fn spec_account_id_text(i: int) -> Seq<char> {
    "near_"@ + spec_decimal(i) + "_"@ + spec_decimal(i)
}

/// Get account id from its index.
pub fn get_account_id(account_index: usize) -> (r: String)
    ensures
        r@ == spec_account_id_text(account_index as int),
{
    let digits = u64_to_decimal(account_index as u64);
    let mut s = String::from_str("near_");
    s.append(digits.as_str());
    s.append("_");
    s.append(digits.as_str());
    proof {
        assert(s@ =~= spec_account_id_text(account_index as int));
    }
    s
}

/// The sum of a sequence of sizes.
pub open spec fn spec_sum(s: Seq<usize>) -> int
    decreases s.len(),
{
    if s.len() == 0 {
        0
    } else {
        s[0] + spec_sum(s.drop_first())
    }
}

/// A sum of sizes is at least each of its suffixes' heads.
proof fn lemma_sum_nonneg(s: Seq<usize>)
    ensures
        spec_sum(s) >= 0,
    decreases s.len(),
{
    if s.len() > 0 {
        lemma_sum_nonneg(s.drop_first());
    }
}

/// Sums the block sizes.
fn sum_block_sizes(sizes: &Vec<usize>) -> (r: usize)
    requires
        spec_sum(sizes@) <= usize::MAX,
    ensures
        r == spec_sum(sizes@),
{
    let mut acc: usize = 0;
    let mut i: usize = 0;
    proof {
        assert(sizes@.skip(0) =~= sizes@);
        lemma_sum_nonneg(sizes@);
    }
    while i < sizes.len()
        invariant
            i <= sizes@.len(),
            spec_sum(sizes@) == acc + spec_sum(sizes@.skip(i as int)),
            spec_sum(sizes@) <= usize::MAX,
            acc <= spec_sum(sizes@),
        decreases sizes@.len() - i,
    {
        proof {
            assert(sizes@.skip(i as int)[0] == sizes@[i as int]);
            assert(sizes@.skip(i as int).drop_first() =~= sizes@.skip(i as int + 1));
            lemma_sum_nonneg(sizes@.skip(i as int + 1));
        }
        acc = acc + sizes[i];
        i = i + 1;
    }
    acc
}

/// Total number of transactions that the measurement run must prepare.
pub fn total_transactions(config: &Config) -> (r: usize)
    requires
        spec_sum(config.block_sizes@) <= usize::MAX,
        spec_sum(config.block_sizes@) * config.iter_per_block <= usize::MAX,
    ensures
        r == spec_sum(config.block_sizes@) * config.iter_per_block,
{
    let sum = sum_block_sizes(&config.block_sizes);
    sum * config.iter_per_block
}

/// Number of transactions the warm-up phase must prepare.
pub fn warmup_total_transactions(config: &Config) -> (r: usize)
    requires
        spec_sum(config.block_sizes@) <= usize::MAX,
        spec_sum(config.block_sizes@) * config.warmup_iters_per_block <= usize::MAX,
    ensures
        r == spec_sum(config.block_sizes@) * config.warmup_iters_per_block,
{
    let sum = sum_block_sizes(&config.block_sizes);
    sum * config.warmup_iters_per_block
}

} // verus!
