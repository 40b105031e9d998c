//! # Adaptive Stream Controller
//!
//! Adjusts transfer parameters from the network condition:
//!
//! | Condition         | Action                          |
//! |-------------------|---------------------------------|
//! | Throughput ↑      | Increase stream count           |
//! | Packet loss ↑     | Reduce stream count             |
//! | Latency ↑         | Reduce chunk size               |
//! | CPU usage high    | Reduce parallel operations      |
//! | Network excellent | Maximize all parameters         |
//!
//! The application samples the monitor every `EVALUATION_INTERVAL_MS` and
//! hands the condition, whether throughput is rising and whether the CPU is
//! saturated to [`AdaptiveStreamController::evaluate_and_adjust`].

use vstd::prelude::*;

use crate::optimizer::network_monitor::NetworkCondition;

verus! {

/// Minimum number of parallel streams.
pub const MIN_STREAMS: u32 = 2;

/// Maximum number of parallel streams.
pub const MAX_STREAMS: u32 = 32;

/// Default number of parallel streams.
pub const DEFAULT_STREAMS: u32 = 8;

/// Minimum chunk size (1 MB).
pub const MIN_CHUNK_SIZE: u64 = 1048576;

/// Maximum chunk size (32 MB).
pub const MAX_CHUNK_SIZE: u64 = 33554432;

/// Default chunk size (8 MB).
pub const DEFAULT_CHUNK_SIZE: u64 = 8388608;

/// Chunk size used on a good network (16 MB).
pub const GOOD_CHUNK_SIZE: u64 = 16777216;

/// Chunk size used on a poor network (4 MB).
pub const POOR_CHUNK_SIZE: u64 = 4194304;

/// How often parameters are re-evaluated (milliseconds).
pub const EVALUATION_INTERVAL_MS: u64 = 2000;

/// Current recommended transfer parameters.
#[derive(Debug)]
pub struct TransferParams {
    /// Number of parallel QUIC streams to use.
    pub stream_count: u32,
    /// Chunk size in bytes.
    pub chunk_size: u64,
    /// Whether to enable compression.
    pub compression_enabled: bool,
    /// Which compression algorithm to use ("lz4" or "zstd").
    pub compression_algo: String,
}

impl Default for TransferParams {
    /// Eight streams of 8 MB chunks, compressed with LZ4.
    fn default() -> (p: Self)
        ensures
            p.stream_count == DEFAULT_STREAMS,
            p.chunk_size == DEFAULT_CHUNK_SIZE,
            p.compression_enabled,
            p.compression_algo@ == "lz4"@,
    {
        TransferParams {
            stream_count: DEFAULT_STREAMS,
            chunk_size: DEFAULT_CHUNK_SIZE,
            compression_enabled: true,
            compression_algo: String::from_str("lz4"),
        }
    }
}

impl TransferParams {
    /// A field-by-field copy.
    pub fn duplicate(&self) -> (r: Self)
        ensures
            r == *self,
    {
        TransferParams {
            stream_count: self.stream_count,
            chunk_size: self.chunk_size,
            compression_enabled: self.compression_enabled,
            compression_algo: self.compression_algo.clone(),
        }
    }
}

/// The stream count for a condition, before the CPU rule.
pub open spec fn streams_for_condition(count: int, condition: NetworkCondition, rising: bool) -> int {
    match condition {
        NetworkCondition::Excellent => if count + 2 < MAX_STREAMS {
            count + 2
        } else {
            MAX_STREAMS as int
        },
        NetworkCondition::Good => if rising {
            if count + 1 < MAX_STREAMS {
                count + 1
            } else {
                MAX_STREAMS as int
            }
        } else {
            count
        },
        NetworkCondition::Fair => DEFAULT_STREAMS as int,
        NetworkCondition::Poor => if count - 2 > MIN_STREAMS {
            count - 2
        } else {
            MIN_STREAMS as int
        },
        NetworkCondition::Critical => MIN_STREAMS as int,
    }
}

/// The stream count after an evaluation: the condition's rule, then, when
/// the CPU is saturated, half of that but never below `MIN_STREAMS`.
pub open spec fn streams_after(count: int, condition: NetworkCondition, rising: bool, cpu_saturated: bool) -> int {
    let c = streams_for_condition(count, condition, rising);
    if cpu_saturated {
        if c / 2 > MIN_STREAMS {
            c / 2
        } else {
            MIN_STREAMS as int
        }
    } else {
        c
    }
}

/// The chunk size after an evaluation.
pub open spec fn chunk_size_after(size: u64, condition: NetworkCondition) -> u64 {
    match condition {
        NetworkCondition::Excellent => MAX_CHUNK_SIZE,
        NetworkCondition::Good => GOOD_CHUNK_SIZE,
        NetworkCondition::Fair => DEFAULT_CHUNK_SIZE,
        NetworkCondition::Poor => POOR_CHUNK_SIZE,
        NetworkCondition::Critical => MIN_CHUNK_SIZE,
    }
}

/// The compression algorithm after an evaluation: LZ4 on an excellent
/// network, Zstandard on fair or worse, unchanged on a good one.
pub open spec fn algo_after(algo: Seq<char>, condition: NetworkCondition) -> Seq<char> {
    match condition {
        NetworkCondition::Excellent => "lz4"@,
        NetworkCondition::Good => algo,
        _ => "zstd"@,
    }
}

/// Tunes transfer parameters from successive network evaluations.
pub struct AdaptiveStreamController {
    current_params: TransferParams,
    last_condition: NetworkCondition,
}

impl AdaptiveStreamController {
    #[verifier::type_invariant]
    spec fn streams_in_range(&self) -> bool {
        MIN_STREAMS <= self.current_params.stream_count <= MAX_STREAMS
    }

    /// The parameters currently recommended.
    pub closed spec fn params(&self) -> TransferParams {
        self.current_params
    }

    /// The condition seen at the last evaluation.
    pub closed spec fn condition(&self) -> NetworkCondition {
        self.last_condition
    }

    /// A controller with the default parameters, assuming a good network.
    pub fn new() -> (c: Self)
        ensures
            c.params().stream_count == DEFAULT_STREAMS,
            c.params().chunk_size == DEFAULT_CHUNK_SIZE,
            c.params().compression_enabled,
            c.params().compression_algo@ == "lz4"@,
            c.condition() == NetworkCondition::Good,
    {
        AdaptiveStreamController {
            current_params: TransferParams::default(),
            last_condition: NetworkCondition::Good,
        }
    }

    /// A copy of the current parameters.
    pub fn get_params(&self) -> (p: TransferParams)
        ensures
            p == self.params(),
            MIN_STREAMS <= p.stream_count <= MAX_STREAMS,
    {
        proof {
            use_type_invariant(self);
        }
        self.current_params.duplicate()
    }

    /// Apply the rules for one evaluation: `throughput_rising` is whether
    /// the throughput trend is above 5 %, `cpu_saturated` whether CPU usage
    /// is above 90 %. Returns whether the condition changed since the last
    /// evaluation. Compression stays enabled or disabled as it was.
    pub fn evaluate_and_adjust(
        &mut self,
        condition: NetworkCondition,
        throughput_rising: bool,
        cpu_saturated: bool,
    ) -> (changed: bool)
        ensures
            changed == (condition != old(self).condition()),
            final(self).condition() == condition,
            final(self).params().stream_count == streams_after(
                old(self).params().stream_count as int,
                condition,
                throughput_rising,
                cpu_saturated,
            ),
            final(self).params().chunk_size == chunk_size_after(
                old(self).params().chunk_size,
                condition,
            ),
            final(self).params().compression_algo@ == algo_after(
                old(self).params().compression_algo@,
                condition,
            ),
            final(self).params().compression_enabled == old(self).params().compression_enabled,
            MIN_STREAMS <= final(self).params().stream_count <= MAX_STREAMS,
    {
        proof {
            use_type_invariant(&*self);
        }
        let changed = self.last_condition != condition;
        let count = self.current_params.stream_count;
        let (mut streams, chunk, algo): (u32, u64, Option<&str>) = match condition {
            NetworkCondition::Excellent => {
                let s = if count + 2 < MAX_STREAMS {
                    count + 2
                } else {
                    MAX_STREAMS
                };
                (s, MAX_CHUNK_SIZE, Some("lz4"))
            },
            NetworkCondition::Good => {
                let s = if throughput_rising {
                    if count + 1 < MAX_STREAMS {
                        count + 1
                    } else {
                        MAX_STREAMS
                    }
                } else {
                    count
                };
                (s, GOOD_CHUNK_SIZE, None)
            },
            NetworkCondition::Fair => (DEFAULT_STREAMS, DEFAULT_CHUNK_SIZE, Some("zstd")),
            NetworkCondition::Poor => {
                let s = if count - 2 > MIN_STREAMS {
                    count - 2
                } else {
                    MIN_STREAMS
                };
                (s, POOR_CHUNK_SIZE, Some("zstd"))
            },
            NetworkCondition::Critical => (MIN_STREAMS, MIN_CHUNK_SIZE, Some("zstd")),
        };
        if cpu_saturated {
            streams = if streams / 2 > MIN_STREAMS {
                streams / 2
            } else {
                MIN_STREAMS
            };
        }
        let new_algo = match algo {
            Some(a) => String::from_str(a),
            None => self.current_params.compression_algo.clone(),
        };
        proof {
            reveal_strlit("lz4");
            reveal_strlit("zstd");
        }
        self.current_params = TransferParams {
            stream_count: streams,
            chunk_size: chunk,
            compression_enabled: self.current_params.compression_enabled,
            compression_algo: new_algo,
        };
        self.last_condition = condition;
        changed
    }
}

/// A saturated CPU halves the parallel streams whatever the network: the
/// count chosen under CPU saturation is half the count chosen without it,
/// but never below `MIN_STREAMS`, for every condition, trend and starting
/// count. In particular it never exceeds the count chosen without CPU
/// saturation.
pub proof fn lemma_cpu_saturation_halves_streams(count: int, condition: NetworkCondition, rising: bool)
    requires
        MIN_STREAMS <= count <= MAX_STREAMS,
    ensures
        ({
            let free = streams_after(count, condition, rising, false);
            let busy = streams_after(count, condition, rising, true);
            &&& busy == if free / 2 > MIN_STREAMS {
                free / 2
            } else {
                MIN_STREAMS as int
            }
            &&& busy <= free
            &&& MIN_STREAMS <= busy
        }),
{
}

/// Without CPU saturation the network condition moves the stream count as
/// the table says: an excellent network adds two streams (up to
/// `MAX_STREAMS`), a good one with rising throughput adds one, a good one
/// otherwise keeps the count, a fair one returns to `DEFAULT_STREAMS`, a
/// poor one removes two (down to `MIN_STREAMS`), a critical one drops to
/// `MIN_STREAMS`; the count always stays within `MIN_STREAMS` to
/// `MAX_STREAMS`.
pub proof fn lemma_condition_moves_streams(count: int, condition: NetworkCondition, rising: bool)
    requires
        MIN_STREAMS <= count <= MAX_STREAMS,
    ensures
        ({
            let next = streams_after(count, condition, rising, false);
            &&& MIN_STREAMS <= next <= MAX_STREAMS
            &&& condition == NetworkCondition::Excellent ==> next == if count + 2 <= MAX_STREAMS {
                count + 2
            } else {
                MAX_STREAMS as int
            }
            &&& (condition == NetworkCondition::Good && rising) ==> next == if count + 1
                <= MAX_STREAMS {
                count + 1
            } else {
                MAX_STREAMS as int
            }
            &&& (condition == NetworkCondition::Good && !rising) ==> next == count
            &&& condition == NetworkCondition::Fair ==> next == DEFAULT_STREAMS
            &&& condition == NetworkCondition::Poor ==> next == if count - 2 >= MIN_STREAMS {
                count - 2
            } else {
                MIN_STREAMS as int
            }
            &&& condition == NetworkCondition::Critical ==> next == MIN_STREAMS
        }),
{
}

} // verus!
