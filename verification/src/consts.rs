use vstd::prelude::*;

verus! {

/// Samples per second of every signal in the graph.
pub const SAMPLE_RATE: u64 = 44100;

/// Number of samples a node produces per pull; one Clock tick spans
/// exactly this many sample times.
pub const CHUNK_SIZE: usize = 128;

/// Sentinel meaning "never": a cache stamped with this time is stale for
/// every reachable Clock value, and an event source stamped with it has
/// not been queried yet.
pub const TIME_INFINITY: u64 = 0xffff_ffff_ffff_ffff;

} // verus!
