//! A pull-based audio synthesis and rendering engine.
//!
//! A directed acyclic graph of audio-processing nodes is pulled once per
//! fixed-size time slice: synthesis leaves (oscillator, envelope,
//! wavetable lookup, one-shot sampler) are fed by time-sorted event
//! sources and composed through mixing and effect nodes into a stereo
//! master, which the render driver pulls forward in time, advancing a
//! shared sample clock.  Samples are 48.16 fixed-point numbers (see
//! `fixed`); decoding and encoding PCM files and driving a live output
//! device are left to the surrounding application.

use vstd::prelude::*;

pub mod clock;
pub mod consts;
pub mod conversions;
pub mod device;
pub mod effects;
pub mod events;
pub mod fixed;
pub mod graph;
pub mod sampler;
pub mod synth;

verus! {

use crate::clock::Clock;
use crate::consts::CHUNK_SIZE;
use crate::events::{EventSource, windows_of};
use crate::graph::{Graph, GraphModel, eval_graph};
use crate::sampler::SamplerEvent;
use crate::synth::NoteEvent;
use vstd::arithmetic::div_mod::lemma_fundamental_div_mod_converse;

/// How many whole chunks cover `length` samples.
pub open spec fn chunks_covering(length: int) -> int {
    (length + CHUNK_SIZE - 1) / (CHUNK_SIZE as int)
}

/// What `k` render steps leave behind: the graph's image, the event
/// sources' images, and the master node's output so far, one whole
/// chunk appended per step.  Each step queries every source at the
/// step's start time, evaluates the arena once, and appends the
/// master's two channels.
pub open spec fn render_chain(
    m: GraphModel,
    notes: Seq<EventSource<NoteEvent>>,
    samps: Seq<EventSource<SamplerEvent>>,
    t0: u64,
    master: int,
    k: nat,
) -> (GraphModel, Seq<EventSource<NoteEvent>>, Seq<EventSource<SamplerEvent>>, Seq<i64>, Seq<i64>)
    decreases k,
{
    if k == 0 {
        (m, notes, samps, Seq::<i64>::empty(), Seq::<i64>::empty())
    } else {
        let prev = render_chain(m, notes, samps, t0, master, (k - 1) as nat);
        let t = (t0 + (k - 1) * CHUNK_SIZE) as u64;
        let notes2 = prev.1.map_values(|s: EventSource<NoteEvent>| s.advanced_image(t));
        let samps2 = prev.2.map_values(|s: EventSource<SamplerEvent>| s.advanced_image(t));
        let ev = eval_graph(
            prev.0,
            windows_of(notes2, t),
            windows_of(samps2, t),
            t,
            prev.0.kinds.len(),
        );
        let m2 = GraphModel {
            kinds: prev.0.kinds,
            lefts: ev.0,
            rights: ev.1,
            states: ev.2,
            ticks: Seq::new(prev.0.kinds.len(), |i: int| t),
        };
        (m2, notes2, samps2, prev.3 + ev.0[master], prev.4 + ev.1[master])
    }
}

/// Renders `length` samples of the master node into a pair of channel
/// buffers.
///
/// The graph is pulled chunk by chunk, each chunk of the master's output
/// is appended to both accumulating channels (which stay the same length
/// throughout), and the Clock advances by one chunk per pull; the final
/// chunk's tail past `length` is discarded, so the returned buffers hold
/// exactly the requested number of samples.
pub fn render_audio(graph: &mut Graph, clock: &mut Clock, master: usize, length: usize) -> (out: (
    Vec<i64>,
    Vec<i64>,
))
    requires
        old(graph).wf(),
        (master as int) < old(graph).node_count(),
        old(graph).synced_to(old(clock).time()),
        old(clock).time() + length + CHUNK_SIZE <= u64::MAX,
    ensures
        out.0@.len() == length,
        out.1@.len() == length,
        final(graph).wf(),
        final(graph).kinds@ == old(graph).kinds@,
        final(clock).time() == old(clock).time() + chunks_covering(length as int) * CHUNK_SIZE,
        final(graph).synced_to(final(clock).time()),
        out.0@ == render_chain(
            old(graph).model(),
            old(graph).note_sources@,
            old(graph).sampler_sources@,
            old(clock).time(),
            master as int,
            chunks_covering(length as int) as nat,
        ).3.take(length as int),
        out.1@ == render_chain(
            old(graph).model(),
            old(graph).note_sources@,
            old(graph).sampler_sources@,
            old(clock).time(),
            master as int,
            chunks_covering(length as int) as nat,
        ).4.take(length as int),
        final(graph).model() == render_chain(
            old(graph).model(),
            old(graph).note_sources@,
            old(graph).sampler_sources@,
            old(clock).time(),
            master as int,
            chunks_covering(length as int) as nat,
        ).0,
    {
        let ghost m_init = old(graph).model();
        let ghost notes_init = old(graph).note_sources@;
        let ghost samps_init = old(graph).sampler_sources@;
        let ghost t0: u64 = old(clock).time();
        let mut left: Vec<i64> = Vec::new();
        let mut right: Vec<i64> = Vec::new();
        while left.len() < length
            invariant
                graph.wf(),
                graph.kinds@ == old(graph).kinds@,
                (master as int) < graph.node_count(),
                left@.len() == right@.len(),
                (left@.len() as int) % (CHUNK_SIZE as int) == 0,
                left@.len() < length + CHUNK_SIZE,
                m_init == old(graph).model(),
                notes_init == old(graph).note_sources@,
                samps_init == old(graph).sampler_sources@,
                t0 == old(clock).time(),
                clock.time() == t0 + left@.len(),
                t0 + length + CHUNK_SIZE <= u64::MAX,
                graph.synced_to(clock.time()),
                ({
                    let k = (left@.len() as int / (CHUNK_SIZE as int)) as nat;
                    let chain = render_chain(m_init, notes_init, samps_init, t0, master as int, k);
                    &&& graph.model() == chain.0
                    &&& graph.note_sources@ == chain.1
                    &&& graph.sampler_sources@ == chain.2
                    &&& left@ == chain.3
                    &&& right@ == chain.4
                }),
            decreases (length + CHUNK_SIZE) - left@.len(),
        {
            let ghost k: nat = (left@.len() as int / (CHUNK_SIZE as int)) as nat;
            let ghost chain_pre = render_chain(m_init, notes_init, samps_init, t0, master as int, k);
            proof {
                assert(left@.len() as int == k * (CHUNK_SIZE as int)) by {
                    assert(left@.len() as int == (CHUNK_SIZE as int) * (left@.len() as int
                        / (CHUNK_SIZE as int)) + (left@.len() as int) % (CHUNK_SIZE as int));
                }
            }
            let time: u64 = clock.time();
            graph.pull(time);
            let master_left = graph.left_output(master);
            let master_right = graph.right_output(master);
            let ghost base_l = left@;
            let ghost base_r = right@;
            let mut j: usize = 0;
            while j < CHUNK_SIZE
                invariant
                    j <= CHUNK_SIZE,
                    master_left@.len() == CHUNK_SIZE,
                    master_right@.len() == CHUNK_SIZE,
                    left@ == base_l + master_left@.subrange(0, j as int),
                    right@ == base_r + master_right@.subrange(0, j as int),
                decreases CHUNK_SIZE - j,
            {
                proof {
                    assert(base_l + master_left@.subrange(0, j + 1) =~= (base_l
                        + master_left@.subrange(0, j as int)).push(master_left@[j as int]));
                    assert(base_r + master_right@.subrange(0, j + 1) =~= (base_r
                        + master_right@.subrange(0, j as int)).push(master_right@[j as int]));
                }
                left.push(master_left[j]);
                right.push(master_right[j]);
                j = j + 1;
            }
            clock.increment();
            proof {
                let c: int = CHUNK_SIZE as int;
                let chain_post = render_chain(
                    m_init,
                    notes_init,
                    samps_init,
                    t0,
                    master as int,
                    (k + 1) as nat,
                );
                assert(master_left@.subrange(0, c) =~= master_left@);
                assert(master_right@.subrange(0, c) =~= master_right@);
                assert((left@.len() as int) / c == k + 1) by {
                    lemma_fundamental_div_mod_converse(
                        left@.len() as int,
                        c,
                        k as int + 1,
                        0,
                    );
                }
                assert(graph.ticks@ =~= Seq::new(
                    graph.kinds@.len() as nat,
                    |i: int| time,
                ));
                assert(graph.model() == chain_post.0);
                assert(left@ == chain_post.3);
                assert(right@ == chain_post.4);
            }
        }
        let ghost produced: int = left@.len() as int;
        left.truncate(length);
        right.truncate(length);
        proof {
            let c: int = CHUNK_SIZE as int;
            let q: int = produced / c;
            assert(produced == q * c) by {
                assert(produced == c * (produced / c) + produced % c);
            }
            lemma_fundamental_div_mod_converse(length + c - 1, c, q, length + c - 1 - q * c);
            assert(chunks_covering(length as int) == q);
            assert(left@ =~= render_chain(
                m_init,
                notes_init,
                samps_init,
                t0,
                master as int,
                chunks_covering(length as int) as nat,
            ).3.take(length as int));
            assert(right@ =~= render_chain(
                m_init,
                notes_init,
                samps_init,
                t0,
                master as int,
                chunks_covering(length as int) as nat,
            ).4.take(length as int));
        }
        (left, right)
    }

} // verus!
