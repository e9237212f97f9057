//! The node graph and its evaluation contract.
//!
//! Nodes live in an arena and name their inputs by index; every input
//! index is smaller than the node's own, so the arena order is a
//! topological order and cycles are impossible by construction.  One
//! `pull` drives the whole arena forward for the current Clock time:
//! each node whose cache is stale is recomputed exactly once, in arena
//! order, from its inputs' already-final buffers; a node whose cache
//! tick equals the current time is left untouched, however many parents
//! reference it.

use vstd::prelude::*;

verus! {

use crate::consts::{CHUNK_SIZE, TIME_INFINITY};
use crate::fixed::{sat64, fp_mul_spec, fp_index_spec, FP_ONE, FP_HALF};
use crate::events::{EventSource, source_advanced, windows_of, lemma_window_end_agrees};
use crate::synth::{NoteEvent, WaveTable, envelope_run, oscillator_run, envelope_chunk,
    oscillator_chunk, synth_chunk, WAVE_SAMPLES};
use crate::sampler::{SamplerEvent, SamplerState, sampler_run, sampler_chunk};
use crate::effects::{HardClipper, clip_spec, mix_sample, pan_left_spec, pan_right_spec,
    const_chunk, mix_chunk, gain_chunk, pan_chunks, mono_to_stereo_chunk, stereo_to_mono_chunk,
    shape_chunk};

/// What a node is and which arena slots (or event-source slots) feed it.
pub enum NodeKind {
    /// A mono signal holding one constant value.
    ConstSignal { value: i64 },
    /// A mono phase generator driven by a note-event source and a mono
    /// detune-multiplier signal.
    Oscillator { source: usize, detune: usize },
    /// A mono binary gate driven by a note-event source.
    Envelope { source: usize },
    /// A mono wavetable-lookup synthesizer over a phase signal, a
    /// crossfade-position signal (threaded but not yet consulted) and an
    /// amplitude signal.
    MonoSynth { wavetable: WaveTable, oscillator: usize, wavetable_position: usize, envelope: usize },
    /// A stereo one-shot player over a loaded stereo buffer, driven by a
    /// trigger-event source.
    Sampler { source: usize, left_samples: Vec<i64>, right_samples: Vec<i64> },
    /// A stereo sum of stereo inputs.
    Mixer { inputs: Vec<usize> },
    /// A stereo input scaled, per sample, by a mono control signal.
    Gain { input: usize, boost: usize },
    /// A stereo input placed by a mono position signal under the
    /// constant-power pan law.
    Pan { input: usize, position: usize },
    /// A mono input spread to both channels at half amplitude.
    MonoToStereo { input: usize },
    /// A stereo input summed to one channel.
    StereoToMono { input: usize },
    /// A stereo input passed through the hard clipper per sample.
    WaveShaperEffect { input: usize },
}

/// The per-node musical state that survives from one tick to the next.
#[derive(Clone, Copy)]
pub enum NodeState {
    /// For nodes that are pure combinators over their inputs.
    Stateless,
    /// An oscillator's phase and current frequency.
    Osc { position: i64, frequency: i64 },
    /// An envelope's gate.
    Env { on: bool },
    /// A sampler's playback state.
    Samp { st: SamplerState },
}

/// Whether a node emits two channels (stereo) or one (mono).
pub open spec fn is_stereo_kind(kind: NodeKind) -> bool {
    match kind {
        NodeKind::ConstSignal { .. } => false,
        NodeKind::Oscillator { .. } => false,
        NodeKind::Envelope { .. } => false,
        NodeKind::MonoSynth { .. } => false,
        NodeKind::Sampler { .. } => true,
        NodeKind::Mixer { .. } => true,
        NodeKind::Gain { .. } => true,
        NodeKind::Pan { .. } => true,
        NodeKind::MonoToStereo { .. } => true,
        NodeKind::StereoToMono { .. } => false,
        NodeKind::WaveShaperEffect { .. } => true,
    }
}

/// The envelope gate a state carries (off for any other state).
pub open spec fn state_env_on(st: NodeState) -> bool {
    match st {
        NodeState::Env { on } => on,
        _ => false,
    }
}

/// The oscillator phase a state carries (zero for any other state).
pub open spec fn state_osc_position(st: NodeState) -> i64 {
    match st {
        NodeState::Osc { position, .. } => position,
        _ => 0,
    }
}

/// The oscillator frequency a state carries (zero for any other state).
pub open spec fn state_osc_frequency(st: NodeState) -> i64 {
    match st {
        NodeState::Osc { frequency, .. } => frequency,
        _ => 0,
    }
}

/// The sampler state a state carries (idle for any other state).
pub open spec fn state_sampler(st: NodeState) -> SamplerState {
    match st {
        NodeState::Samp { st } => st,
        _ => SamplerState { playing: false, position: 0, playspeed: FP_ONE },
    }
}

/// The views of a bank of buffers.
pub open spec fn seq_views<T>(v: Seq<Vec<T>>) -> Seq<Seq<T>> {
    v.map_values(|b: Vec<T>| b@)
}

/// A silent chunk.
pub open spec fn silent_chunk() -> Seq<i64> {
    Seq::new(CHUNK_SIZE as nat, |j: int| 0i64)
}

/// What recomputing one node produces: its left and right chunk and its
/// state afterwards, as a function of the node's kind, the chunk windows
/// of the event sources, the already-final buffers of the nodes before
/// it, its own state, and the chunk's start time.  A mono node leaves
/// its right buffer (`pre_right`) as it was.
pub open spec fn compute_kind(
    kind: NodeKind,
    note_wins: Seq<Seq<(u64, NoteEvent)>>,
    samp_wins: Seq<Seq<(u64, SamplerEvent)>>,
    lefts: Seq<Seq<i64>>,
    rights: Seq<Seq<i64>>,
    pre_state: NodeState,
    pre_right: Seq<i64>,
    time: u64,
) -> (Seq<i64>, Seq<i64>, NodeState) {
    match kind {
        NodeKind::ConstSignal { value } => (
            Seq::new(CHUNK_SIZE as nat, |j: int| value),
            pre_right,
            NodeState::Stateless,
        ),
        NodeKind::Oscillator { source, detune } => {
            let run = oscillator_run(
                note_wins[source as int],
                lefts[detune as int],
                state_osc_position(pre_state),
                state_osc_frequency(pre_state),
                time,
                CHUNK_SIZE as nat,
            );
            (
                run.0,
                pre_right,
                NodeState::Osc { position: run.2 as i64, frequency: run.3 as i64 },
            )
        },
        NodeKind::Envelope { source } => {
            let run = envelope_run(
                note_wins[source as int],
                state_env_on(pre_state),
                time,
                CHUNK_SIZE as nat,
            );
            (run.0, pre_right, NodeState::Env { on: run.2 })
        },
        NodeKind::MonoSynth { wavetable, oscillator, wavetable_position, envelope } => (
            Seq::new(
                CHUNK_SIZE as nat,
                |j: int|
                    fp_mul_spec(
                        lefts[envelope as int][j] as int,
                        wavetable@[0][fp_index_spec(
                            lefts[oscillator as int][j] as int,
                            WAVE_SAMPLES as int,
                        )] as int,
                    ) as i64,
            ),
            pre_right,
            NodeState::Stateless,
        ),
        NodeKind::Sampler { source, left_samples, right_samples } => {
            let run = sampler_run(
                samp_wins[source as int],
                left_samples@,
                right_samples@,
                state_sampler(pre_state),
                time,
                CHUNK_SIZE as nat,
            );
            (run.0, run.1, NodeState::Samp { st: run.3 })
        },
        NodeKind::Mixer { inputs } => (
            Seq::new(
                CHUNK_SIZE as nat,
                |j: int|
                    mix_sample(inputs@.map_values(|ix: usize| lefts[ix as int]), j) as i64,
            ),
            Seq::new(
                CHUNK_SIZE as nat,
                |j: int|
                    mix_sample(inputs@.map_values(|ix: usize| rights[ix as int]), j) as i64,
            ),
            NodeState::Stateless,
        ),
        NodeKind::Gain { input, boost } => (
            Seq::new(
                CHUNK_SIZE as nat,
                |j: int|
                    fp_mul_spec(lefts[boost as int][j] as int, lefts[input as int][j] as int) as i64,
            ),
            Seq::new(
                CHUNK_SIZE as nat,
                |j: int|
                    fp_mul_spec(lefts[boost as int][j] as int, rights[input as int][j] as int) as i64,
            ),
            NodeState::Stateless,
        ),
        NodeKind::Pan { input, position } => (
            Seq::new(
                CHUNK_SIZE as nat,
                |j: int|
                    pan_left_spec(lefts[position as int][j] as int, lefts[input as int][j] as int) as i64,
            ),
            Seq::new(
                CHUNK_SIZE as nat,
                |j: int|
                    pan_right_spec(lefts[position as int][j] as int, rights[input as int][j] as int) as i64,
            ),
            NodeState::Stateless,
        ),
        NodeKind::MonoToStereo { input } => (
            Seq::new(
                CHUNK_SIZE as nat,
                |j: int| fp_mul_spec(FP_HALF as int, lefts[input as int][j] as int) as i64,
            ),
            Seq::new(
                CHUNK_SIZE as nat,
                |j: int| fp_mul_spec(FP_HALF as int, lefts[input as int][j] as int) as i64,
            ),
            NodeState::Stateless,
        ),
        NodeKind::StereoToMono { input } => (
            Seq::new(
                CHUNK_SIZE as nat,
                |j: int| sat64(lefts[input as int][j] as int + rights[input as int][j] as int) as i64,
            ),
            pre_right,
            NodeState::Stateless,
        ),
        NodeKind::WaveShaperEffect { input } => (
            Seq::new(CHUNK_SIZE as nat, |j: int| clip_spec(lefts[input as int][j] as int) as i64),
            Seq::new(CHUNK_SIZE as nat, |j: int| clip_spec(rights[input as int][j] as int) as i64),
            NodeState::Stateless,
        ),
    }
}

/// The ghost image of a graph: everything a pull's outcome depends on.
pub ghost struct GraphModel {
    pub kinds: Seq<NodeKind>,
    pub lefts: Seq<Seq<i64>>,
    pub rights: Seq<Seq<i64>>,
    pub states: Seq<NodeState>,
    pub ticks: Seq<u64>,
}

/// One whole-arena evaluation pass over the first `n` nodes: a node
/// whose cache tick already equals `time` keeps its buffers and state; a
/// stale node is recomputed from the final buffers of the nodes before
/// it.  The result is the banks of final left buffers, right buffers and
/// states.
pub open spec fn eval_graph(
    m: GraphModel,
    note_wins: Seq<Seq<(u64, NoteEvent)>>,
    samp_wins: Seq<Seq<(u64, SamplerEvent)>>,
    time: u64,
    n: nat,
) -> (Seq<Seq<i64>>, Seq<Seq<i64>>, Seq<NodeState>)
    decreases n,
{
    if n == 0 {
        (Seq::<Seq<i64>>::empty(), Seq::<Seq<i64>>::empty(), Seq::<NodeState>::empty())
    } else {
        let i = (n - 1) as int;
        let prev = eval_graph(m, note_wins, samp_wins, time, (n - 1) as nat);
        let node = if m.ticks[i] == time {
            (m.lefts[i], m.rights[i], m.states[i])
        } else {
            compute_kind(
                m.kinds[i],
                note_wins,
                samp_wins,
                prev.0,
                prev.1,
                m.states[i],
                m.rights[i],
                time,
            )
        };
        (prev.0.push(node.0), prev.1.push(node.1), prev.2.push(node.2))
    }
}

pub proof fn lemma_eval_graph_len(
    m: GraphModel,
    note_wins: Seq<Seq<(u64, NoteEvent)>>,
    samp_wins: Seq<Seq<(u64, SamplerEvent)>>,
    time: u64,
    n: nat,
)
    ensures
        eval_graph(m, note_wins, samp_wins, time, n).0.len() == n,
        eval_graph(m, note_wins, samp_wins, time, n).1.len() == n,
        eval_graph(m, note_wins, samp_wins, time, n).2.len() == n,
    decreases n,
{
    if n > 0 {
        lemma_eval_graph_len(m, note_wins, samp_wins, time, (n - 1) as nat);
    }
}

/// Cache stability: evaluating an arena whose caches are all already
/// stamped with the current time touches nothing — every node keeps its
/// buffers and its state exactly as they were.
pub proof fn lemma_eval_graph_fresh(
    m: GraphModel,
    note_wins: Seq<Seq<(u64, NoteEvent)>>,
    samp_wins: Seq<Seq<(u64, SamplerEvent)>>,
    time: u64,
    n: nat,
)
    requires
        n <= m.ticks.len(),
        n <= m.lefts.len(),
        n <= m.rights.len(),
        n <= m.states.len(),
        forall|i: int| 0 <= i < n ==> m.ticks[i] == time,
    ensures
        eval_graph(m, note_wins, samp_wins, time, n).0 == m.lefts.take(n as int),
        eval_graph(m, note_wins, samp_wins, time, n).1 == m.rights.take(n as int),
        eval_graph(m, note_wins, samp_wins, time, n).2 == m.states.take(n as int),
    decreases n,
{
    if n == 0 {
        assert(eval_graph(m, note_wins, samp_wins, time, n).0 =~= m.lefts.take(0));
        assert(eval_graph(m, note_wins, samp_wins, time, n).1 =~= m.rights.take(0));
        assert(eval_graph(m, note_wins, samp_wins, time, n).2 =~= m.states.take(0));
    } else {
        lemma_eval_graph_fresh(m, note_wins, samp_wins, time, (n - 1) as nat);
        assert(eval_graph(m, note_wins, samp_wins, time, n).0 =~= m.lefts.take(n as int));
        assert(eval_graph(m, note_wins, samp_wins, time, n).1 =~= m.rights.take(n as int));
        assert(eval_graph(m, note_wins, samp_wins, time, n).2 =~= m.states.take(n as int));
    }
}

/// Whether a node's static wiring is sound at arena slot `i`: every
/// input slot is smaller than `i` (the arena order is topological, so
/// no node can transitively depend on itself) and carries the channel
/// kind the node consumes; event-source slots exist.
pub open spec fn node_wf(kinds: Seq<NodeKind>, n_note: int, n_samp: int, i: int) -> bool {
    match kinds[i] {
        NodeKind::ConstSignal { .. } => true,
        NodeKind::Oscillator { source, detune } => {
            &&& (source as int) < n_note
            &&& (detune as int) < i
            &&& !is_stereo_kind(kinds[detune as int])
        },
        NodeKind::Envelope { source } => (source as int) < n_note,
        NodeKind::MonoSynth { wavetable, oscillator, wavetable_position, envelope } => {
            &&& wavetable.wf()
            &&& (oscillator as int) < i
            &&& !is_stereo_kind(kinds[oscillator as int])
            &&& (wavetable_position as int) < i
            &&& !is_stereo_kind(kinds[wavetable_position as int])
            &&& (envelope as int) < i
            &&& !is_stereo_kind(kinds[envelope as int])
        },
        NodeKind::Sampler { source, left_samples, right_samples } => {
            &&& (source as int) < n_samp
            &&& left_samples@.len() == right_samples@.len()
        },
        NodeKind::Mixer { inputs } => forall|k: int|
            0 <= k < inputs@.len() ==> (#[trigger] inputs@[k] as int) < i && is_stereo_kind(
                kinds[inputs@[k] as int],
            ),
        NodeKind::Gain { input, boost } => {
            &&& (input as int) < i
            &&& is_stereo_kind(kinds[input as int])
            &&& (boost as int) < i
            &&& !is_stereo_kind(kinds[boost as int])
        },
        NodeKind::Pan { input, position } => {
            &&& (input as int) < i
            &&& is_stereo_kind(kinds[input as int])
            &&& (position as int) < i
            &&& !is_stereo_kind(kinds[position as int])
        },
        NodeKind::MonoToStereo { input } => {
            &&& (input as int) < i
            &&& !is_stereo_kind(kinds[input as int])
        },
        NodeKind::StereoToMono { input } => {
            &&& (input as int) < i
            &&& is_stereo_kind(kinds[input as int])
        },
        NodeKind::WaveShaperEffect { input } => {
            &&& (input as int) < i
            &&& is_stereo_kind(kinds[input as int])
        },
    }
}

/// Whether a state value is of the shape the node kind owns.
pub open spec fn state_matches(kind: NodeKind, st: NodeState) -> bool {
    match kind {
        NodeKind::Oscillator { .. } => st matches NodeState::Osc { .. },
        NodeKind::Envelope { .. } => st matches NodeState::Env { .. },
        NodeKind::Sampler { .. } => st matches NodeState::Samp { .. },
        _ => st matches NodeState::Stateless,
    }
}

/// The arena of nodes together with the event sources that feed them.
/// Nodes, sources and the graph shape are fixed before rendering starts;
/// only caches, buffers, musical state and source cursors change while
/// the graph is pulled.
pub struct Graph {
    pub kinds: Vec<NodeKind>,
    pub ticks: Vec<u64>,
    pub states: Vec<NodeState>,
    pub lefts: Vec<Vec<i64>>,
    pub rights: Vec<Vec<i64>>,
    pub note_sources: Vec<EventSource<NoteEvent>>,
    pub sampler_sources: Vec<EventSource<SamplerEvent>>,
}

/// What appending one node leaves behind: the new node's cache is
/// stamped never-computed and its buffers are silent; nothing else
/// moves.
pub open spec fn node_appended(pre: Graph, post: Graph, kind: NodeKind, st: NodeState) -> bool {
    &&& post.kinds@ == pre.kinds@.push(kind)
    &&& post.ticks@ == pre.ticks@.push(TIME_INFINITY)
    &&& post.states@ == pre.states@.push(st)
    &&& seq_views(post.lefts@) == seq_views(pre.lefts@).push(silent_chunk())
    &&& seq_views(post.rights@) == seq_views(pre.rights@).push(silent_chunk())
    &&& post.note_sources@ == pre.note_sources@
    &&& post.sampler_sources@ == pre.sampler_sources@
}

impl Graph {
    pub open spec fn node_count(self) -> int {
        self.kinds@.len() as int
    }

    pub open spec fn wf(self) -> bool {
        let n: int = self.kinds@.len() as int;
        &&& self.ticks@.len() == n
        &&& self.states@.len() == n
        &&& self.lefts@.len() == n
        &&& self.rights@.len() == n
        &&& forall|i: int|
            0 <= i < n ==> node_wf(
                self.kinds@,
                self.note_sources@.len() as int,
                self.sampler_sources@.len() as int,
                i,
            )
        &&& forall|i: int| 0 <= i < n ==> state_matches(self.kinds@[i], #[trigger] self.states@[i])
        &&& forall|i: int| 0 <= i < n ==> (#[trigger] self.lefts@[i])@.len() == CHUNK_SIZE
        &&& forall|i: int| 0 <= i < n ==> (#[trigger] self.rights@[i])@.len() == CHUNK_SIZE
        &&& forall|s: int|
            0 <= s < self.note_sources@.len() ==> (#[trigger] self.note_sources@[s]).wf()
        &&& forall|s: int|
            0 <= s < self.sampler_sources@.len() ==> (#[trigger] self.sampler_sources@[s]).wf()
    }

    /// Whether every event source can still be queried at `time`: none
    /// has consumed past it.
    pub open spec fn synced_to(self, time: u64) -> bool {
        &&& forall|s: int|
            0 <= s < self.note_sources@.len() ==> ((#[trigger] self.note_sources@[s]).last_queried()
                == TIME_INFINITY || self.note_sources@[s].last_queried() <= time)
        &&& forall|s: int|
            0 <= s < self.sampler_sources@.len()
                ==> ((#[trigger] self.sampler_sources@[s]).last_queried() == TIME_INFINITY
                || self.sampler_sources@[s].last_queried() <= time)
    }

    /// The ghost image a pull consumes and produces.
    pub open spec fn model(self) -> GraphModel {
        GraphModel {
            kinds: self.kinds@,
            lefts: seq_views(self.lefts@),
            rights: seq_views(self.rights@),
            states: self.states@,
            ticks: self.ticks@,
        }
    }

    pub open spec fn node_is_stereo(self, i: int) -> bool {
        is_stereo_kind(self.kinds@[i])
    }

    pub fn new() -> (g: Graph)
        ensures
            g.wf(),
            g.node_count() == 0,
            g.note_sources@.len() == 0,
            g.sampler_sources@.len() == 0,
    {
        Graph {
            kinds: Vec::new(),
            ticks: Vec::new(),
            states: Vec::new(),
            lefts: Vec::new(),
            rights: Vec::new(),
            note_sources: Vec::new(),
            sampler_sources: Vec::new(),
        }
    }

    pub fn num_nodes(&self) -> (n: usize)
        ensures
            n as int == self.node_count(),
    {
        self.kinds.len()
    }

    /// The left (or only) channel node `i` produced for the tick its
    /// cache is stamped with.
    pub fn left_output(&self, i: usize) -> (buf: &Vec<i64>)
        requires
            self.wf(),
            (i as int) < self.node_count(),
        ensures
            buf@ == self.model().lefts[i as int],
    {
        proof {
            assert(self.model().lefts[i as int] == self.lefts@[i as int]@);
        }
        &self.lefts[i]
    }

    /// The right channel node `i` produced (meaningful for stereo
    /// nodes).
    pub fn right_output(&self, i: usize) -> (buf: &Vec<i64>)
        requires
            self.wf(),
            (i as int) < self.node_count(),
        ensures
            buf@ == self.model().rights[i as int],
    {
        proof {
            assert(self.model().rights[i as int] == self.rights@[i as int]@);
        }
        &self.rights[i]
    }

    /// Hands a note-event source to the graph; oscillators and
    /// envelopes name it by the returned slot.
    pub fn add_note_source(&mut self, source: EventSource<NoteEvent>) -> (idx: usize)
        requires
            old(self).wf(),
            source.wf(),
        ensures
            final(self).wf(),
            idx as int == old(self).note_sources@.len(),
            final(self).note_sources@ == old(self).note_sources@.push(source),
            final(self).sampler_sources@ == old(self).sampler_sources@,
            final(self).kinds@ == old(self).kinds@,
            final(self).ticks@ == old(self).ticks@,
            final(self).states@ == old(self).states@,
            final(self).lefts@ == old(self).lefts@,
            final(self).rights@ == old(self).rights@,
    {
        let idx: usize = self.note_sources.len();
        self.note_sources.push(source);
        proof {
            assert forall|i: int| 0 <= i < self.kinds@.len() as int implies node_wf(
                self.kinds@,
                self.note_sources@.len() as int,
                self.sampler_sources@.len() as int,
                i,
            ) by {
                assert(node_wf(
                    self.kinds@,
                    old(self).note_sources@.len() as int,
                    self.sampler_sources@.len() as int,
                    i,
                ));
            }
        }
        idx
    }

    /// Hands a trigger-event source to the graph; samplers name it by
    /// the returned slot.
    pub fn add_sampler_source(&mut self, source: EventSource<SamplerEvent>) -> (idx: usize)
        requires
            old(self).wf(),
            source.wf(),
        ensures
            final(self).wf(),
            idx as int == old(self).sampler_sources@.len(),
            final(self).sampler_sources@ == old(self).sampler_sources@.push(source),
            final(self).note_sources@ == old(self).note_sources@,
            final(self).kinds@ == old(self).kinds@,
            final(self).ticks@ == old(self).ticks@,
            final(self).states@ == old(self).states@,
            final(self).lefts@ == old(self).lefts@,
            final(self).rights@ == old(self).rights@,
    {
        let idx: usize = self.sampler_sources.len();
        self.sampler_sources.push(source);
        proof {
            assert forall|i: int| 0 <= i < self.kinds@.len() as int implies node_wf(
                self.kinds@,
                self.note_sources@.len() as int,
                self.sampler_sources@.len() as int,
                i,
            ) by {
                assert(node_wf(
                    self.kinds@,
                    self.note_sources@.len() as int,
                    old(self).sampler_sources@.len() as int,
                    i,
                ));
            }
        }
        idx
    }

    /// A silent chunk-sized buffer.
    fn silence() -> (v: Vec<i64>)
        ensures
            v@ == silent_chunk(),
    {
        let mut v: Vec<i64> = Vec::new();
        let mut j: usize = 0;
        while j < CHUNK_SIZE
            invariant
                j <= CHUNK_SIZE,
                v@.len() == j,
                forall|k: int| 0 <= k < j ==> #[trigger] v@[k] == 0i64,
            decreases CHUNK_SIZE - j,
        {
            v.push(0);
            j = j + 1;
        }
        proof {
            assert(v@ =~= silent_chunk());
        }
        v
    }

    /// Appends one node with a never-computed cache and silent buffers.
    fn push_node(&mut self, kind: NodeKind, st: NodeState) -> (idx: usize)
        requires
            old(self).wf(),
            state_matches(kind, st),
            node_wf(
                old(self).kinds@.push(kind),
                old(self).note_sources@.len() as int,
                old(self).sampler_sources@.len() as int,
                old(self).node_count(),
            ),
        ensures
            final(self).wf(),
            idx as int == old(self).node_count(),
            node_appended(*old(self), *final(self), kind, st),
    {
        let idx: usize = self.kinds.len();
        self.kinds.push(kind);
        self.ticks.push(TIME_INFINITY);
        self.states.push(st);
        self.lefts.push(Self::silence());
        self.rights.push(Self::silence());
        proof {
            assert(seq_views(self.lefts@) =~= seq_views(old(self).lefts@).push(silent_chunk()));
            assert(seq_views(self.rights@) =~= seq_views(old(self).rights@).push(silent_chunk()));
            let n2 = self.kinds@.len() as int;
            assert forall|i: int| 0 <= i < n2 implies node_wf(
                self.kinds@,
                self.note_sources@.len() as int,
                self.sampler_sources@.len() as int,
                i,
            ) by {
                if i < n2 - 1 {
                    assert(self.kinds@[i] == old(self).kinds@[i]);
                    assert(node_wf(
                        old(self).kinds@,
                        self.note_sources@.len() as int,
                        self.sampler_sources@.len() as int,
                        i,
                    ));
                    assert(forall|j: int| 0 <= j < i ==> self.kinds@[j] == old(self).kinds@[j]);
                }
            }
        }
        idx
    }

    pub fn add_const_signal(&mut self, value: i64) -> (idx: usize)
        requires
            old(self).wf(),
        ensures
            final(self).wf(),
            idx as int == old(self).node_count(),
            node_appended(*old(self), *final(self), NodeKind::ConstSignal { value }, NodeState::Stateless),
    {
        self.push_node(NodeKind::ConstSignal { value }, NodeState::Stateless)
    }

    pub fn add_oscillator(&mut self, source: usize, detune: usize) -> (idx: usize)
        requires
            old(self).wf(),
            (source as int) < old(self).note_sources@.len(),
            (detune as int) < old(self).node_count(),
            !old(self).node_is_stereo(detune as int),
        ensures
            final(self).wf(),
            idx as int == old(self).node_count(),
            node_appended(
                *old(self),
                *final(self),
                NodeKind::Oscillator { source, detune },
                (NodeState::Osc { position: 0, frequency: 0 }),
            ),
    {
        self.push_node(
            NodeKind::Oscillator { source, detune },
            NodeState::Osc { position: 0, frequency: 0 },
        )
    }

    pub fn add_envelope(&mut self, source: usize) -> (idx: usize)
        requires
            old(self).wf(),
            (source as int) < old(self).note_sources@.len(),
        ensures
            final(self).wf(),
            idx as int == old(self).node_count(),
            node_appended(
                *old(self),
                *final(self),
                NodeKind::Envelope { source },
                (NodeState::Env { on: false }),
            ),
    {
        self.push_node(NodeKind::Envelope { source }, NodeState::Env { on: false })
    }

    pub fn add_mono_synth(
        &mut self,
        wavetable: WaveTable,
        oscillator: usize,
        wavetable_position: usize,
        envelope: usize,
    ) -> (idx: usize)
        requires
            old(self).wf(),
            wavetable.wf(),
            (oscillator as int) < old(self).node_count(),
            !old(self).node_is_stereo(oscillator as int),
            (wavetable_position as int) < old(self).node_count(),
            !old(self).node_is_stereo(wavetable_position as int),
            (envelope as int) < old(self).node_count(),
            !old(self).node_is_stereo(envelope as int),
        ensures
            final(self).wf(),
            idx as int == old(self).node_count(),
            node_appended(
                *old(self),
                *final(self),
                (NodeKind::MonoSynth { wavetable, oscillator, wavetable_position, envelope }),
                NodeState::Stateless,
            ),
    {
        self.push_node(
            NodeKind::MonoSynth { wavetable, oscillator, wavetable_position, envelope },
            NodeState::Stateless,
        )
    }

    pub fn add_sampler(
        &mut self,
        source: usize,
        left_samples: Vec<i64>,
        right_samples: Vec<i64>,
    ) -> (idx: usize)
        requires
            old(self).wf(),
            (source as int) < old(self).sampler_sources@.len(),
            left_samples@.len() == right_samples@.len(),
        ensures
            final(self).wf(),
            idx as int == old(self).node_count(),
            node_appended(
                *old(self),
                *final(self),
                (NodeKind::Sampler { source, left_samples, right_samples }),
                (NodeState::Samp {
                    st: SamplerState { playing: false, position: 0, playspeed: FP_ONE },
                }),
            ),
    {
        self.push_node(
            NodeKind::Sampler { source, left_samples, right_samples },
            NodeState::Samp { st: SamplerState { playing: false, position: 0, playspeed: FP_ONE } },
        )
    }

    pub fn add_mixer(&mut self, inputs: Vec<usize>) -> (idx: usize)
        requires
            old(self).wf(),
            forall|k: int|
                0 <= k < inputs@.len() ==> (#[trigger] inputs@[k] as int) < old(self).node_count()
                    && old(self).node_is_stereo(inputs@[k] as int),
        ensures
            final(self).wf(),
            idx as int == old(self).node_count(),
            node_appended(
                *old(self),
                *final(self),
                (NodeKind::Mixer { inputs }),
                NodeState::Stateless,
            ),
    {
        self.push_node(NodeKind::Mixer { inputs }, NodeState::Stateless)
    }

    pub fn add_gain(&mut self, input: usize, boost: usize) -> (idx: usize)
        requires
            old(self).wf(),
            (input as int) < old(self).node_count(),
            old(self).node_is_stereo(input as int),
            (boost as int) < old(self).node_count(),
            !old(self).node_is_stereo(boost as int),
        ensures
            final(self).wf(),
            idx as int == old(self).node_count(),
            node_appended(
                *old(self),
                *final(self),
                (NodeKind::Gain { input, boost }),
                NodeState::Stateless,
            ),
    {
        self.push_node(NodeKind::Gain { input, boost }, NodeState::Stateless)
    }

    pub fn add_pan(&mut self, input: usize, position: usize) -> (idx: usize)
        requires
            old(self).wf(),
            (input as int) < old(self).node_count(),
            old(self).node_is_stereo(input as int),
            (position as int) < old(self).node_count(),
            !old(self).node_is_stereo(position as int),
        ensures
            final(self).wf(),
            idx as int == old(self).node_count(),
            node_appended(
                *old(self),
                *final(self),
                (NodeKind::Pan { input, position }),
                NodeState::Stateless,
            ),
    {
        self.push_node(NodeKind::Pan { input, position }, NodeState::Stateless)
    }

    pub fn add_mono_to_stereo(&mut self, input: usize) -> (idx: usize)
        requires
            old(self).wf(),
            (input as int) < old(self).node_count(),
            !old(self).node_is_stereo(input as int),
        ensures
            final(self).wf(),
            idx as int == old(self).node_count(),
            node_appended(
                *old(self),
                *final(self),
                (NodeKind::MonoToStereo { input }),
                NodeState::Stateless,
            ),
    {
        self.push_node(NodeKind::MonoToStereo { input }, NodeState::Stateless)
    }

    pub fn add_stereo_to_mono(&mut self, input: usize) -> (idx: usize)
        requires
            old(self).wf(),
            (input as int) < old(self).node_count(),
            old(self).node_is_stereo(input as int),
        ensures
            final(self).wf(),
            idx as int == old(self).node_count(),
            node_appended(
                *old(self),
                *final(self),
                (NodeKind::StereoToMono { input }),
                NodeState::Stateless,
            ),
    {
        self.push_node(NodeKind::StereoToMono { input }, NodeState::Stateless)
    }

    pub fn add_wave_shaper(&mut self, input: usize) -> (idx: usize)
        requires
            old(self).wf(),
            (input as int) < old(self).node_count(),
            old(self).node_is_stereo(input as int),
        ensures
            final(self).wf(),
            idx as int == old(self).node_count(),
            node_appended(
                *old(self),
                *final(self),
                (NodeKind::WaveShaperEffect { input }),
                NodeState::Stateless,
            ),
    {
        self.push_node(NodeKind::WaveShaperEffect { input }, NodeState::Stateless)
    }

    /// A copy of one chunk buffer.
    fn copy_samples(src: &Vec<i64>) -> (v: Vec<i64>)
        ensures
            v@ == src@,
    {
        let mut v: Vec<i64> = Vec::new();
        let mut j: usize = 0;
        while j < src.len()
            invariant
                j <= src@.len(),
                v@ == src@.subrange(0, j as int),
            decreases src@.len() - j,
        {
            v.push(src[j]);
            j = j + 1;
        }
        proof {
            assert(v@ =~= src@);
        }
        v
    }

    /// One pull of the whole arena for the chunk starting at `time`.
    ///
    /// Every event source is brought to `time` first (a repeated query
    /// at the same time is a no-op), then the nodes are walked in arena
    /// order: a node whose cache tick already equals `time` is left
    /// exactly as it is, and a stale node is recomputed once from its
    /// inputs' now-final buffers and its own carried state, after which
    /// its cache is stamped with `time`.  The outcome is precisely the
    /// `eval_graph` image of the pre-pull graph, so repeated pulls
    /// within one tick are idempotent: if every cache already bears
    /// `time` and every source has already been queried at `time`,
    /// nothing changes at all (cache stability).
    pub fn pull(&mut self, time: u64)
        requires
            old(self).wf(),
            old(self).synced_to(time),
            time + CHUNK_SIZE <= u64::MAX,
        ensures
            final(self).wf(),
            final(self).synced_to(time),
            final(self).kinds@ == old(self).kinds@,
            final(self).note_sources@.len() == old(self).note_sources@.len(),
            final(self).sampler_sources@.len() == old(self).sampler_sources@.len(),
            forall|s: int|
                0 <= s < old(self).note_sources@.len() ==> source_advanced(
                    old(self).note_sources@[s],
                    #[trigger] final(self).note_sources@[s],
                    time,
                ),
            forall|s: int|
                0 <= s < old(self).sampler_sources@.len() ==> source_advanced(
                    old(self).sampler_sources@[s],
                    #[trigger] final(self).sampler_sources@[s],
                    time,
                ),
            forall|i: int|
                0 <= i < old(self).kinds@.len() ==> #[trigger] final(self).ticks@[i] == time,
            final(self).note_sources@ == old(self).note_sources@.map_values(
                |s: EventSource<NoteEvent>| s.advanced_image(time),
            ),
            final(self).sampler_sources@ == old(self).sampler_sources@.map_values(
                |s: EventSource<SamplerEvent>| s.advanced_image(time),
            ),
            final(self).model().lefts == eval_graph(
                old(self).model(),
                windows_of(final(self).note_sources@, time),
                windows_of(final(self).sampler_sources@, time),
                time,
                old(self).kinds@.len(),
            ).0,
            final(self).model().rights == eval_graph(
                old(self).model(),
                windows_of(final(self).note_sources@, time),
                windows_of(final(self).sampler_sources@, time),
                time,
                old(self).kinds@.len(),
            ).1,
            final(self).model().states == eval_graph(
                old(self).model(),
                windows_of(final(self).note_sources@, time),
                windows_of(final(self).sampler_sources@, time),
                time,
                old(self).kinds@.len(),
            ).2,
            ((forall|i: int| 0 <= i < old(self).kinds@.len() ==> #[trigger] old(self).ticks@[i] == time)
                && (forall|s: int|
                0 <= s < old(self).note_sources@.len()
                    ==> (#[trigger] old(self).note_sources@[s]).last_queried() == time) && (
            forall|s: int|
                0 <= s < old(self).sampler_sources@.len()
                    ==> (#[trigger] old(self).sampler_sources@[s]).last_queried() == time)) ==> {
                &&& final(self).model().lefts == old(self).model().lefts
                &&& final(self).model().rights == old(self).model().rights
                &&& final(self).model().states == old(self).model().states
                &&& final(self).note_sources@ == old(self).note_sources@
                &&& final(self).sampler_sources@ == old(self).sampler_sources@
            },
    {
        // Bring every event source to the current time, recording each
        // source's chunk window.  A source that several nodes share is
        // queried once here and the window reused, exactly as repeated
        // in-tick queries would return the identical slice.
        let ghost pre_note: Seq<EventSource<NoteEvent>> = self.note_sources@;
        let mut advanced_note: Vec<EventSource<NoteEvent>> = Vec::new();
        let mut note_windows: Vec<Vec<(u64, NoteEvent)>> = Vec::new();
        while self.note_sources.len() > 0
            invariant
                time + CHUNK_SIZE <= u64::MAX,
                forall|s: int| 0 <= s < pre_note.len() ==> (#[trigger] pre_note[s]).wf(),
                forall|s: int|
                    0 <= s < pre_note.len() ==> ((#[trigger] pre_note[s]).last_queried()
                        == TIME_INFINITY || pre_note[s].last_queried() <= time),
                advanced_note@.len() + self.note_sources@.len() == pre_note.len(),
                note_windows@.len() == advanced_note@.len(),
                self.note_sources@ == pre_note.subrange(
                    advanced_note@.len() as int,
                    pre_note.len() as int,
                ),
                forall|s: int|
                    0 <= s < advanced_note@.len() ==> source_advanced(
                        pre_note[s],
                        #[trigger] advanced_note@[s],
                        time,
                    ),
                forall|s: int|
                    0 <= s < advanced_note@.len() ==> #[trigger] advanced_note@[s]
                        == pre_note[s].advanced_image(time),
                forall|s: int|
                    0 <= s < advanced_note@.len() ==> (#[trigger] note_windows@[s])@
                        == advanced_note@[s].chunk_window(time),
                self.kinds@ == old(self).kinds@,
                self.ticks@ == old(self).ticks@,
                self.states@ == old(self).states@,
                self.lefts@ == old(self).lefts@,
                self.rights@ == old(self).rights@,
                self.sampler_sources@ == old(self).sampler_sources@,
            decreases self.note_sources@.len(),
        {
            let ghost k: int = advanced_note@.len() as int;
            let mut src = self.note_sources.remove(0);
            proof {
                assert(src == pre_note[k]);
                assert(self.note_sources@ =~= pre_note.subrange(k + 1, pre_note.len() as int));
            }
            let window_range: (usize, usize) = src.events_this_chunk(time);
            let a: usize = window_range.0;
            let b: usize = window_range.1;
            proof {
                lemma_window_end_agrees(src@, a as int, b as int, time);
            }
            let w = src.copy_window(a, b);
            advanced_note.push(src);
            note_windows.push(w);
        }
        self.note_sources = advanced_note;
        let ghost adv_note: Seq<EventSource<NoteEvent>> = self.note_sources@;

        let ghost pre_samp: Seq<EventSource<SamplerEvent>> = self.sampler_sources@;
        let mut advanced_samp: Vec<EventSource<SamplerEvent>> = Vec::new();
        let mut sampler_windows: Vec<Vec<(u64, SamplerEvent)>> = Vec::new();
        while self.sampler_sources.len() > 0
            invariant
                time + CHUNK_SIZE <= u64::MAX,
                forall|s: int| 0 <= s < pre_samp.len() ==> (#[trigger] pre_samp[s]).wf(),
                forall|s: int|
                    0 <= s < pre_samp.len() ==> ((#[trigger] pre_samp[s]).last_queried()
                        == TIME_INFINITY || pre_samp[s].last_queried() <= time),
                advanced_samp@.len() + self.sampler_sources@.len() == pre_samp.len(),
                sampler_windows@.len() == advanced_samp@.len(),
                self.sampler_sources@ == pre_samp.subrange(
                    advanced_samp@.len() as int,
                    pre_samp.len() as int,
                ),
                forall|s: int|
                    0 <= s < advanced_samp@.len() ==> source_advanced(
                        pre_samp[s],
                        #[trigger] advanced_samp@[s],
                        time,
                    ),
                forall|s: int|
                    0 <= s < advanced_samp@.len() ==> #[trigger] advanced_samp@[s]
                        == pre_samp[s].advanced_image(time),
                forall|s: int|
                    0 <= s < advanced_samp@.len() ==> (#[trigger] sampler_windows@[s])@
                        == advanced_samp@[s].chunk_window(time),
                self.kinds@ == old(self).kinds@,
                self.ticks@ == old(self).ticks@,
                self.states@ == old(self).states@,
                self.lefts@ == old(self).lefts@,
                self.rights@ == old(self).rights@,
                self.note_sources@ == adv_note,
            decreases self.sampler_sources@.len(),
        {
            let ghost k: int = advanced_samp@.len() as int;
            let mut src = self.sampler_sources.remove(0);
            proof {
                assert(src == pre_samp[k]);
                assert(self.sampler_sources@ =~= pre_samp.subrange(k + 1, pre_samp.len() as int));
            }
            let window_range: (usize, usize) = src.events_this_chunk(time);
            let a: usize = window_range.0;
            let b: usize = window_range.1;
            proof {
                lemma_window_end_agrees(src@, a as int, b as int, time);
            }
            let w = src.copy_window(a, b);
            advanced_samp.push(src);
            sampler_windows.push(w);
        }
        self.sampler_sources = advanced_samp;

        // Walk the arena in topological order.
        let ghost m0 = self.model();
        let ghost wn = windows_of(self.note_sources@, time);
        let ghost ws = windows_of(self.sampler_sources@, time);
        proof {
            assert(self.wf());
            assert(m0 == old(self).model());
            assert(self.note_sources@ =~= old(self).note_sources@.map_values(
                |s: EventSource<NoteEvent>| s.advanced_image(time),
            ));
            assert(self.sampler_sources@ =~= old(self).sampler_sources@.map_values(
                |s: EventSource<SamplerEvent>| s.advanced_image(time),
            ));
            assert(forall|s: int|
                0 <= s < note_windows@.len() ==> (#[trigger] note_windows@[s])@ == wn[s]);
            assert(forall|s: int|
                0 <= s < sampler_windows@.len() ==> (#[trigger] sampler_windows@[s])@ == ws[s]);
        }
        let n: usize = self.kinds.len();
        let mut new_lefts: Vec<Vec<i64>> = Vec::new();
        let mut new_rights: Vec<Vec<i64>> = Vec::new();
        let mut new_states: Vec<NodeState> = Vec::new();
        let mut new_ticks: Vec<u64> = Vec::new();
        let mut i: usize = 0;
        while i < n
            invariant
                i <= n,
                n == self.kinds@.len(),
                time + CHUNK_SIZE <= u64::MAX,
                self.wf(),
                m0 == self.model(),
                wn == windows_of(self.note_sources@, time),
                ws == windows_of(self.sampler_sources@, time),
                note_windows@.len() == self.note_sources@.len(),
                sampler_windows@.len() == self.sampler_sources@.len(),
                forall|s: int|
                    0 <= s < note_windows@.len() ==> (#[trigger] note_windows@[s])@ == wn[s],
                forall|s: int|
                    0 <= s < sampler_windows@.len() ==> (#[trigger] sampler_windows@[s])@ == ws[s],
                new_lefts@.len() == i,
                new_rights@.len() == i,
                new_states@.len() == i,
                new_ticks@.len() == i,
                forall|j: int| 0 <= j < i ==> #[trigger] new_ticks@[j] == time,
                forall|j: int| 0 <= j < i ==> (#[trigger] new_lefts@[j])@.len() == CHUNK_SIZE,
                forall|j: int| 0 <= j < i ==> (#[trigger] new_rights@[j])@.len() == CHUNK_SIZE,
                forall|j: int|
                    0 <= j < i ==> state_matches(self.kinds@[j], #[trigger] new_states@[j]),
                seq_views(new_lefts@) == eval_graph(m0, wn, ws, time, i as nat).0,
                seq_views(new_rights@) == eval_graph(m0, wn, ws, time, i as nat).1,
                new_states@ == eval_graph(m0, wn, ws, time, i as nat).2,
            decreases n - i,
        {
            let ghost prev = eval_graph(m0, wn, ws, time, i as nat);
            proof {
                lemma_eval_graph_len(m0, wn, ws, time, i as nat);
            }
            let ghost ck = compute_kind(
                self.kinds@[i as int],
                wn,
                ws,
                prev.0,
                prev.1,
                self.states@[i as int],
                m0.rights[i as int],
                time,
            );
            let ghost target = if m0.ticks[i as int] == time {
                (m0.lefts[i as int], m0.rights[i as int], m0.states[i as int])
            } else {
                ck
            };
            let out_l: Vec<i64>;
            let out_r: Vec<i64>;
            let st2: NodeState;
            if self.ticks[i] == time {
                out_l = Self::copy_samples(&self.lefts[i]);
                out_r = Self::copy_samples(&self.rights[i]);
                st2 = self.states[i];
                proof {
                    assert(out_l@ == target.0);
                    assert(out_r@ == target.1);
                    assert(st2 == target.2);
                }
            } else {
                proof {
                    assert(node_wf(
                        self.kinds@,
                        self.note_sources@.len() as int,
                        self.sampler_sources@.len() as int,
                        i as int,
                    ));
                }
                let result: (Vec<i64>, Vec<i64>, NodeState) = match &self.kinds[i] {
                    NodeKind::ConstSignal { value } => {
                        let buf = const_chunk(*value);
                        proof {
                            assert(buf@ =~= ck.0);
                        }
                        (buf, Self::copy_samples(&self.rights[i]), NodeState::Stateless)
                    },
                    NodeKind::Oscillator { source, detune } => {
                        let st_i: NodeState = self.states[i];
                        let pos0: i64 = match st_i {
                            NodeState::Osc { position, .. } => position,
                            _ => 0,
                        };
                        let freq0: i64 = match st_i {
                            NodeState::Osc { frequency, .. } => frequency,
                            _ => 0,
                        };
                        let r = oscillator_chunk(
                            &note_windows[*source],
                            &new_lefts[*detune],
                            pos0,
                            freq0,
                            time,
                        );
                        (
                            r.0,
                            Self::copy_samples(&self.rights[i]),
                            NodeState::Osc { position: r.1, frequency: r.2 },
                        )
                    },
                    NodeKind::Envelope { source } => {
                        let st_i: NodeState = self.states[i];
                        let on0: bool = match st_i {
                            NodeState::Env { on } => on,
                            _ => false,
                        };
                        let r = envelope_chunk(&note_windows[*source], on0, time);
                        (
                            r.0,
                            Self::copy_samples(&self.rights[i]),
                            NodeState::Env { on: r.1 },
                        )
                    },
                    NodeKind::MonoSynth { wavetable, oscillator, wavetable_position: _, envelope } => {
                        let buf = synth_chunk(wavetable, &new_lefts[*oscillator], &new_lefts[*envelope]);
                        proof {
                            assert(buf@ =~= ck.0);
                        }
                        (buf, Self::copy_samples(&self.rights[i]), NodeState::Stateless)
                    },
                    NodeKind::Sampler { source, left_samples, right_samples } => {
                        let st_i: NodeState = self.states[i];
                        let st0: SamplerState = match st_i {
                            NodeState::Samp { st } => st,
                            _ => SamplerState { playing: false, position: 0, playspeed: FP_ONE },
                        };
                        let r = sampler_chunk(
                            &sampler_windows[*source],
                            left_samples,
                            right_samples,
                            st0,
                            time,
                        );
                        (r.0, r.1, NodeState::Samp { st: r.2 })
                    },
                    NodeKind::Mixer { inputs } => {
                        let mut bufs_l: Vec<Vec<i64>> = Vec::new();
                        let mut bufs_r: Vec<Vec<i64>> = Vec::new();
                        let mut k: usize = 0;
                        while k < inputs.len()
                            invariant
                                k <= inputs@.len(),
                                bufs_l@.len() == k,
                                bufs_r@.len() == k,
                                i < n,
                                new_lefts@.len() == i,
                                new_rights@.len() == i,
                                seq_views(new_lefts@) == eval_graph(m0, wn, ws, time, i as nat).0,
                                seq_views(new_rights@) == eval_graph(m0, wn, ws, time, i as nat).1,
                                forall|t: int|
                                    0 <= t < inputs@.len() ==> (#[trigger] inputs@[t] as int) < i,
                                forall|j: int|
                                    0 <= j < i ==> (#[trigger] new_lefts@[j])@.len() == CHUNK_SIZE,
                                forall|j: int|
                                    0 <= j < i ==> (#[trigger] new_rights@[j])@.len() == CHUNK_SIZE,
                                forall|t: int|
                                    0 <= t < k ==> (#[trigger] bufs_l@[t])@ == eval_graph(
                                        m0,
                                        wn,
                                        ws,
                                        time,
                                        i as nat,
                                    ).0[inputs@[t] as int],
                                forall|t: int|
                                    0 <= t < k ==> (#[trigger] bufs_r@[t])@ == eval_graph(
                                        m0,
                                        wn,
                                        ws,
                                        time,
                                        i as nat,
                                    ).1[inputs@[t] as int],
                                forall|t: int|
                                    0 <= t < k ==> (#[trigger] bufs_l@[t])@.len() == CHUNK_SIZE,
                                forall|t: int|
                                    0 <= t < k ==> (#[trigger] bufs_r@[t])@.len() == CHUNK_SIZE,
                            decreases inputs@.len() - k,
                        {
                            let ix: usize = inputs[k];
                            bufs_l.push(Self::copy_samples(&new_lefts[ix]));
                            bufs_r.push(Self::copy_samples(&new_rights[ix]));
                            k = k + 1;
                        }
                        let out0 = mix_chunk(&bufs_l);
                        let out1 = mix_chunk(&bufs_r);
                        proof {
                            assert(seq_views(bufs_l@) =~= inputs@.map_values(
                                |ix: usize| prev.0[ix as int],
                            ));
                            assert(seq_views(bufs_r@) =~= inputs@.map_values(
                                |ix: usize| prev.1[ix as int],
                            ));
                            assert(out0@ =~= ck.0);
                            assert(out1@ =~= ck.1);
                        }
                        (out0, out1, NodeState::Stateless)
                    },
                    NodeKind::Gain { input, boost } => {
                        let out0 = gain_chunk(&new_lefts[*boost], &new_lefts[*input]);
                        let out1 = gain_chunk(&new_lefts[*boost], &new_rights[*input]);
                        proof {
                            assert(out0@ =~= ck.0);
                            assert(out1@ =~= ck.1);
                        }
                        (out0, out1, NodeState::Stateless)
                    },
                    NodeKind::Pan { input, position } => {
                        let r = pan_chunks(
                            &new_lefts[*position],
                            &new_lefts[*input],
                            &new_rights[*input],
                        );
                        proof {
                            assert(r.0@ =~= ck.0);
                            assert(r.1@ =~= ck.1);
                        }
                        (r.0, r.1, NodeState::Stateless)
                    },
                    NodeKind::MonoToStereo { input } => {
                        let r = mono_to_stereo_chunk(&new_lefts[*input]);
                        proof {
                            assert(r.0@ =~= ck.0);
                            assert(r.1@ =~= ck.1);
                        }
                        (r.0, r.1, NodeState::Stateless)
                    },
                    NodeKind::StereoToMono { input } => {
                        let buf = stereo_to_mono_chunk(&new_lefts[*input], &new_rights[*input]);
                        proof {
                            assert(buf@ =~= ck.0);
                        }
                        (buf, Self::copy_samples(&self.rights[i]), NodeState::Stateless)
                    },
                    NodeKind::WaveShaperEffect { input } => {
                        let clipper = HardClipper::new();
                        let out0 = shape_chunk(&clipper, &new_lefts[*input]);
                        let out1 = shape_chunk(&clipper, &new_rights[*input]);
                        proof {
                            assert(out0@ =~= ck.0);
                            assert(out1@ =~= ck.1);
                        }
                        (out0, out1, NodeState::Stateless)
                    },
                };
                out_l = result.0;
                out_r = result.1;
                st2 = result.2;
                proof {
                    assert(out_l@ == target.0);
                    assert(out_r@ == target.1);
                    assert(st2 == target.2);
                }
            }
            new_lefts.push(out_l);
            new_rights.push(out_r);
            new_states.push(st2);
            new_ticks.push(time);
            proof {
                lemma_eval_graph_len(m0, wn, ws, time, (i + 1) as nat);
                assert(eval_graph(m0, wn, ws, time, (i + 1) as nat).0 == prev.0.push(target.0));
                assert(eval_graph(m0, wn, ws, time, (i + 1) as nat).1 == prev.1.push(target.1));
                assert(eval_graph(m0, wn, ws, time, (i + 1) as nat).2 == prev.2.push(target.2));
                assert(seq_views(new_lefts@) =~= prev.0.push(target.0));
                assert(seq_views(new_rights@) =~= prev.1.push(target.1));
            }
            i = i + 1;
        }
        self.lefts = new_lefts;
        self.rights = new_rights;
        self.states = new_states;
        self.ticks = new_ticks;
        proof {
            if (forall|j: int|
                0 <= j < old(self).kinds@.len() ==> #[trigger] old(self).ticks@[j] == time) && (
            forall|s: int|
                0 <= s < old(self).note_sources@.len()
                    ==> (#[trigger] old(self).note_sources@[s]).last_queried() == time) && (
            forall|s: int|
                0 <= s < old(self).sampler_sources@.len()
                    ==> (#[trigger] old(self).sampler_sources@[s]).last_queried() == time) {
                lemma_eval_graph_fresh(m0, wn, ws, time, n as nat);
                assert(m0.lefts.take(n as int) =~= m0.lefts);
                assert(m0.rights.take(n as int) =~= m0.rights);
                assert(m0.states.take(n as int) =~= m0.states);
                assert(self.note_sources@ =~= old(self).note_sources@);
                assert(self.sampler_sources@ =~= old(self).sampler_sources@);
            }
        }
    }
}

} // verus!
