//! Plugin shell: the outward-facing core behind the host's lifecycle
//! callbacks. It reports the plugin's metadata and capabilities, feeds
//! delivered events to the note gate, and fills each requested output block
//! on the real-time path. The host adapter translates between the host's
//! wire types and the plain values these functions take and return.
use crate::gate::NoteGate;
use crate::gate::gate_fold;
use crate::synth::block_bounded;
use crate::synth::block_silent;
use crate::synth::render_block;
use crate::synth::same_shape;
use vstd::prelude::*;

verus! {

broadcast use vstd::string::group_string_axioms;

/// The category this plugin declares to the host: it generates sound.
#[derive(Clone, Copy, Debug, PartialEq, Eq, Structural)]
pub enum PluginCategory {
    Synth,
}

/// The plugin metadata the host asks for once at instantiation.
pub struct PluginInfo {
    /// Display name.
    pub name: String,
    /// Stable identity, used by hosts to tell plugins apart.
    pub unique_id: i32,
    /// Number of audio inputs; this plugin is a pure generator.
    pub inputs: i32,
    /// Number of audio outputs.
    pub outputs: i32,
    /// Number of host-automatable parameters.
    pub parameters: i32,
    /// Declared category.
    pub category: PluginCategory,
}

/// An optional host capability the plugin is asked about.
#[derive(Clone, Copy, Debug, PartialEq, Eq, Structural)]
pub enum Capability {
    /// Receiving note events; the plugin needs these.
    ReceiveMidiEvents,
    /// Any other capability the host may probe.
    Other,
}

/// The plugin's answer to a capability probe.
#[derive(Clone, Copy, Debug, PartialEq, Eq, Structural)]
pub enum SupportLevel {
    Yes,
    No,
    Maybe,
}

/// The declared answer for each capability: note events are needed, so the
/// answer is yes; everything else gets the permissive maybe.
pub open spec fn spec_can_do(c: Capability) -> SupportLevel {
    match c {
        Capability::ReceiveMidiEvents => SupportLevel::Yes,
        Capability::Other => SupportLevel::Maybe,
    }
}

/// The plugin core: the note gate mutated by event delivery and read by the
/// audio path, both on the real-time thread. The shared parameter store is
/// created beside it and handed by shared reference to the host adapter and
/// the editor session.
pub struct Whisper {
    /// Count of currently-held notes.
    pub notes: NoteGate,
}

impl Whisper {
    /// A fresh plugin core with no note held.
    pub fn new() -> (r: Whisper)
        ensures
            r.notes.count == 0,
    {
        Whisper { notes: NoteGate::new() }
    }

    /// The fixed metadata: the name, identity, a pure generator with two
    /// outputs, one parameter, declared as a synthesizer.
    pub fn get_info(&self) -> (r: PluginInfo)
        ensures
            r.name@ == "Whisper"@,
            r.unique_id == 1337,
            r.inputs == 0,
            r.outputs == 2,
            r.parameters == 1,
            r.category is Synth,
    {
        PluginInfo {
            name: "Whisper".to_string(),
            unique_id: 1337,
            inputs: 0,
            outputs: 2,
            parameters: 1,
            category: PluginCategory::Synth,
        }
    }

    /// Answer a capability probe as `spec_can_do` lays down.
    pub fn can_do(&self, c: Capability) -> (r: SupportLevel)
        ensures
            r == spec_can_do(c),
    {
        match c {
            Capability::ReceiveMidiEvents => SupportLevel::Yes,
            Capability::Other => SupportLevel::Maybe,
        }
    }

    /// Deliver one cycle's batch of events, in arrival order: each status
    /// byte moves the note gate. The bound only rules out overflowing the
    /// machine counter.
    pub fn process_events(&mut self, statuses: &Vec<u8>)
        requires
            old(self).notes.count + statuses@.len() <= u64::MAX,
        ensures
            final(self).notes.count == gate_fold(old(self).notes.count as nat, statuses@),
    {
        self.notes.process_events(statuses);
    }

    /// Fill one cycle's output block in place: exact silence while no note
    /// is held, otherwise full-scale-bounded noise in every slot, keeping
    /// the block's shape.
    pub fn process(&self, out: &mut Vec<Vec<i32>>)
        ensures
            same_shape(old(out)@, final(out)@),
            self.notes.count == 0 ==> block_silent(final(out)@),
            self.notes.count > 0 ==> block_bounded(final(out)@),
    {
        let active = self.notes.is_active();
        render_block(active, out);
    }
}

} // verus!
