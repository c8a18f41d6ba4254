//! The voices that sound, and what key events and finished buffers do to them.

use vstd::prelude::*;
use crate::midi::MidiEvent;

verus! {

/// One oscillator, started by a key and kept until its release has faded.
#[derive(Clone, Copy, Debug, PartialEq, Eq, Structural)]
pub struct Voice {
    /// The key that started the voice. It fixes the pitch, and a release
    /// finds the voice again by it.
    pub key: u8,
    /// The oscillator's accumulated time, in the renderer's own encoding.
    /// The registry stores the word and never looks into it; a new voice
    /// starts from the zero word.
    pub phase: u64,
    /// False once the key has come up: the voice fades over the buffer that
    /// is rendered next and leaves when that buffer is done.
    pub alive: bool,
}

impl Voice {
    /// The voice that a fresh press of `key` starts.
    pub open spec fn started(key: u8) -> Voice {
        Voice { key, phase: 0, alive: true }
    }

    /// This voice after `key` has come up: dead if it was started by `key`,
    /// unchanged otherwise.
    pub open spec fn after_release(self, key: u8) -> Voice {
        Voice { key: self.key, phase: self.phase, alive: self.alive && self.key != key }
    }

    /// This voice with its accumulated time replaced.
    pub open spec fn with_phase(self, phase: u64) -> Voice {
        Voice { key: self.key, phase, alive: self.alive }
    }

    /// The voice holds `key` down: it was started by `key` and not released.
    pub open spec fn holds(self, key: u8) -> bool {
        self.alive && self.key == key
    }
}

/// The voices after `key` went down: one more voice, at the end.
pub open spec fn pressed(voices: Seq<Voice>, key: u8) -> Seq<Voice> {
    voices.push(Voice::started(key))
}

/// The voices after `key` came up: every voice started by `key` is dead,
/// however many there are; nothing is added, removed or reordered.
pub open spec fn released(voices: Seq<Voice>, key: u8) -> Seq<Voice> {
    Seq::new(voices.len(), |i: int| voices[i].after_release(key))
}

/// The voices after a finished buffer: the living ones, in their order.
pub open spec fn pruned(voices: Seq<Voice>) -> Seq<Voice> {
    voices.filter(|v: Voice| v.alive)
}

/// The voices after `event`. Only key events touch them.
pub open spec fn after_event(voices: Seq<Voice>, event: MidiEvent) -> Seq<Voice> {
    match event {
        MidiEvent::KeyPressed(key, _) => pressed(voices, key),
        MidiEvent::KeyReleased(key) => released(voices, key),
        _ => voices,
    }
}

/// Whether `event` is one that the voices answer to.
pub open spec fn is_key_event(event: MidiEvent) -> bool {
    event is KeyPressed || event is KeyReleased
}

/// The collection of voices that currently sound, oldest first.
pub struct VoiceRegistry {
    voices: Vec<Voice>,
}

impl View for VoiceRegistry {
    type V = Seq<Voice>;

    closed spec fn view(&self) -> Seq<Voice> {
        self.voices@
    }
}

impl VoiceRegistry {
    /// A registry with no voice in it.
    pub fn new() -> (registry: VoiceRegistry)
        ensures
            registry@ == Seq::<Voice>::empty(),
    {
        VoiceRegistry { voices: Vec::new() }
    }

    /// How many voices there are, fading ones included.
    pub fn len(&self) -> (count: usize)
        ensures
            count == self@.len(),
    {
        self.voices.len()
    }

    /// The voice at `index`, counted from the oldest; nothing past the end.
    pub fn get(&self, index: usize) -> (voice: Option<Voice>)
        ensures
            index < self@.len() ==> voice == Some(self@[index as int]),
            index >= self@.len() ==> voice is None,
    {
        if index < self.voices.len() {
            Some(self.voices[index])
        } else {
            None
        }
    }

    /// Starts a voice for `key`. A key that already sounds gets a second
    /// voice beside the first.
    pub fn press(&mut self, key: u8)
        ensures
            final(self)@ == pressed(old(self)@, key),
    {
        self.voices.push(Voice { key, phase: 0, alive: true });
    }

    /// Marks every voice that `key` started as dead.
    pub fn release(&mut self, key: u8)
        ensures
            final(self)@ == released(old(self)@, key),
    {
        let count = self.voices.len();
        let mut index: usize = 0;
        while index < count
            invariant
                count == old(self)@.len(),
                self.voices@.len() == count,
                index <= count,
                forall|i: int| 0 <= i < index ==> self.voices@[i] == old(self)@[i].after_release(key),
                forall|i: int| index <= i < count ==> self.voices@[i] == old(self)@[i],
            decreases count - index,
        {
            let voice = self.voices[index];
            self.voices.set(
                index,
                Voice { key: voice.key, phase: voice.phase, alive: voice.alive && voice.key != key },
            );
            index += 1;
        }
        assert(self.voices@ =~= released(old(self)@, key));
    }

    /// Stores the accumulated time of the voice at `index` and says so;
    /// past the end nothing is stored.
    pub fn set_phase(&mut self, index: usize, phase: u64) -> (stored: bool)
        ensures
            stored == (index < old(self)@.len()),
            stored ==> final(self)@ == old(self)@.update(
                index as int,
                old(self)@[index as int].with_phase(phase),
            ),
            !stored ==> final(self)@ == old(self)@,
    {
        if index < self.voices.len() {
            let voice = self.voices[index];
            self.voices.set(index, Voice { key: voice.key, phase, alive: voice.alive });
            true
        } else {
            false
        }
    }

    /// Ends a buffer: the voices that faded over it leave, the living stay
    /// in their order.
    pub fn prune(&mut self)
        ensures
            final(self)@ == pruned(old(self)@),
    {
        let count = self.voices.len();
        let mut kept: Vec<Voice> = Vec::new();
        let mut index: usize = 0;
        while index < count
            invariant
                count == self.voices@.len(),
                self.voices@ == old(self)@,
                index <= count,
                kept@ == pruned(self.voices@.take(index as int)),
            decreases count - index,
        {
            let voice = self.voices[index];
            proof {
                let before = self.voices@.take(index as int);
                assert(self.voices@.take(index + 1) =~= before.push(voice));
                before.lemma_filter_push(voice, |v: Voice| v.alive);
            }
            if voice.alive {
                kept.push(voice);
            }
            index += 1;
        }
        assert(self.voices@.take(count as int) =~= self.voices@);
        self.voices = kept;
    }

    /// Applies `event` and tells whether it was a key event. Any other
    /// event leaves the registry as it is.
    pub fn apply(&mut self, event: MidiEvent) -> (handled: bool)
        ensures
            final(self)@ == after_event(old(self)@, event),
            handled == is_key_event(event),
    {
        match event {
            MidiEvent::KeyPressed(key, _) => {
                self.press(key);
                true
            },
            MidiEvent::KeyReleased(key) => {
                self.release(key);
                true
            },
            _ => false,
        }
    }
}

/// After a key came up no voice holds it any more, whatever happened
/// before; the voices keep their number, keys and accumulated times, and
/// no voice comes back to life.
pub proof fn release_lets_go_of_the_key(voices: Seq<Voice>, key: u8)
    ensures
        released(voices, key).len() == voices.len(),
        forall|i: int|
            0 <= i < voices.len() ==> !(#[trigger] released(voices, key)[i]).holds(key),
        forall|i: int|
            0 <= i < voices.len() ==> {
                let before = voices[i];
                let after = #[trigger] released(voices, key)[i];
                &&& after.key == before.key
                &&& after.phase == before.phase
                &&& after.alive ==> before.alive
                &&& before.key != key ==> after == before
            },
{
}

/// A released key is gone when the next buffer is done: the voices it
/// started fade over that one buffer and are then removed.
pub proof fn released_key_is_gone_after_one_buffer(voices: Seq<Voice>, key: u8)
    ensures
        forall|i: int|
            0 <= i < pruned(released(voices, key)).len() ==> (#[trigger] pruned(
                released(voices, key),
            )[i]).key != key,
{
    let let_go = released(voices, key);
    let living = |v: Voice| v.alive;
    assert forall|i: int| 0 <= i < pruned(let_go).len() implies (#[trigger] pruned(
        let_go,
    )[i]).key != key by {
        let voice = pruned(let_go)[i];
        let_go.lemma_filter_pred(living, i);
        assert(pruned(let_go).contains(voice));
        let_go.lemma_filter_contains_rev(living, voice);
        let j = choose|j: int| 0 <= j < let_go.len() && let_go[j] == voice;
        assert(let_go[j] == voices[j].after_release(key));
    }
}

/// A key that goes down and comes up again leaves, once the next buffer is
/// done, what its release alone would have left: between press and release
/// a voice holds the key, after the release none does, and after the
/// buffer no voice of that key is in the registry.
pub proof fn press_release_buffer(voices: Seq<Voice>, key: u8, velocity: u8)
    ensures
        ({
            let down = after_event(voices, MidiEvent::KeyPressed(key, velocity));
            let up = after_event(down, MidiEvent::KeyReleased(key));
            &&& down.len() == voices.len() + 1
            &&& down.last().holds(key)
            &&& up.len() == down.len()
            &&& forall|i: int| 0 <= i < up.len() ==> !(#[trigger] up[i]).holds(key)
            &&& forall|i: int| 0 <= i < pruned(up).len() ==> (#[trigger] pruned(up)[i]).key != key
            &&& pruned(up) == pruned(released(voices, key))
        }),
{
    let down = pressed(voices, key);
    let up = released(down, key);
    released_key_is_gone_after_one_buffer(down, key);
    let gone = Voice::started(key).after_release(key);
    assert(up =~= released(voices, key).push(gone));
    released(voices, key).lemma_filter_push(gone, |v: Voice| v.alive);
}

/// Releasing a key that no voice holds changes nothing, and so does
/// releasing a key a second time.
pub proof fn release_changes_held_keys_only(voices: Seq<Voice>, key: u8)
    ensures
        (forall|i: int| 0 <= i < voices.len() ==> !(#[trigger] voices[i]).holds(key))
            ==> released(voices, key) == voices,
        released(released(voices, key), key) == released(voices, key),
{
    if forall|i: int| 0 <= i < voices.len() ==> !(#[trigger] voices[i]).holds(key) {
        assert(released(voices, key) =~= voices);
    }
    assert(released(released(voices, key), key) =~= released(voices, key));
}

/// A key that no voice holds stays so, and a key without any voice stays
/// without, until that key goes down again: no other event and no end of
/// a buffer brings a voice of it back.
pub proof fn silence_lasts_until_the_next_press(voices: Seq<Voice>, key: u8, event: MidiEvent)
    requires
        !(event matches MidiEvent::KeyPressed(k, _) && k == key),
    ensures
        (forall|i: int| 0 <= i < voices.len() ==> !(#[trigger] voices[i]).holds(key)) ==> {
            &&& forall|i: int|
                0 <= i < after_event(voices, event).len() ==> !(#[trigger] after_event(
                    voices,
                    event,
                )[i]).holds(key)
            &&& forall|i: int|
                0 <= i < pruned(voices).len() ==> !(#[trigger] pruned(voices)[i]).holds(key)
        },
        (forall|i: int| 0 <= i < voices.len() ==> (#[trigger] voices[i]).key != key) ==> {
            &&& forall|i: int|
                0 <= i < after_event(voices, event).len() ==> (#[trigger] after_event(
                    voices,
                    event,
                )[i]).key != key
            &&& forall|i: int|
                0 <= i < pruned(voices).len() ==> (#[trigger] pruned(voices)[i]).key != key
        },
{
    let living = |v: Voice| v.alive;
    assert forall|i: int| 0 <= i < pruned(voices).len() implies voices.contains(
        #[trigger] pruned(voices)[i],
    ) by {
        assert(pruned(voices).contains(pruned(voices)[i]));
        voices.lemma_filter_contains_rev(living, pruned(voices)[i]);
    }
    if forall|i: int| 0 <= i < voices.len() ==> !(#[trigger] voices[i]).holds(key) {
        assert forall|i: int| 0 <= i < pruned(voices).len() implies !(#[trigger] pruned(
            voices,
        )[i]).holds(key) by {
            let j = choose|j: int| 0 <= j < voices.len() && voices[j] == pruned(voices)[i];
            assert(!voices[j].holds(key));
        }
    }
    if forall|i: int| 0 <= i < voices.len() ==> (#[trigger] voices[i]).key != key {
        assert forall|i: int| 0 <= i < pruned(voices).len() implies (#[trigger] pruned(
            voices,
        )[i]).key != key by {
            let j = choose|j: int| 0 <= j < voices.len() && voices[j] == pruned(voices)[i];
            assert(voices[j].key != key);
        }
    }
}

/// No event changes the accumulated time of a voice that is there, and a
/// new voice starts from zero: the registry holds no time but zero and what
/// the renderer stored.
pub proof fn events_keep_accumulated_time(voices: Seq<Voice>, event: MidiEvent)
    ensures
        voices.len() <= after_event(voices, event).len() <= voices.len() + 1,
        forall|i: int|
            0 <= i < voices.len() ==> (#[trigger] after_event(voices, event)[i]).phase
                == voices[i].phase,
        after_event(voices, event).len() > voices.len() ==> after_event(voices, event).last()
            == Voice::started(after_event(voices, event).last().key),
{
}

/// Where every voice is alive the end of a buffer removes none.
proof fn prune_of_the_living(voices: Seq<Voice>)
    requires
        forall|i: int| 0 <= i < voices.len() ==> (#[trigger] voices[i]).alive,
    ensures
        pruned(voices) == voices,
    decreases voices.len(),
{
    reveal(Seq::filter);
    if voices.len() > 0 {
        let front = voices.drop_last();
        assert forall|i: int| 0 <= i < front.len() implies (#[trigger] front[i]).alive by {
            assert(front[i] == voices[i]);
        }
        prune_of_the_living(front);
        assert(voices.last().alive);
        assert(front.push(voices.last()) =~= voices);
    }
}

/// The end of a buffer keeps exactly the living voices: every voice that
/// stays is alive and was there before, every living voice stays, and a
/// registry without fading voices, an empty one too, is left as it was.
/// So a second end of buffer right after the first removes nothing.
pub proof fn prune_keeps_the_living(voices: Seq<Voice>)
    ensures
        pruned(voices).len() <= voices.len(),
        forall|i: int| 0 <= i < pruned(voices).len() ==> (#[trigger] pruned(voices)[i]).alive,
        forall|i: int|
            0 <= i < pruned(voices).len() ==> voices.contains(#[trigger] pruned(voices)[i]),
        forall|i: int|
            0 <= i < voices.len() && (#[trigger] voices[i]).alive ==> pruned(voices).contains(
                voices[i],
            ),
        (forall|i: int| 0 <= i < voices.len() ==> (#[trigger] voices[i]).alive) ==> pruned(voices)
            == voices,
        pruned(pruned(voices)) == pruned(voices),
{
    let living = |v: Voice| v.alive;
    voices.lemma_filter_len(living);
    assert forall|i: int| 0 <= i < pruned(voices).len() implies (#[trigger] pruned(
        voices,
    )[i]).alive && voices.contains(pruned(voices)[i]) by {
        voices.lemma_filter_pred(living, i);
        assert(pruned(voices).contains(pruned(voices)[i]));
        voices.lemma_filter_contains_rev(living, pruned(voices)[i]);
    }
    assert forall|i: int| 0 <= i < voices.len() && (#[trigger] voices[i]).alive implies pruned(
        voices,
    ).contains(voices[i]) by {
        voices.lemma_filter_contains(living, i);
    }
    if forall|i: int| 0 <= i < voices.len() ==> (#[trigger] voices[i]).alive {
        prune_of_the_living(voices);
    }
    prune_of_the_living(pruned(voices));
}

} // verus!
