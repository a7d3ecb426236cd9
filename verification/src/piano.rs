//! The piano widget's key layout and its monophonic pointer handling.
//!
//! Drawing and hit testing are geometry, left to the rendering layer; what
//! lives here is the part that decides: which keys are black, how many
//! white keys a range holds (which fixes the key widths), and which note
//! events one pointer state produces. The pointer handling is monophonic:
//! pressing an unheld key releases everything else, and lifting the
//! pointer, or leaving the widget, releases everything.

use vstd::prelude::*;

verus! {

/// Whether a note number lands on a black key of the keyboard.
pub open spec fn black_key(note: int) -> bool {
    let r = note % 12;
    r == 1 || r == 3 || r == 6 || r == 8 || r == 10
}

/// Whether a note number lands on a black key.
pub fn is_black_key(note: u8) -> (r: bool)
    ensures
        r == black_key(note as int),
{
    let m = note % 12;
    m == 1 || m == 3 || m == 6 || m == 8 || m == 10
}

/// How many of the `count` keys from `start` upward are white.
pub open spec fn white_count(start: int, count: nat) -> nat
    decreases count,
{
    if count == 0 {
        0nat
    } else {
        white_count(start, (count - 1) as nat) + if black_key(start + count - 1) {
            0nat
        } else {
            1nat
        }
    }
}

/// One press or release of a key.
#[derive(Clone, Copy, Debug, PartialEq, Eq, Structural)]
pub struct PianoEvent {
    /// The note number.
    pub note: u8,
    /// Key velocity: full for a press, zero for a release.
    pub velocity: u8,
    /// Whether the key went down or up.
    pub pressed: bool,
}

/// The release of a note.
pub open spec fn off_event(note: u8) -> PianoEvent {
    PianoEvent { note, velocity: 0, pressed: false }
}

/// The press of a note, at the pointer's fixed velocity.
pub open spec fn on_event(note: u8) -> PianoEvent {
    PianoEvent { note, velocity: 100, pressed: true }
}

/// A release for each held note, in held order.
pub open spec fn all_released(notes: Seq<u8>) -> Seq<PianoEvent> {
    notes.map_values(|n: u8| off_event(n))
}

/// A row of piano keys.
pub struct PianoWidget {
    start_note: u8,
    key_count: u8,
}

impl Default for PianoWidget {
    /// Two octaves from C3.
    fn default() -> (r: PianoWidget)
        ensures
            r.start() == 48,
            r.count() == 24,
    {
        PianoWidget { start_note: 48, key_count: 24 }
    }
}

impl PianoWidget {
    /// Lowest note of the row.
    pub closed spec fn start(self) -> u8 {
        self.start_note
    }

    /// How many keys the row holds.
    pub closed spec fn count(self) -> u8 {
        self.key_count
    }

    /// A row of `key_count` keys from `start_note` upward.
    pub fn new(start_note: u8, key_count: u8) -> (r: PianoWidget)
        ensures
            r.start() == start_note,
            r.count() == key_count,
    {
        PianoWidget { start_note, key_count }
    }

    /// Lowest note of the row.
    pub fn start_note(&self) -> (r: u8)
        ensures
            r == self.start(),
    {
        self.start_note
    }

    /// How many keys the row holds.
    pub fn key_count(&self) -> (r: u8)
        ensures
            r == self.count(),
    {
        self.key_count
    }

    /// How many of the row's keys are white; their shared width fills the
    /// row's breadth.
    pub fn white_key_count(&self) -> (r: usize)
        ensures
            r == white_count(self.start() as int, self.count() as nat),
    {
        let mut n: usize = 0;
        let mut i: u16 = 0;
        let count = self.key_count as u16;
        while i < count
            invariant
                i <= count,
                count == self.count() as u16,
                n == white_count(self.start() as int, i as nat),
                n <= i,
            decreases count - i,
        {
            let note = self.start_note as u16 + i;
            if !(note % 12 == 1 || note % 12 == 3 || note % 12 == 6 || note % 12 == 8 || note % 12
                == 10) {
                n = n + 1;
            }
            proof {
                assert((self.start() as u16 + i) % 12 == (self.start() as int + i as int) % 12);
            }
            i = i + 1;
        }
        n
    }
}

/// Whether a note is among the held ones.
fn contains_note(notes: &Vec<u8>, note: u8) -> (r: bool)
    ensures
        r == notes@.contains(note),
{
    let mut i: usize = 0;
    while i < notes.len()
        invariant
            i <= notes@.len(),
            forall|j: int| 0 <= j < i ==> notes@[j] != note,
        decreases notes@.len() - i,
    {
        if notes[i] == note {
            return true;
        }
        i = i + 1;
    }
    false
}

/// Releases every held note, appending one release event per note.
fn release_all(active_notes: &mut Vec<u8>, events: &mut Vec<PianoEvent>)
    ensures
        final(active_notes)@.len() == 0,
        final(events)@ == old(events)@ + all_released(old(active_notes)@),
{
    let mut i: usize = 0;
    while i < active_notes.len()
        invariant
            i <= active_notes@.len(),
            active_notes@ == old(active_notes)@,
            events@ == old(events)@ + all_released(active_notes@.subrange(0, i as int)),
        decreases active_notes@.len() - i,
    {
        events.push(PianoEvent { note: active_notes[i], velocity: 0, pressed: false });
        proof {
            assert(events@ =~= old(events)@ + all_released(
                active_notes@.subrange(0, i + 1),
            ));
        }
        i = i + 1;
    }
    proof {
        assert(active_notes@.subrange(0, active_notes@.len() as int) =~= active_notes@);
    }
    active_notes.clear();
}

/// Turns one pointer state into note events, monophonically. A press on a
/// key not already held releases every held note and presses that key
/// alone; a pointer that is up inside the row, or anywhere outside it,
/// releases everything; a pointer that is gone releases everything unless
/// its button is still down (a drag that left the window); anything else
/// changes nothing.
pub fn piano_pointer_events(
    active_notes: &mut Vec<u8>,
    hit: Option<u8>,
    pointer_down: bool,
    has_pointer: bool,
    pointer_inside: bool,
) -> (events: Vec<PianoEvent>)
    ensures
        ({
            let held = old(active_notes)@;
            if has_pointer && pointer_inside && pointer_down {
                match hit {
                    Some(note) => if !held.contains(note) {
                        &&& events@ == all_released(held).push(on_event(note))
                        &&& final(active_notes)@ == seq![note]
                    } else {
                        &&& events@.len() == 0
                        &&& final(active_notes)@ == held
                    },
                    None => {
                        &&& events@.len() == 0
                        &&& final(active_notes)@ == held
                    },
                }
            } else if has_pointer || !pointer_down {
                &&& events@ == all_released(held)
                &&& final(active_notes)@.len() == 0
            } else {
                &&& events@.len() == 0
                &&& final(active_notes)@ == held
            }
        }),
{
    let mut events: Vec<PianoEvent> = Vec::new();
    if has_pointer && pointer_inside {
        if pointer_down {
            if let Some(note) = hit {
                if !contains_note(active_notes, note) {
                    release_all(active_notes, &mut events);
                    active_notes.push(note);
                    events.push(PianoEvent { note, velocity: 100, pressed: true });
                    proof {
                        assert(active_notes@ =~= seq![note]);
                    }
                }
            }
        } else {
            release_all(active_notes, &mut events);
        }
    } else if has_pointer {
        release_all(active_notes, &mut events);
    } else if !pointer_down {
        release_all(active_notes, &mut events);
    }
    events
}

} // verus!
