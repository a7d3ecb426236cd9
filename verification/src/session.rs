//! Reassembly of transport chunks into complete frames, and the sorting
//! of complete frames into the events a device session reacts to.
//!
//! A transport delivers frames in arbitrary byte chunks. A chunk holding a
//! frame-start byte begins a new frame (anything older is abandoned);
//! other chunks extend the frame in progress, if any. A frame is complete
//! once its last byte is the frame-end byte.

use vstd::prelude::*;

use crate::framing::{decoded_bank, frame_ok};
use crate::protocol::{
    Storage, CMD_WRITE_ERROR, CMD_WRITE_REQ, CMD_WRITE_SUCCESS, MANUFACTURER_ID, MODEL_ID,
    SYSEX_END, SYSEX_START,
};

verus! {

/// Index of the first frame-start byte in a chunk, or -1 if it has none.
pub open spec fn find_frame_start(c: Seq<u8>) -> int
    decreases c.len(),
{
    if c.len() == 0 {
        -1
    } else if c[0] == SYSEX_START {
        0
    } else if find_frame_start(c.subrange(1, c.len() as int)) < 0 {
        -1
    } else {
        find_frame_start(c.subrange(1, c.len() as int)) + 1
    }
}

/// The bytes pending after a chunk arrives: a chunk with a frame-start
/// byte replaces everything from that byte on; otherwise the chunk extends
/// the frame in progress, and is dropped when none is in progress.
pub open spec fn pending_after(buf: Seq<u8>, chunk: Seq<u8>) -> Seq<u8> {
    if find_frame_start(chunk) >= 0 {
        chunk.subrange(find_frame_start(chunk), chunk.len() as int)
    } else if buf.len() > 0 {
        buf + chunk
    } else {
        buf
    }
}

/// Whether a pending byte run is a complete frame: nonempty and closed by
/// the frame-end byte.
pub open spec fn frame_complete(a: Seq<u8>) -> bool {
    a.len() > 0 && a[a.len() - 1] == SYSEX_END
}

proof fn lemma_find_start_hit(c: Seq<u8>, i: int)
    requires
        0 <= i < c.len(),
        c[i] == SYSEX_START,
        forall|j: int| 0 <= j < i ==> c[j] != SYSEX_START,
    ensures
        find_frame_start(c) == i,
    decreases i,
{
    if i > 0 {
        let tail = c.subrange(1, c.len() as int);
        lemma_find_start_hit(tail, i - 1);
    }
}

proof fn lemma_find_start_miss(c: Seq<u8>)
    requires
        forall|j: int| 0 <= j < c.len() ==> c[j] != SYSEX_START,
    ensures
        find_frame_start(c) == -1,
    decreases c.len(),
{
    if c.len() > 0 {
        lemma_find_start_miss(c.subrange(1, c.len() as int));
    }
}

/// Collects transport chunks until they close a frame.
pub struct SysexAssembler {
    buffer: Vec<u8>,
}

impl View for SysexAssembler {
    type V = Seq<u8>;

    closed spec fn view(&self) -> Seq<u8> {
        self.buffer@
    }
}

impl SysexAssembler {
    /// An assembler with no frame in progress.
    pub fn new() -> (r: SysexAssembler)
        ensures
            r@ == Seq::<u8>::empty(),
    {
        SysexAssembler { buffer: Vec::new() }
    }

    /// Feeds one chunk; returns the completed frame as soon as the pending
    /// bytes end in the frame-end byte, emptying the assembler.
    pub fn push_chunk(&mut self, chunk: &[u8]) -> (complete: Option<Vec<u8>>)
        ensures
            frame_complete(pending_after(old(self)@, chunk@)) ==> (complete matches Some(v)
                && v@ == pending_after(old(self)@, chunk@) && final(self)@.len() == 0),
            !frame_complete(pending_after(old(self)@, chunk@)) ==> complete is None
                && final(self)@ == pending_after(old(self)@, chunk@),
    {
        let mut start: usize = 0;
        while start < chunk.len() && chunk[start] != SYSEX_START
            invariant
                start <= chunk@.len(),
                forall|j: int| 0 <= j < start ==> chunk@[j] != SYSEX_START,
            decreases chunk@.len() - start,
        {
            start = start + 1;
        }
        if start < chunk.len() {
            proof {
                lemma_find_start_hit(chunk@, start as int);
            }
            let rest = vstd::slice::slice_subrange(chunk, start, chunk.len());
            self.buffer = vstd::slice::slice_to_vec(rest);
        } else {
            proof {
                lemma_find_start_miss(chunk@);
            }
            if self.buffer.len() > 0 {
                let mut tail = vstd::slice::slice_to_vec(chunk);
                self.buffer.append(&mut tail);
            }
        }
        if self.buffer.len() > 0 && self.buffer[self.buffer.len() - 1] == SYSEX_END {
            let out = vstd::slice::slice_to_vec(self.buffer.as_slice());
            self.buffer.clear();
            Some(out)
        } else {
            None
        }
    }
}

/// What a complete frame means to the editor session.
pub enum SysexEvent {
    /// A bank dump that validated and decoded.
    Bank(Storage),
    /// A bank dump frame that failed validation; nothing was adopted.
    BadDump,
    /// The device acknowledged a write.
    WriteOk,
    /// The device rejected a write, with its error code.
    WriteFailed(u8),
    /// A frame for this device with a command the editor does not handle.
    Unknown(u8),
    /// A frame too short for a command, or addressed to another device.
    Ignored,
}

/// Whether a frame is long enough to carry a command and names this
/// vendor and device.
pub open spec fn addressed_here(msg: Seq<u8>) -> bool {
    msg.len() >= 5 && msg[1] == MANUFACTURER_ID && msg[2] == MODEL_ID
}

/// Sorts a complete frame into the event it means: a decoded bank or a
/// rejected dump for a write-request frame, the device's acknowledgement
/// or error for a write reply, and nothing for frames addressed elsewhere.
pub fn classify_sysex(msg: &[u8]) -> (r: SysexEvent)
    ensures
        !addressed_here(msg@) ==> r == SysexEvent::Ignored,
        addressed_here(msg@) && msg@[3] == CMD_WRITE_REQ && frame_ok(msg@) ==> (r matches
            SysexEvent::Bank(s) && s@ == decoded_bank(msg@)),
        addressed_here(msg@) && msg@[3] == CMD_WRITE_REQ && !frame_ok(msg@) ==> r
            == SysexEvent::BadDump,
        addressed_here(msg@) && msg@[3] == CMD_WRITE_SUCCESS ==> r == SysexEvent::WriteOk,
        addressed_here(msg@) && msg@[3] == CMD_WRITE_ERROR ==> r == SysexEvent::WriteFailed(
            msg@[4],
        ),
        addressed_here(msg@) && msg@[3] != CMD_WRITE_REQ && msg@[3] != CMD_WRITE_SUCCESS && msg@[3]
            != CMD_WRITE_ERROR ==> r == SysexEvent::Unknown(msg@[3]),
{
    if msg.len() < 5 || msg[1] != MANUFACTURER_ID || msg[2] != MODEL_ID {
        return SysexEvent::Ignored;
    }
    let cmd = msg[3];
    if cmd == CMD_WRITE_REQ {
        match Storage::from_sysex(msg) {
            Some(bank) => SysexEvent::Bank(bank),
            None => SysexEvent::BadDump,
        }
    } else if cmd == CMD_WRITE_SUCCESS {
        SysexEvent::WriteOk
    } else if cmd == CMD_WRITE_ERROR {
        SysexEvent::WriteFailed(msg[4])
    } else {
        SysexEvent::Unknown(cmd)
    }
}

/// A byte with any ASCII capital folded to its small form.
pub open spec fn ascii_lower(b: u8) -> u8 {
    if 0x41 <= b <= 0x5a {
        (b + 0x20) as u8
    } else {
        b
    }
}

/// A byte string with every ASCII capital folded.
pub open spec fn lower_seq(s: Seq<u8>) -> Seq<u8> {
    s.map_values(|b: u8| ascii_lower(b))
}

/// Whether `needle` occurs in `hay` starting at `i`.
pub open spec fn occurs_at(hay: Seq<u8>, needle: Seq<u8>, i: int) -> bool {
    0 <= i && i + needle.len() <= hay.len() && hay.subrange(i, i + needle.len()) == needle
}

/// Whether a port name contains the pattern, both ASCII case folded; how
/// a port of the device is picked among those a transport enumerates.
pub open spec fn name_matches(name: Seq<u8>, pattern: Seq<u8>) -> bool {
    exists|i: int| #[trigger] occurs_at(lower_seq(name), lower_seq(pattern), i)
}

fn ascii_lower_byte(b: u8) -> (r: u8)
    ensures
        r == ascii_lower(b),
{
    if 0x41 <= b && b <= 0x5a {
        b + 0x20
    } else {
        b
    }
}

/// Decides whether a port name contains the pattern, ignoring ASCII case.
pub fn port_name_matches(name: &[u8], pattern: &[u8]) -> (r: bool)
    ensures
        r == name_matches(name@, pattern@),
{
    let ghost hay = lower_seq(name@);
    let ghost needle = lower_seq(pattern@);
    if pattern.len() == 0 {
        proof {
            assert(hay.subrange(0, 0) =~= needle);
            assert(occurs_at(hay, needle, 0));
        }
        return true;
    }
    if pattern.len() > name.len() {
        proof {
            assert(forall|i: int| !occurs_at(hay, needle, i));
        }
        return false;
    }
    let mut i: usize = 0;
    while i <= name.len() - pattern.len()
        invariant
            1 <= pattern@.len() <= name@.len(),
            i <= name@.len(),
            hay == lower_seq(name@),
            needle == lower_seq(pattern@),
            forall|k: int| 0 <= k < i ==> !occurs_at(hay, needle, k),
        decreases name@.len() - i,
    {
        let mut j: usize = 0;
        let mut matched = true;
        while j < pattern.len()
            invariant
                i + pattern@.len() <= name@.len(),
                name@.len() <= usize::MAX,
                j <= pattern@.len(),
                hay == lower_seq(name@),
                needle == lower_seq(pattern@),
                matched ==> forall|t: int| 0 <= t < j ==> hay[i + t] == needle[t],
                !matched ==> !occurs_at(hay, needle, i as int),
            decreases pattern@.len() - j,
        {
            if matched && ascii_lower_byte(name[i + j]) != ascii_lower_byte(pattern[j]) {
                proof {
                    if occurs_at(hay, needle, i as int) {
                        assert(hay.subrange(i as int, i + needle.len())[j as int] == hay[i + j]);
                    }
                }
                matched = false;
            }
            j = j + 1;
        }
        if matched {
            proof {
                assert(hay.subrange(i as int, i + needle.len()) =~= needle);
                assert(occurs_at(hay, needle, i as int));
            }
            return true;
        }
        i = i + 1;
    }
    proof {
        assert forall|k: int| !occurs_at(hay, needle, k) by {
            if 0 <= k < i {
            } else if k >= i {
                assert(k + needle.len() > hay.len());
            }
        }
    }
    false
}

} // verus!
