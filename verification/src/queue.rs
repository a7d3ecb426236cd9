//! The bounded command queue between the control context and the render
//! context.
//!
//! The queue is the only coordination primitive between the two contexts,
//! and neither side may block on it: the control side drops a command when
//! the queue is full, and the render side drains only what is already
//! queued. The queue itself comes from the `crossbeam_channel` crate; its
//! two halves are shared with another thread, so what an operation returns
//! depends on what that thread has done meanwhile, and the contracts here
//! promise only what holds of every outcome.

use vstd::prelude::*;

use crate::protocol::Preset;

verus! {

/// A discrete event carried from the control context to the render
/// context.
pub enum Command {
    /// Begin sounding at a frequency, in thousandths of a hertz.
    NoteOn(u32),
    /// Stop sounding.
    NoteOff,
    /// Only continuous knobs changed; the voice graph stands, and the
    /// render side need only take the preset's new glide amount.
    ContinuousUpdate(Box<Preset>),
    /// The preset's structure changed; the voice graph must be rebuilt
    /// from this preset.
    StructuralRebuild(Box<Preset>),
}

#[verifier::external_type_specification]
#[verifier::external_body]
#[verifier::reject_recursive_types(T)]
pub struct ExSender<T>(crossbeam_channel::Sender<T>);

#[verifier::external_type_specification]
#[verifier::external_body]
#[verifier::reject_recursive_types(T)]
pub struct ExReceiver<T>(crossbeam_channel::Receiver<T>);

/// Relies on crossbeam_channel::bounded: a queue holding at most `cap`
/// messages, whose two halves never block. `bounded` panics only on a
/// capacity too large to allocate, and a zero capacity changes it into a
/// rendezvous channel; the bounds keep both away.
#[verifier::external_body]
pub fn command_channel(cap: usize) -> (r: (
    crossbeam_channel::Sender<Command>,
    crossbeam_channel::Receiver<Command>,
))
    requires
        1 <= cap <= 65536,
{
    crossbeam_channel::bounded(cap)
}

/// Relies on crossbeam_channel::Sender::try_send: without blocking, the
/// command is queued and `true` returned, or — when the queue is full or
/// the render side is gone — the command is dropped and `false` returned.
/// Whether there is room depends on the other thread, so nothing more
/// relates the result to the arguments.
#[verifier::external_body]
pub fn try_send_command(sender: &crossbeam_channel::Sender<Command>, cmd: Command) -> (accepted:
    bool) {
    sender.try_send(cmd).is_ok()
}

/// Relies on crossbeam_channel::Receiver::try_recv: without blocking, the
/// oldest queued command, or nothing when the queue is currently empty or
/// disconnected. What is queued depends on the other thread, so nothing
/// more relates the result to the argument.
#[verifier::external_body]
pub fn try_recv_command(receiver: &crossbeam_channel::Receiver<Command>) -> (cmd: Option<Command>) {
    receiver.try_recv().ok()
}

} // verus!
