//! The sampling pipeline's step decisions.
//!
//! Two long-lived roles run concurrently: a reader that pulls one
//! structured sample per cycle from the sampling source and forwards it
//! over a first-in-first-out channel, and a consumer that receives each
//! sample, derives a control command from it, and issues the command to
//! the protocol connection. The blocking calls (the source, the
//! channel, the connection) live outside this library; each role's
//! decision, from the event it saw to what it does next, is a verified
//! function here.

use crate::command::command_of;
use crate::command::derive_command;
use vstd::prelude::*;

verus! {

/// One structured sample, reduced to what the pipeline reads of it: the
/// two analog magnitudes, each in `0 ..= 255` when present.
#[derive(Clone, Copy, Debug, PartialEq, Eq)]
pub struct Sample {
    /// The accelerating magnitude: full scale maps to +3000.
    pub forward: Option<u8>,
    /// The decelerating magnitude: it takes priority whenever present
    /// and non-zero, and full scale maps to -3000.
    pub reverse: Option<u8>,
}

/// The command one sample derives.
pub open spec fn sample_command(s: Sample) -> int {
    command_of(s.forward, s.reverse)
}

/// What the consumer role sees on one turn: a sample was delivered, or
/// the channel's sending side is gone and the channel is drained.
#[derive(Clone, Copy, Debug, PartialEq, Eq)]
pub enum ConsumerEvent {
    Received(Sample),
    Closed,
}

/// What the consumer role does next: issue one command to the protocol
/// connection, or stop cleanly.
#[derive(Clone, Copy, Debug, PartialEq, Eq)]
pub enum ConsumerAction {
    Issue(i32),
    Stop,
}

/// One step of the consumer role: each delivered sample has its command
/// issued, and the closed channel, and nothing else, stops the role.
pub fn consumer_step(e: ConsumerEvent) -> (a: ConsumerAction)
    ensures
        e matches ConsumerEvent::Received(s) ==> (a matches ConsumerAction::Issue(c)
            && c == sample_command(s)),
        a is Stop <==> e is Closed,
{
    match e {
        ConsumerEvent::Received(s) => ConsumerAction::Issue(derive_command(s.forward, s.reverse)),
        ConsumerEvent::Closed => ConsumerAction::Stop,
    }
}

/// What the reader role sees after handing one sample to the channel:
/// the channel took it, or the receiving end has been dropped.
#[derive(Clone, Copy, Debug, PartialEq, Eq)]
pub enum ForwardOutcome {
    Delivered,
    Disconnected,
}

/// Whether a role keeps running.
#[derive(Clone, Copy, Debug, PartialEq, Eq)]
pub enum RoleState {
    Running,
    Stopped,
}

/// One step of the reader role: it stops exactly when the receiving end
/// is gone, silently and without error; while samples are taken it runs on.
pub fn reader_step(f: ForwardOutcome) -> (s: RoleState)
    ensures
        s is Stopped <==> f is Disconnected,
{
    match f {
        ForwardOutcome::Delivered => RoleState::Running,
        ForwardOutcome::Disconnected => RoleState::Stopped,
    }
}

/// The commands a sequence of samples derives, in sample order.
pub open spec fn commands_of(samples: Seq<Sample>) -> Seq<int> {
    samples.map(|i: int, s: Sample| sample_command(s))
}

/// Consume, in order, every sample the channel delivered before it
/// closed. The command stream preserves the sample stream's order:
/// one command per sample, the i-th command derived from the i-th
/// sample, and nothing dropped, duplicated, or reordered.
pub fn consume_in_order(samples: &Vec<Sample>) -> (cmds: Vec<i32>)
    ensures
        cmds@.len() == samples@.len(),
        forall|i: int| 0 <= i < samples@.len() ==> cmds@[i] == commands_of(samples@)[i],
{
    let mut cmds: Vec<i32> = Vec::new();
    let mut k: usize = 0;
    while k < samples.len()
        invariant
            k <= samples@.len(),
            cmds@.len() == k,
            forall|i: int| 0 <= i < k ==> cmds@[i] == sample_command(samples@[i]),
        decreases samples@.len() - k,
    {
        let s = samples[k];
        cmds.push(derive_command(s.forward, s.reverse));
        k = k + 1;
    }
    cmds
}

} // verus!
