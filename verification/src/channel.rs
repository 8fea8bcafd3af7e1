//! Command channel: the unbounded first-in, first-out queue that carries
//! alarm commands from the detector to the actuator.

use vstd::prelude::*;
use std::collections::VecDeque;
use crate::command::AlarmCommand;

verus! {

/// What the channel is, seen from outside: the commands under way, oldest
/// first, and which of its two ends are still there.
pub struct ChannelModel {
    pub queue: Seq<AlarmCommand>,
    pub sender_open: bool,
    pub receiver_open: bool,
}

/// A command that could not be sent, handed back to the sender.
#[derive(Clone, Copy, Debug, PartialEq, Eq, Structural)]
pub struct SendError {
    pub command: AlarmCommand,
}

/// What the consumer finds at its end of the channel.
#[derive(Clone, Copy, Debug, PartialEq, Eq, Structural)]
pub enum Reception {
    /// The oldest command under way.
    Received { command: AlarmCommand },
    /// Nothing is under way, but more may come: the consumer waits.
    Empty,
    /// Nothing is under way and nothing will come: the consumer ends.
    Closed,
}

/// One use of the channel by either side.
pub enum ChannelOp {
    Send { command: AlarmCommand },
    Receive,
}

impl ChannelModel {
    /// The channel as it is made: empty, with both ends there.
    pub open spec fn start() -> ChannelModel {
        ChannelModel { queue: Seq::empty(), sender_open: true, receiver_open: true }
    }

    /// Whether a send is accepted.
    pub open spec fn accepts(self) -> bool {
        self.receiver_open
    }

    /// The channel after `command` was offered to it.
    pub open spec fn after_send(self, command: AlarmCommand) -> ChannelModel {
        if self.accepts() {
            ChannelModel { queue: self.queue.push(command), ..self }
        } else {
            self
        }
    }

    /// What the consumer finds.
    pub open spec fn reception(self) -> Reception {
        if self.queue.len() > 0 {
            Reception::Received { command: self.queue[0] }
        } else if self.sender_open {
            Reception::Empty
        } else {
            Reception::Closed
        }
    }

    /// The channel after the consumer looked into it.
    pub open spec fn after_receive(self) -> ChannelModel {
        if self.queue.len() > 0 {
            ChannelModel { queue: self.queue.drop_first(), ..self }
        } else {
            self
        }
    }

    /// The channel after `op`.
    pub open spec fn after(self, op: ChannelOp) -> ChannelModel {
        match op {
            ChannelOp::Send { command } => self.after_send(command),
            ChannelOp::Receive => self.after_receive(),
        }
    }

    /// The channel after `ops`, in order.
    pub open spec fn after_all(self, ops: Seq<ChannelOp>) -> ChannelModel
        decreases ops.len(),
    {
        if ops.len() == 0 {
            self
        } else {
            self.after_all(ops.drop_last()).after(ops.last())
        }
    }

    /// The commands that the channel accepted in the course of `ops`, in the
    /// order in which they were sent.
    pub open spec fn sent_in(self, ops: Seq<ChannelOp>) -> Seq<AlarmCommand>
        decreases ops.len(),
    {
        if ops.len() == 0 {
            Seq::empty()
        } else {
            let before = self.sent_in(ops.drop_last());
            match ops.last() {
                ChannelOp::Send { command } if self.after_all(ops.drop_last()).accepts() => {
                    before.push(command)
                },
                _ => before,
            }
        }
    }

    /// The commands that the consumer took in the course of `ops`, in the
    /// order in which it took them.
    pub open spec fn received_in(self, ops: Seq<ChannelOp>) -> Seq<AlarmCommand>
        decreases ops.len(),
    {
        if ops.len() == 0 {
            Seq::empty()
        } else {
            let before = self.received_in(ops.drop_last());
            match (ops.last(), self.after_all(ops.drop_last()).reception()) {
                (ChannelOp::Receive, Reception::Received { command }) => before.push(command),
                _ => before,
            }
        }
    }
}

/// The channel. One side sends, the other receives.
pub struct CommandChannel {
    queue: VecDeque<AlarmCommand>,
    sender_open: bool,
    receiver_open: bool,
}

impl View for CommandChannel {
    type V = ChannelModel;

    closed spec fn view(&self) -> ChannelModel {
        ChannelModel {
            queue: self.queue@,
            sender_open: self.sender_open,
            receiver_open: self.receiver_open,
        }
    }
}

impl CommandChannel {
    /// An empty channel with both ends there.
    pub fn new() -> (channel: CommandChannel)
        ensures
            channel@ == ChannelModel::start(),
    {
        CommandChannel { queue: VecDeque::new(), sender_open: true, receiver_open: true }
    }

    /// Puts `command` behind all that are under way. This never waits and
    /// never fails for want of room. It fails if and only if the consumer's
    /// end is gone; the command is then handed back and nothing changes.
    pub fn send(&mut self, command: AlarmCommand) -> (sent: Result<(), SendError>)
        ensures
            final(self)@ == old(self)@.after_send(command),
            sent is Ok <==> old(self)@.accepts(),
            sent matches Err(error) ==> error.command == command,
    {
        if self.receiver_open {
            self.queue.push_back(command);
            Ok(())
        } else {
            Err(SendError { command })
        }
    }

    /// Takes the oldest command under way, if there is one. On an empty
    /// channel it reports whether more may come.
    pub fn receive(&mut self) -> (reception: Reception)
        ensures
            reception == old(self)@.reception(),
            final(self)@ == old(self)@.after_receive(),
    {
        match self.queue.pop_front() {
            Some(command) => {
                assert(self.queue@ =~= old(self).queue@.drop_first());
                Reception::Received { command }
            },
            None => if self.sender_open {
                Reception::Empty
            } else {
                Reception::Closed
            },
        }
    }

    /// Gives up the sending end. What is under way can still be received.
    pub fn close_sender(&mut self)
        ensures
            final(self)@ == (ChannelModel { sender_open: false, ..old(self)@ }),
    {
        self.sender_open = false;
    }

    /// Gives up the receiving end. Every later send fails.
    pub fn close_receiver(&mut self)
        ensures
            final(self)@ == (ChannelModel { receiver_open: false, ..old(self)@ }),
    {
        self.receiver_open = false;
    }

    /// Number of commands under way.
    pub fn len(&self) -> (count: usize)
        ensures
            count == self@.queue.len(),
    {
        self.queue.len()
    }

    /// Whether nothing is under way.
    pub fn is_empty(&self) -> (empty: bool)
        ensures
            empty == (self@.queue.len() == 0),
    {
        self.queue.len() == 0
    }
}

/// First in, first out. From whatever state the channel starts, and
/// whatever the two sides do in whatever order, the commands received,
/// followed by those still under way, are the commands that were under way
/// at the start, followed by those accepted since, in the order in which
/// they were sent: none is lost, none comes twice, none overtakes another.
pub proof fn law_fifo(start: ChannelModel, ops: Seq<ChannelOp>)
    ensures
        start.received_in(ops) + start.after_all(ops).queue == start.queue + start.sent_in(ops),
    decreases ops.len(),
{
    if ops.len() == 0 {
        assert(start.received_in(ops) + start.after_all(ops).queue =~= start.queue
            + start.sent_in(ops));
    } else {
        let earlier = ops.drop_last();
        law_fifo(start, earlier);
        let before = start.after_all(earlier);
        let received = start.received_in(earlier);
        let sent = start.sent_in(earlier);
        assert(received + before.queue == start.queue + sent);
        match ops.last() {
            ChannelOp::Send { command } => {
                if before.accepts() {
                    assert(received + before.queue.push(command) =~= (received
                        + before.queue).push(command));
                    assert(start.queue + sent.push(command) =~= (start.queue + sent).push(
                        command,
                    ));
                }
            },
            ChannelOp::Receive => {
                if before.queue.len() > 0 {
                    assert(received.push(before.queue[0]) + before.queue.drop_first()
                        =~= received + before.queue);
                }
            },
        }
    }
}

/// The commands that `ops` offer to the channel, accepted or not, in order.
pub open spec fn offered_in(ops: Seq<ChannelOp>) -> Seq<AlarmCommand>
    decreases ops.len(),
{
    if ops.len() == 0 {
        Seq::empty()
    } else {
        match ops.last() {
            ChannelOp::Send { command } => offered_in(ops.drop_last()).push(command),
            ChannelOp::Receive => offered_in(ops.drop_last()),
        }
    }
}

/// Sending never fails for want of room: as long as neither end is given
/// up, every command offered is accepted, however many are under way. What
/// the consumer has received, followed by what is under way, is then all
/// that was ever offered.
pub proof fn law_unbounded(ops: Seq<ChannelOp>)
    ensures
        ChannelModel::start().after_all(ops).accepts(),
        ChannelModel::start().sent_in(ops) == offered_in(ops),
        ChannelModel::start().received_in(ops) + ChannelModel::start().after_all(ops).queue
            == offered_in(ops),
    decreases ops.len(),
{
    let start = ChannelModel::start();
    if ops.len() > 0 {
        law_unbounded(ops.drop_last());
    }
    law_fifo(start, ops);
    assert(start.queue + start.sent_in(ops) =~= start.sent_in(ops));
}

} // verus!
