//! The smart-battery slave: a master writes a one-byte command and then, in a transaction of
//! its own, reads the answer to it.

use vstd::prelude::*;

use crate::battery::{law_response_length, response, smbus_battery_fill_response};
use crate::bus::{CommandKind, I2cError};

verus! {

/// 7-bit address of the battery.
pub const SLAVE_ADDR: u8 = 0x0B;

/// Room for the bytes of one write of the master. Only the first byte counts.
pub const RECEIVE_LEN: usize = 4;

/// Room for an answer.
pub const RESPONSE_LEN: usize = 36;

/// Pause, in milliseconds, after listening failed.
pub const LISTEN_RETRY_MS: u64 = 20;

/// Command that a read is taken to be for when none was written since the last read.
pub const NO_COMMAND: u8 = 0x00;

/// The bytes to send to a master that reads.
pub struct Reply {
    payload: [u8; RESPONSE_LEN],
    len: usize,
}

impl View for Reply {
    type V = Seq<u8>;

    closed spec fn view(&self) -> Seq<u8> {
        self.payload@.take(self.len as int)
    }
}

impl Reply {
    #[verifier::type_invariant]
    spec fn well_formed(self) -> bool {
        self.len <= RESPONSE_LEN
    }

    /// The answer to a read of `cmd`.
    pub fn to(cmd: u8) -> (reply: Reply)
        ensures
            reply@ == response(cmd),
    {
        let mut payload = [0u8; RESPONSE_LEN];
        let len: usize = smbus_battery_fill_response(cmd, &mut payload);
        proof {
            law_response_length(cmd);
        }
        let reply = Reply { payload, len };
        assert(reply@ =~= response(cmd));
        reply
    }

    /// The bytes to send.
    pub fn bytes(&self) -> (bytes: &[u8])
        ensures
            bytes@ == self@,
    {
        proof {
            use_type_invariant(self);
        }
        &self.payload[0..self.len]
    }
}

/// What has just happened on the bus, or to the timer.
#[derive(Clone, Copy, Debug, PartialEq, Eq)]
pub enum SlaveEvent {
    /// The node was switched on.
    Started,
    /// Listening ended: a master addressed this node, or the peripheral failed.
    Listened(Result<CommandKind, I2cError>),
    /// Taking in a write ended: the number of bytes that came and the buffer that they are in.
    Received { result: Result<usize, I2cError>, buf: [u8; RECEIVE_LEN] },
    /// Answering a read of `cmd` ended: the number of bytes that the master took.
    Sent { cmd: u8, result: Result<usize, I2cError> },
    /// The pause is over.
    Waited,
}

/// What to do next.
pub enum SlaveAction {
    /// Wait until a master addresses this node.
    Listen,
    /// Take in what the master writes, into a zeroed buffer of [`RECEIVE_LEN`] bytes.
    Receive,
    /// Send the answer to `cmd`.
    Send { cmd: u8, reply: Reply },
    /// Pause for so many milliseconds.
    WaitMs(u64),
}

/// What is worth a line in the log.
#[derive(Clone, Copy, Debug, PartialEq, Eq)]
pub enum SlaveNote {
    /// Nothing.
    Nothing,
    /// A command came in.
    Command(u8),
    /// A write could not be taken in.
    ReceiveFailed(I2cError),
    /// The master gave up before it took a byte of the answer.
    Aborted { cmd: u8 },
    /// The master took `len` bytes of the answer.
    Sent { cmd: u8, len: usize },
    /// An answer could not be sent.
    SendFailed(I2cError),
    /// Nobody polled this node; `last_cmd` is the latest command that ever came.
    Idle { last_cmd: u8 },
    /// Listening failed.
    ListenFailed(I2cError),
}

/// What a slave remembers.
pub struct SlaveModel {
    /// The command that the next read is for.
    pub pending: Option<u8>,
    /// The latest command that ever came, 0 before the first.
    pub last: u8,
}

/// What an action puts on the bus.
pub enum SlaveMove {
    /// Wait to be addressed.
    Listen,
    /// Take in a write.
    Receive,
    /// Send these bytes in answer to `cmd`.
    Send { cmd: u8, bytes: Seq<u8> },
    /// Pause for so many milliseconds.
    WaitMs(u64),
}

impl View for SlaveAction {
    type V = SlaveMove;

    open spec fn view(&self) -> SlaveMove {
        match *self {
            SlaveAction::Listen => SlaveMove::Listen,
            SlaveAction::Receive => SlaveMove::Receive,
            SlaveAction::Send { cmd, reply } => SlaveMove::Send { cmd, bytes: reply@ },
            SlaveAction::WaitMs(ms) => SlaveMove::WaitMs(ms),
        }
    }
}

/// The command that an event brings in: the first byte of a write that is not empty.
pub open spec fn command_of(event: SlaveEvent) -> Option<u8> {
    match event {
        SlaveEvent::Received { result: Ok(n), buf } if n > 0 => Some(buf@[0]),
        _ => None,
    }
}

/// Whether an event is a master asking for an answer.
pub open spec fn is_read(event: SlaveEvent) -> bool {
    event matches SlaveEvent::Listened(Ok(CommandKind::Read))
}

impl SlaveModel {
    /// What a slave remembers when it is switched on.
    pub open spec fn initial() -> SlaveModel {
        SlaveModel { pending: None, last: 0 }
    }

    /// What is remembered after an event: a command replaces what was pending, a read uses it up.
    pub open spec fn after(self, event: SlaveEvent) -> SlaveModel {
        if command_of(event) is Some {
            SlaveModel { pending: command_of(event), last: command_of(event)->0 }
        } else if is_read(event) {
            SlaveModel { pending: None, ..self }
        } else {
            self
        }
    }

    /// What is remembered after a sequence of events.
    pub open spec fn after_all(self, events: Seq<SlaveEvent>) -> SlaveModel
        decreases events.len(),
    {
        if events.len() == 0 {
            self
        } else {
            self.after_all(events.drop_last()).after(events.last())
        }
    }

    /// The command that a read would be for.
    pub open spec fn current(self) -> u8 {
        match self.pending {
            Some(cmd) => cmd,
            None => NO_COMMAND,
        }
    }

    /// What to do about an event. Whatever ends a transfer or a pause leads back to listening.
    pub open spec fn action(self, event: SlaveEvent) -> SlaveMove {
        match event {
            SlaveEvent::Listened(Ok(CommandKind::Write)) => SlaveMove::Receive,
            SlaveEvent::Listened(Ok(CommandKind::Read)) => SlaveMove::Send {
                cmd: self.current(),
                bytes: response(self.current()),
            },
            SlaveEvent::Listened(Err(_)) => SlaveMove::WaitMs(LISTEN_RETRY_MS),
            _ => SlaveMove::Listen,
        }
    }

    /// What to log about an event. A timeout while listening only means that nobody polled.
    pub open spec fn note(self, event: SlaveEvent) -> SlaveNote {
        match event {
            SlaveEvent::Received { result: Ok(n), buf } if n > 0 => SlaveNote::Command(buf@[0]),
            SlaveEvent::Received { result: Err(e), .. } => SlaveNote::ReceiveFailed(e),
            SlaveEvent::Sent { cmd, result: Ok(n) } => if n == 0 {
                SlaveNote::Aborted { cmd }
            } else {
                SlaveNote::Sent { cmd, len: n }
            },
            SlaveEvent::Sent { result: Err(e), .. } => SlaveNote::SendFailed(e),
            SlaveEvent::Listened(Err(e)) => if e == I2cError::Timeout {
                SlaveNote::Idle { last_cmd: self.last }
            } else {
                SlaveNote::ListenFailed(e)
            },
            _ => SlaveNote::Nothing,
        }
    }
}

/// The battery slave between two events.
pub struct Slave {
    pending_cmd: u8,
    cmd_valid: bool,
    last_cmd: u8,
}

impl View for Slave {
    type V = SlaveModel;

    closed spec fn view(&self) -> SlaveModel {
        SlaveModel {
            pending: if self.cmd_valid {
                Some(self.pending_cmd)
            } else {
                None
            },
            last: self.last_cmd,
        }
    }
}

impl Slave {
    /// A slave that has just been switched on.
    pub fn new() -> (slave: Slave)
        ensures
            slave@ == SlaveModel::initial(),
            slave@.pending is None,
            slave@.last == 0,
    {
        Slave { pending_cmd: 0, cmd_valid: false, last_cmd: 0 }
    }

    /// Takes in an event and says what to do next and what to log.
    pub fn i2c_slave_step(&mut self, event: SlaveEvent) -> (next: (SlaveAction, SlaveNote))
        ensures
            final(self)@ == old(self)@.after(event),
            next.0@ == old(self)@.action(event),
            next.1 == old(self)@.note(event),
            event is Started || event is Waited || event is Received || event is Sent ==> next.0
                is Listen,
            event matches SlaveEvent::Listened(Ok(CommandKind::Write)) ==> next.0 is Receive,
            event matches SlaveEvent::Listened(Ok(CommandKind::Read)) ==> {
                &&& next.0 matches SlaveAction::Send { cmd, reply }
                &&& reply@ == response(cmd)
                &&& old(self)@.pending is Some ==> old(self)@.pending == Some(cmd)
                &&& old(self)@.pending is None ==> cmd == 0
                &&& final(self)@.pending is None
                &&& final(self)@.last == old(self)@.last
            },
            event matches SlaveEvent::Listened(Err(e)) ==> {
                &&& next.0 matches SlaveAction::WaitMs(ms)
                &&& ms == 20
                &&& e is Timeout ==> next.1 == (SlaveNote::Idle { last_cmd: old(self)@.last })
                &&& !(e is Timeout) ==> next.1 == SlaveNote::ListenFailed(e)
            },
            event matches SlaveEvent::Received { result: Ok(n), buf } ==> n > 0 ==> {
                &&& final(self)@.pending == Some(buf@[0])
                &&& final(self)@.last == buf@[0]
                &&& next.1 == SlaveNote::Command(buf@[0])
            },
            event matches SlaveEvent::Received { result: Ok(n), buf } ==> n == 0 ==> final(self)@
                == old(self)@ && next.1 is Nothing,
            event matches SlaveEvent::Received { result: Err(e), buf } ==> final(self)@ == old(
                self,
            )@ && next.1 == SlaveNote::ReceiveFailed(e),
            event matches SlaveEvent::Sent { cmd, result: Ok(n) } ==> {
                &&& n == 0 ==> next.1 == (SlaveNote::Aborted { cmd })
                &&& n > 0 ==> next.1 == (SlaveNote::Sent { cmd, len: n })
            },
            event matches SlaveEvent::Sent { cmd, result: Err(e) } ==> next.1
                == SlaveNote::SendFailed(e),
            event is Started || event is Waited || event is Sent ==> final(self)@ == old(self)@,
            event is Started || event is Waited ==> next.1 is Nothing,
            event matches SlaveEvent::Listened(Ok(kind)) ==> next.1 is Nothing,
            event matches SlaveEvent::Listened(result) ==> !(result matches Ok(CommandKind::Read))
                ==> final(self)@ == old(self)@,
    {
        match event {
            SlaveEvent::Started | SlaveEvent::Waited => (SlaveAction::Listen, SlaveNote::Nothing),
            SlaveEvent::Listened(Ok(CommandKind::Write)) => (
                SlaveAction::Receive,
                SlaveNote::Nothing,
            ),
            SlaveEvent::Listened(Ok(CommandKind::Read)) => {
                let cmd: u8 = if self.cmd_valid {
                    self.pending_cmd
                } else {
                    NO_COMMAND
                };
                self.cmd_valid = false;
                (SlaveAction::Send { cmd, reply: Reply::to(cmd) }, SlaveNote::Nothing)
            },
            SlaveEvent::Listened(Err(e)) => {
                let note = match e {
                    I2cError::Timeout => SlaveNote::Idle { last_cmd: self.last_cmd },
                    _ => SlaveNote::ListenFailed(e),
                };
                (SlaveAction::WaitMs(LISTEN_RETRY_MS), note)
            },
            SlaveEvent::Received { result, buf } => {
                let note = match result {
                    Ok(n) => if n > 0 {
                        self.pending_cmd = buf[0];
                        self.cmd_valid = true;
                        self.last_cmd = self.pending_cmd;
                        SlaveNote::Command(self.pending_cmd)
                    } else {
                        SlaveNote::Nothing
                    },
                    Err(e) => SlaveNote::ReceiveFailed(e),
                };
                (SlaveAction::Listen, note)
            },
            SlaveEvent::Sent { cmd, result } => {
                let note = match result {
                    Ok(0) => SlaveNote::Aborted { cmd },
                    Ok(n) => SlaveNote::Sent { cmd, len: n },
                    Err(e) => SlaveNote::SendFailed(e),
                };
                (SlaveAction::Listen, note)
            },
        }
    }
}

/// Whether event `i` is the latest in `events` to bring in a command. For `i == -1`: whether
/// none does.
pub open spec fn latest_command_at(events: Seq<SlaveEvent>, i: int) -> bool {
    &&& -1 <= i < events.len()
    &&& i >= 0 ==> command_of(events[i]) is Some
    &&& forall|j: int| i < j < events.len() ==> command_of(#[trigger] events[j]) is None
}

/// The latest command is remembered, however many reads and failures come after it.
pub proof fn law_latest_command_remembered(start: SlaveModel, events: Seq<SlaveEvent>, i: int)
    requires
        latest_command_at(events, i),
    ensures
        i >= 0 ==> Some(start.after_all(events).last) == command_of(events[i]),
        i == -1 ==> start.after_all(events).last == start.last,
    decreases events.len(),
{
    if events.len() > 0 && i < events.len() - 1 {
        law_latest_command_remembered(start, events.drop_last(), i);
        assert(command_of(events[events.len() - 1]) is None);
    }
}

/// A read is answered with the latest command that was written, provided that no other read came
/// in between. Failures, empty writes and pauses in between do not matter.
pub proof fn law_read_answers_latest_command(
    start: SlaveModel,
    events: Seq<SlaveEvent>,
    i: int,
    read: SlaveEvent,
)
    requires
        latest_command_at(events, i),
        i >= 0,
        forall|j: int| i < j < events.len() ==> !is_read(#[trigger] events[j]),
        is_read(read),
    ensures
        start.after_all(events).action(read) == (SlaveMove::Send {
            cmd: command_of(events[i])->0,
            bytes: response(command_of(events[i])->0),
        }),
{
    lemma_pending_kept(start, events, i);
}

/// A command stays pending until another command or a read comes.
proof fn lemma_pending_kept(start: SlaveModel, events: Seq<SlaveEvent>, i: int)
    requires
        latest_command_at(events, i),
        i >= 0,
        forall|j: int| i < j < events.len() ==> !is_read(#[trigger] events[j]),
    ensures
        start.after_all(events).pending == command_of(events[i]),
    decreases events.len(),
{
    if i < events.len() - 1 {
        assert(command_of(events[events.len() - 1]) is None);
        lemma_pending_kept(start, events.drop_last(), i);
    }
}

/// A read that no command was written for since the read before it, or since the start, is
/// answered with a single zero byte.
pub proof fn law_read_without_command(events: Seq<SlaveEvent>, i: int, read: SlaveEvent)
    requires
        -1 <= i < events.len(),
        i >= 0 ==> is_read(events[i]),
        forall|j: int| i < j < events.len() ==> command_of(#[trigger] events[j]) is None,
        is_read(read),
    ensures
        SlaveModel::initial().after_all(events).action(read) == (SlaveMove::Send {
            cmd: NO_COMMAND,
            bytes: seq![0u8],
        }),
{
    lemma_nothing_pending(events, i);
}

/// After a read, or at the start, nothing is pending until a command comes.
proof fn lemma_nothing_pending(events: Seq<SlaveEvent>, i: int)
    requires
        -1 <= i < events.len(),
        i >= 0 ==> is_read(events[i]),
        forall|j: int| i < j < events.len() ==> command_of(#[trigger] events[j]) is None,
    ensures
        SlaveModel::initial().after_all(events).pending is None,
    decreases events.len(),
{
    if events.len() > 0 && i < events.len() - 1 {
        assert(command_of(events[events.len() - 1]) is None);
        lemma_nothing_pending(events.drop_last(), i);
    }
}

/// Whatever happens, a pending command is the latest command that ever came.
pub proof fn law_pending_is_latest(events: Seq<SlaveEvent>)
    ensures
        SlaveModel::initial().after_all(events).pending is Some ==> SlaveModel::initial().after_all(
            events,
        ).pending == Some(SlaveModel::initial().after_all(events).last),
    decreases events.len(),
{
    if events.len() > 0 {
        law_pending_is_latest(events.drop_last());
    }
}

/// A failed or empty transfer leaves what is remembered as it was.
pub proof fn law_failures_change_nothing(model: SlaveModel, event: SlaveEvent)
    requires
        match event {
            SlaveEvent::Listened(result) => result is Err,
            SlaveEvent::Received { result, .. } => result is Err || result == Ok::<usize, I2cError>(0),
            SlaveEvent::Sent { .. } => true,
            _ => false,
        },
    ensures
        model.after(event) == model,
{
}

/// Whatever the slave remembers, a master that wants to write is let write, and whatever ends a
/// transfer or a pause is followed by listening.
pub proof fn law_slave_keeps_serving(
    model: SlaveModel,
    sent: u8,
    result: Result<usize, I2cError>,
    buf: [u8; RECEIVE_LEN],
)
    ensures
        model.action(SlaveEvent::Listened(Ok(CommandKind::Write))) is Receive,
        model.after(SlaveEvent::Listened(Ok(CommandKind::Write))) == model,
        model.action(SlaveEvent::Received { result, buf }) is Listen,
        model.action(SlaveEvent::Sent { cmd: sent, result }) is Listen,
        model.after(SlaveEvent::Sent { cmd: sent, result }) == model,
        model.action(SlaveEvent::Started) is Listen,
        model.after(SlaveEvent::Started) == model,
        model.action(SlaveEvent::Waited) is Listen,
        model.after(SlaveEvent::Waited) == model,
{
}

/// Whatever the slave remembers, each failure to listen is followed by a pause of 20 ms, and costs
/// nothing of what is remembered. Only a timeout is taken for idleness.
pub proof fn law_listen_failure_pauses(model: SlaveModel, e: I2cError)
    ensures
        model.action(SlaveEvent::Listened(Err(e))) == SlaveMove::WaitMs(20),
        model.after(SlaveEvent::Listened(Err(e))) == model,
        e is Timeout ==> model.note(SlaveEvent::Listened(Err(e))) == (SlaveNote::Idle {
            last_cmd: model.last,
        }),
        !(e is Timeout) ==> model.note(SlaveEvent::Listened(Err(e))) == SlaveNote::ListenFailed(e),
{
}

/// One poll, from any state: the first byte of a write of at least one byte is the command that the
/// next read is answered for. A read after that one, with no write in between, is answered with a
/// zero byte, and so is every further one.
pub proof fn law_poll(model: SlaveModel, n: usize, buf: [u8; RECEIVE_LEN])
    requires
        n > 0,
    ensures
        ({
            let read = SlaveEvent::Listened(Ok(CommandKind::Read));
            let told = model.after(SlaveEvent::Received { result: Ok(n), buf });
            &&& told.action(read) == (SlaveMove::Send { cmd: buf@[0], bytes: response(buf@[0]) })
            &&& told.last == buf@[0]
            &&& told.after(read).last == buf@[0]
            &&& told.after(read).action(read) == (SlaveMove::Send { cmd: 0, bytes: seq![0u8] })
            &&& told.after(read).after(read) == told.after(read)
        }),
{
}

/// A write that brought no byte, or that failed, is as if it had not been: a read is answered as it
/// would have been without it.
pub proof fn law_empty_write_is_nothing(model: SlaveModel, e: I2cError, buf: [u8; RECEIVE_LEN])
    ensures
        model.after(SlaveEvent::Received { result: Ok(0), buf }) == model,
        model.after(SlaveEvent::Received { result: Err(e), buf }) == model,
{
}

/// What is logged about a transfer: the command that came, the answer that went and how much of it
/// was taken, or the error.
pub proof fn law_transfers_logged(
    model: SlaveModel,
    n: usize,
    e: I2cError,
    cmd: u8,
    buf: [u8; RECEIVE_LEN],
)
    ensures
        n > 0 ==> model.note(SlaveEvent::Received { result: Ok(n), buf }) == SlaveNote::Command(
            buf@[0],
        ),
        n == 0 ==> model.note(SlaveEvent::Received { result: Ok(n), buf }) is Nothing,
        model.note(SlaveEvent::Received { result: Err(e), buf }) == SlaveNote::ReceiveFailed(e),
        n > 0 ==> model.note(SlaveEvent::Sent { cmd, result: Ok(n) }) == (SlaveNote::Sent {
            cmd,
            len: n,
        }),
        n == 0 ==> model.note(SlaveEvent::Sent { cmd, result: Ok(n) }) == (SlaveNote::Aborted {
            cmd,
        }),
        model.note(SlaveEvent::Sent { cmd, result: Err(e) }) == SlaveNote::SendFailed(e),
{
}

/// The events that bring in a command are the writes of at least one byte, and those that use it up
/// are the reads.
pub proof fn law_commands_and_reads(event: SlaveEvent)
    ensures
        command_of(event) is Some <==> (event matches SlaveEvent::Received { result: Ok(n), buf }
            && n > 0),
        event matches SlaveEvent::Received { result: Ok(n), buf } ==> n > 0 ==> command_of(event)
            == Some(buf@[0]),
        is_read(event) <==> event == SlaveEvent::Listened(Ok(CommandKind::Read)),
{
}

/// A sequence of events does what its events do one after the other.
pub proof fn law_events_in_turn(model: SlaveModel, events: Seq<SlaveEvent>, event: SlaveEvent)
    ensures
        model.after_all(Seq::empty()) == model,
        model.after_all(events.push(event)) == model.after_all(events).after(event),
{
    assert(events.push(event).drop_last() =~= events);
}

/// Nothing is pending when the slave is switched on, and no command has come.
pub proof fn law_initially_nothing()
    ensures
        SlaveModel::initial().pending is None,
        SlaveModel::initial().last == 0,
{
}

} // verus!
