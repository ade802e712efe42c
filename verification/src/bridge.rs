//! The bridge: a master on one bus that samples a sensor, and a slave on another that hands the
//! latest sample to whoever reads it.

use vstd::prelude::*;

use crate::bus::{CommandKind, I2cError};

verus! {

/// 7-bit address of the sensor.
pub const SENSOR_ADDR: u8 = 0x48;

/// Register of the sensor that holds the sample.
pub const SENSOR_REG: u8 = 0x00;

/// 7-bit address under which the bridge hands out samples.
pub const EXPORT_SLAVE_ADDR: u8 = 0x42;

/// Number of bytes in a sample.
pub const PAYLOAD_LEN: usize = 2;

/// Room for the bytes of a write, all of which are ignored.
pub const DISCARD_LEN: usize = 16;

/// Pause, in milliseconds, between two samples.
pub const SENSOR_PERIOD_MS: u64 = 500;

/// Pause, in milliseconds, after listening failed.
pub const EXPORT_RETRY_MS: u64 = 100;

/// What has just happened on the sensor's bus.
#[derive(Clone, Copy, Debug, PartialEq, Eq)]
pub enum SensorEvent {
    /// The node was switched on.
    Started,
    /// The read of the sensor ended.
    Sampled(Result<[u8; PAYLOAD_LEN], I2cError>),
    /// The pause is over.
    Waited,
}

/// What to do next on the sensor's bus.
#[derive(Clone, Copy, Debug, PartialEq, Eq, Structural)]
pub enum SensorAction {
    /// Write the single byte `reg` to the device at `addr` and read [`PAYLOAD_LEN`] bytes back.
    WriteRead { addr: u8, reg: u8 },
    /// Pause for so many milliseconds.
    WaitMs(u64),
}

/// What is worth a line in the log about the sensor.
#[derive(Clone, Copy, Debug, PartialEq, Eq)]
pub enum SensorNote {
    /// Nothing.
    Nothing,
    /// A sample was taken.
    Sample([u8; PAYLOAD_LEN]),
    /// The sensor could not be read.
    Failed(I2cError),
}

/// What has just happened on the export bus.
#[derive(Clone, Copy, Debug, PartialEq, Eq)]
pub enum ExportEvent {
    /// The node was switched on.
    Started,
    /// Listening ended: a master addressed this node, or the peripheral failed.
    Listened(Result<CommandKind, I2cError>),
    /// Answering a read with `payload` ended: the number of bytes that the master took.
    Sent { payload: [u8; PAYLOAD_LEN], result: Result<usize, I2cError> },
    /// Taking in a write ended: the number of bytes that came.
    Received(Result<usize, I2cError>),
    /// The pause is over.
    Waited,
}

/// What to do next on the export bus.
#[derive(Clone, Copy, Debug, PartialEq, Eq)]
pub enum ExportAction {
    /// Wait until a master addresses this node.
    Listen,
    /// Send this sample.
    Send([u8; PAYLOAD_LEN]),
    /// Take in what the master writes, at most [`DISCARD_LEN`] bytes of it, and forget it.
    Discard,
    /// Pause for so many milliseconds.
    WaitMs(u64),
}

/// What is worth a line in the log about the export bus.
#[derive(Clone, Copy, Debug, PartialEq, Eq)]
pub enum ExportNote {
    /// Nothing.
    Nothing,
    /// The master took `len` bytes of `payload`.
    Sent { len: usize, payload: [u8; PAYLOAD_LEN] },
    /// A sample could not be sent.
    SendFailed(I2cError),
    /// So many bytes came in and were ignored.
    Ignored(usize),
    /// A write could not be taken in.
    ReceiveFailed(I2cError),
    /// Listening failed.
    ListenFailed(I2cError),
}

/// The latest sample, shared by the two sides of the bridge.
#[derive(Clone, Copy, Debug, PartialEq, Eq)]
pub struct SensorData {
    /// The bytes of the sample, zero before the first.
    pub sample: [u8; PAYLOAD_LEN],
}

/// The latest sample after an event on the sensor's bus.
pub open spec fn sample_after(sample: [u8; PAYLOAD_LEN], event: SensorEvent) -> [u8; PAYLOAD_LEN] {
    match event {
        SensorEvent::Sampled(Ok(taken)) => taken,
        _ => sample,
    }
}

/// What to do on the sensor's bus after an event: one read per period, whether it fails or not.
pub open spec fn sensor_action(event: SensorEvent) -> SensorAction {
    match event {
        SensorEvent::Sampled(_) => SensorAction::WaitMs(SENSOR_PERIOD_MS),
        _ => SensorAction::WriteRead { addr: SENSOR_ADDR, reg: SENSOR_REG },
    }
}

/// What to log about an event on the sensor's bus.
pub open spec fn sensor_note(event: SensorEvent) -> SensorNote {
    match event {
        SensorEvent::Sampled(Ok(taken)) => SensorNote::Sample(taken),
        SensorEvent::Sampled(Err(e)) => SensorNote::Failed(e),
        _ => SensorNote::Nothing,
    }
}

/// What to do on the export bus after an event.
pub open spec fn export_action(sample: [u8; PAYLOAD_LEN], event: ExportEvent) -> ExportAction {
    match event {
        ExportEvent::Listened(Ok(CommandKind::Read)) => ExportAction::Send(sample),
        ExportEvent::Listened(Ok(CommandKind::Write)) => ExportAction::Discard,
        ExportEvent::Listened(Err(_)) => ExportAction::WaitMs(EXPORT_RETRY_MS),
        _ => ExportAction::Listen,
    }
}

/// What to log about an event on the export bus.
pub open spec fn export_note(event: ExportEvent) -> ExportNote {
    match event {
        ExportEvent::Listened(Err(e)) => ExportNote::ListenFailed(e),
        ExportEvent::Sent { payload, result: Ok(len) } => ExportNote::Sent { len, payload },
        ExportEvent::Sent { result: Err(e), .. } => ExportNote::SendFailed(e),
        ExportEvent::Received(Ok(n)) => ExportNote::Ignored(n),
        ExportEvent::Received(Err(e)) => ExportNote::ReceiveFailed(e),
        _ => ExportNote::Nothing,
    }
}

impl SensorData {
    /// The sample before the first one: all zero.
    pub fn new() -> (data: SensorData)
        ensures
            data.sample@ == seq![0u8, 0u8],
    {
        let data = SensorData { sample: [0x00, 0x00] };
        assert(data.sample@ =~= seq![0u8, 0u8]);
        data
    }

    /// Takes in an event on the sensor's bus and says what to do next there and what to log.
    pub fn sensor_master_step(&mut self, event: SensorEvent) -> (next: (SensorAction, SensorNote))
        ensures
            final(self).sample == sample_after(old(self).sample, event),
            next.0 == sensor_action(event),
            next.1 == sensor_note(event),
            event matches SensorEvent::Sampled(Ok(taken)) ==> final(self).sample == taken && next.1
                == SensorNote::Sample(taken),
            event matches SensorEvent::Sampled(Err(e)) ==> final(self).sample == old(self).sample
                && next.1 == SensorNote::Failed(e),
            event is Sampled ==> next.0 == SensorAction::WaitMs(500),
            !(event is Sampled) ==> final(self).sample == old(self).sample && next.0 == (
            SensorAction::WriteRead { addr: 0x48, reg: 0x00 }) && next.1 is Nothing,
    {
        match event {
            SensorEvent::Started | SensorEvent::Waited => (
                SensorAction::WriteRead { addr: SENSOR_ADDR, reg: SENSOR_REG },
                SensorNote::Nothing,
            ),
            SensorEvent::Sampled(Ok(taken)) => {
                self.sample = taken;
                (SensorAction::WaitMs(SENSOR_PERIOD_MS), SensorNote::Sample(taken))
            },
            SensorEvent::Sampled(Err(e)) => (
                SensorAction::WaitMs(SENSOR_PERIOD_MS),
                SensorNote::Failed(e),
            ),
        }
    }

    /// Takes in an event on the export bus and says what to do next there and what to log.
    pub fn export_slave_step(&self, event: ExportEvent) -> (next: (ExportAction, ExportNote))
        ensures
            next.0 == export_action(self.sample, event),
            next.1 == export_note(event),
            event is Started || event is Waited || event is Sent || event is Received ==> next.0
                is Listen,
            event matches ExportEvent::Listened(Ok(CommandKind::Read)) ==> next.0
                == ExportAction::Send(self.sample) && next.1 is Nothing,
            event matches ExportEvent::Listened(Ok(CommandKind::Write)) ==> next.0 is Discard
                && next.1 is Nothing,
            event matches ExportEvent::Listened(Err(e)) ==> next.0 == ExportAction::WaitMs(100)
                && next.1 == ExportNote::ListenFailed(e),
            event matches ExportEvent::Sent { payload, result: Ok(n) } ==> next.1 == (
            ExportNote::Sent { len: n, payload }),
            event matches ExportEvent::Sent { payload, result: Err(e) } ==> next.1
                == ExportNote::SendFailed(e),
            event matches ExportEvent::Received(Ok(n)) ==> next.1 == ExportNote::Ignored(n),
            event matches ExportEvent::Received(Err(e)) ==> next.1 == ExportNote::ReceiveFailed(e),
            event is Started || event is Waited ==> next.1 is Nothing,
    {
        match event {
            ExportEvent::Started | ExportEvent::Waited => (ExportAction::Listen, ExportNote::Nothing),
            ExportEvent::Listened(Ok(CommandKind::Read)) => (
                ExportAction::Send(self.sample),
                ExportNote::Nothing,
            ),
            ExportEvent::Listened(Ok(CommandKind::Write)) => (
                ExportAction::Discard,
                ExportNote::Nothing,
            ),
            ExportEvent::Listened(Err(e)) => (
                ExportAction::WaitMs(EXPORT_RETRY_MS),
                ExportNote::ListenFailed(e),
            ),
            ExportEvent::Sent { payload, result } => {
                let note = match result {
                    Ok(len) => ExportNote::Sent { len, payload },
                    Err(e) => ExportNote::SendFailed(e),
                };
                (ExportAction::Listen, note)
            },
            ExportEvent::Received(result) => {
                let note = match result {
                    Ok(n) => ExportNote::Ignored(n),
                    Err(e) => ExportNote::ReceiveFailed(e),
                };
                (ExportAction::Listen, note)
            },
        }
    }
}

/// The latest sample after a sequence of events on the sensor's bus.
pub open spec fn sample_after_all(
    start: [u8; PAYLOAD_LEN],
    events: Seq<SensorEvent>,
) -> [u8; PAYLOAD_LEN]
    decreases events.len(),
{
    if events.len() == 0 {
        start
    } else {
        sample_after(sample_after_all(start, events.drop_last()), events.last())
    }
}

/// Whether an event brings in a sample.
pub open spec fn is_sample(event: SensorEvent) -> bool {
    event matches SensorEvent::Sampled(Ok(_))
}

/// A read on the export bus is answered with the latest sample that the sensor gave, however many
/// reads of the sensor failed since, and with what there was at the start as long as the sensor
/// has given none (`i == -1`).
pub proof fn law_export_gives_latest_sample(
    start: [u8; PAYLOAD_LEN],
    events: Seq<SensorEvent>,
    i: int,
    read: ExportEvent,
)
    requires
        -1 <= i < events.len(),
        i >= 0 ==> is_sample(events[i]),
        forall|j: int| i < j < events.len() ==> !is_sample(#[trigger] events[j]),
        read == ExportEvent::Listened(Ok(CommandKind::Read)),
    ensures
        i >= 0 ==> (events[i] matches SensorEvent::Sampled(Ok(taken)) && export_action(
            sample_after_all(start, events),
            read,
        ) == ExportAction::Send(taken)),
        i == -1 ==> export_action(sample_after_all(start, events), read) == ExportAction::Send(
            start,
        ),
    decreases events.len(),
{
    if events.len() > 0 && i < events.len() - 1 {
        assert(!is_sample(events[events.len() - 1]));
        law_export_gives_latest_sample(start, events.drop_last(), i, read);
    }
}

/// A failed read of the sensor leaves the sample as it was, and the sensor is read again after the
/// same pause as after a good one.
pub proof fn law_failed_read_keeps_sample(
    sample: [u8; PAYLOAD_LEN],
    e: I2cError,
    taken: [u8; PAYLOAD_LEN],
)
    ensures
        sample_after(sample, SensorEvent::Sampled(Err(e))) == sample,
        sensor_action(SensorEvent::Sampled(Err(e))) == sensor_action(
            SensorEvent::Sampled(Ok(taken)),
        ),
{
}

/// Every sample that the sensor gives is kept, whatever its bytes and whatever was there before,
/// and it is what the next read on the export bus gets.
pub proof fn law_every_sample_kept(sample: [u8; PAYLOAD_LEN], taken: [u8; PAYLOAD_LEN])
    ensures
        sample_after(sample, SensorEvent::Sampled(Ok(taken))) == taken,
        export_action(
            sample_after(sample, SensorEvent::Sampled(Ok(taken))),
            ExportEvent::Listened(Ok(CommandKind::Read)),
        ) == ExportAction::Send(taken),
        sensor_note(SensorEvent::Sampled(Ok(taken))) == SensorNote::Sample(taken),
{
}

/// A sample outlives any sequence of events of which none is a good read of the sensor, and it does
/// not matter what came before it.
pub proof fn law_sample_outlives_failures(
    start: [u8; PAYLOAD_LEN],
    before: Seq<SensorEvent>,
    taken: [u8; PAYLOAD_LEN],
    behind: Seq<SensorEvent>,
)
    requires
        forall|j: int|
            0 <= j < behind.len() ==> match #[trigger] behind[j] {
                SensorEvent::Sampled(result) => result is Err,
                _ => true,
            },
    ensures
        sample_after_all(start, before.push(SensorEvent::Sampled(Ok(taken))) + behind) == taken,
    decreases behind.len(),
{
    let sampled = before.push(SensorEvent::Sampled(Ok(taken)));
    if behind.len() == 0 {
        assert(sampled + behind =~= sampled);
    } else {
        law_sample_outlives_failures(start, before, taken, behind.drop_last());
        assert((sampled + behind).drop_last() =~= sampled + behind.drop_last());
        assert(behind[behind.len() - 1] == (sampled + behind).last());
    }
}

/// The sensor is read at the start and after each pause, and a pause of 500 ms follows each read,
/// good or bad. Nothing but a good read changes the sample.
pub proof fn law_sensor_pace(
    sample: [u8; PAYLOAD_LEN],
    result: Result<[u8; PAYLOAD_LEN], I2cError>,
    e: I2cError,
)
    ensures
        sensor_action(SensorEvent::Started) == (SensorAction::WriteRead { addr: 0x48, reg: 0x00 }),
        sensor_action(SensorEvent::Waited) == (SensorAction::WriteRead { addr: 0x48, reg: 0x00 }),
        sensor_action(SensorEvent::Sampled(result)) == SensorAction::WaitMs(500),
        sample_after(sample, SensorEvent::Started) == sample,
        sample_after(sample, SensorEvent::Waited) == sample,
        sample_after(sample, SensorEvent::Sampled(Err(e))) == sample,
        sensor_note(SensorEvent::Started) is Nothing,
        sensor_note(SensorEvent::Waited) is Nothing,
        sensor_note(SensorEvent::Sampled(Err(e))) == SensorNote::Failed(e),
{
}

/// Whatever the sample, the export side goes back to listening after every answer, every write, the
/// start and every pause; it takes writes in only to drop them, and a failure to listen is followed
/// by a pause of 100 ms.
pub proof fn law_export_keeps_serving(
    sample: [u8; PAYLOAD_LEN],
    payload: [u8; PAYLOAD_LEN],
    result: Result<usize, I2cError>,
    e: I2cError,
)
    ensures
        export_action(sample, ExportEvent::Sent { payload, result }) is Listen,
        export_action(sample, ExportEvent::Received(result)) is Listen,
        export_action(sample, ExportEvent::Started) is Listen,
        export_action(sample, ExportEvent::Waited) is Listen,
        export_action(sample, ExportEvent::Listened(Ok(CommandKind::Write))) is Discard,
        export_action(sample, ExportEvent::Listened(Ok(CommandKind::Read))) == ExportAction::Send(
            sample,
        ),
        export_action(sample, ExportEvent::Listened(Err(e))) == ExportAction::WaitMs(100),
{
}

/// What is logged on the export side: the answer that went and how much of it was taken, the number
/// of bytes that were ignored, or the error.
pub proof fn law_export_logged(
    payload: [u8; PAYLOAD_LEN],
    n: usize,
    e: I2cError,
    kind: CommandKind,
)
    ensures
        export_note(ExportEvent::Sent { payload, result: Ok(n) }) == (ExportNote::Sent {
            len: n,
            payload,
        }),
        export_note(ExportEvent::Sent { payload, result: Err(e) }) == ExportNote::SendFailed(e),
        export_note(ExportEvent::Received(Ok(n))) == ExportNote::Ignored(n),
        export_note(ExportEvent::Received(Err(e))) == ExportNote::ReceiveFailed(e),
        export_note(ExportEvent::Listened(Err(e))) == ExportNote::ListenFailed(e),
        export_note(ExportEvent::Listened(Ok(kind))) is Nothing,
        export_note(ExportEvent::Started) is Nothing,
        export_note(ExportEvent::Waited) is Nothing,
{
}

/// A sequence of events does what its events do one after the other, and the events that bring in a
/// sample are the good reads of the sensor, all of them.
pub proof fn law_sensor_events_in_turn(
    start: [u8; PAYLOAD_LEN],
    events: Seq<SensorEvent>,
    event: SensorEvent,
)
    ensures
        sample_after_all(start, Seq::empty()) == start,
        sample_after_all(start, events.push(event)) == sample_after(
            sample_after_all(start, events),
            event,
        ),
        is_sample(event) <==> (event matches SensorEvent::Sampled(result) && result is Ok),
{
    assert(events.push(event).drop_last() =~= events);
}

} // verus!
