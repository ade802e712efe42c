//! The battery reader: a master that polls a smart battery, one word after the other.
//!
//! Each word takes a write of the register and, after a stop condition and a pause, a read.

use vstd::prelude::*;

use crate::battery::{
    response, word_register, CMD_CURRENT, CMD_FULL, CMD_REMAINING, CMD_SERIAL, CMD_SOC,
    CMD_TEMP, CMD_VOLTAGE,
};
use crate::bus::I2cError;
use crate::slave::{command_of, is_read, SlaveEvent, SlaveModel};
use crate::wire::{law_word_round_trip, word_from_bytes, word_value};

verus! {

/// 7-bit address of the battery.
pub const BATTERY_ADDR: u8 = 0x0B;

/// Pause, in microseconds, between the write of a register and the read of it, for the battery
/// to get its answer ready.
pub const T_WRITE_READ_US: u64 = 500;

/// Pause, in milliseconds, after the start, for the battery to boot and release the bus.
pub const BOOT_MS: u64 = 200;

/// Pause, in milliseconds, between two rounds.
pub const ROUND_MS: u64 = 1000;

/// Number of words in a round.
pub const ROUND_WORDS: usize = 7;

/// Zero degrees Celsius, in tenths of a kelvin.
pub const ZERO_CELSIUS: i32 = 2731;

/// What one round tells about the battery.
#[derive(Clone, Copy, Debug, PartialEq, Eq, Structural)]
pub struct BatterySample {
    /// Voltage in millivolts.
    pub voltage_mv: u16,
    /// Current in milliamperes, negative while discharging.
    pub current_ma: i16,
    /// Temperature in tenths of a degree Celsius.
    pub temp_c: i16,
    /// State of charge in percent.
    pub soc_percent: u8,
    /// Remaining capacity in milliampere hours.
    pub remaining_mah: u16,
    /// Capacity when full in milliampere hours.
    pub full_mah: u16,
    /// Serial number.
    pub serial: u16,
}

/// The registers of a round, in the order in which they are read.
pub open spec fn round_registers() -> Seq<u8> {
    seq![
        CMD_VOLTAGE,
        CMD_CURRENT,
        CMD_TEMP,
        CMD_SOC,
        CMD_REMAINING,
        CMD_FULL,
        CMD_SERIAL,
    ]
}

/// The number in the range of `i16` that is equal to `n` modulo 2^16.
pub open spec fn wrapped_i16(n: int) -> int {
    (n + 0x8000) % 0x1_0000 - 0x8000
}

/// The sample that the words of a round stand for.
pub open spec fn sample_of(words: Seq<u16>) -> BatterySample {
    BatterySample {
        voltage_mv: words[0],
        current_ma: wrapped_i16(words[1] as int) as i16,
        temp_c: wrapped_i16(words[2] - ZERO_CELSIUS) as i16,
        soc_percent: (words[3] % 256) as u8,
        remaining_mah: words[4],
        full_mah: words[5],
        serial: words[6],
    }
}

/// The register of word number `i` of a round.
fn round_register(i: usize) -> (reg: u8)
    requires
        i < ROUND_WORDS,
    ensures
        reg == round_registers()[i as int],
{
    match i {
        0 => CMD_VOLTAGE,
        1 => CMD_CURRENT,
        2 => CMD_TEMP,
        3 => CMD_SOC,
        4 => CMD_REMAINING,
        5 => CMD_FULL,
        _ => CMD_SERIAL,
    }
}

/// Puts the words of a round together.
pub fn battery_sample(words: &[u16; ROUND_WORDS]) -> (sample: BatterySample)
    ensures
        sample == sample_of(words@),
        sample.voltage_mv == words@[0],
        words@[1] < 0x8000 ==> sample.current_ma == words@[1],
        words@[1] >= 0x8000 ==> sample.current_ma == words@[1] - 0x1_0000,
        words@[2] <= 35498 ==> sample.temp_c == words@[2] - 2731,
        words@[2] > 35498 ==> sample.temp_c == words@[2] - 2731 - 0x1_0000,
        sample.soc_percent == words@[3] % 256,
        sample.remaining_mah == words@[4],
        sample.full_mah == words@[5],
        sample.serial == words@[6],
{
    let current_raw: u16 = words[1];
    let temp_raw: u16 = words[2];
    let soc_raw: u16 = words[3];
    let temp: i32 = temp_raw as i32 - ZERO_CELSIUS;
    assert(current_raw as i16 == (current_raw + 0x8000) % 0x1_0000 - 0x8000) by (bit_vector);
    assert(temp as i16 == (temp + 0x8000) % 0x1_0000 - 0x8000) by (bit_vector)
        requires
            -2731 <= temp <= 62804,
    ;
    assert(soc_raw as u8 == soc_raw % 256) by (bit_vector);
    BatterySample {
        voltage_mv: words[0],
        current_ma: #[verifier::truncate] (current_raw as i16),
        temp_c: #[verifier::truncate] (temp as i16),
        soc_percent: #[verifier::truncate] (soc_raw as u8),
        remaining_mah: words[4],
        full_mah: words[5],
        serial: words[6],
    }
}

/// The magnitude of a number.
pub open spec fn magnitude(n: int) -> int {
    if n < 0 {
        -n
    } else {
        n
    }
}

/// Tenths of a degree split into whole degrees, rounded toward zero, and a digit of tenths.
pub open spec fn temperature_parts(temp: int) -> (int, int) {
    (
        if temp < 0 {
            -(magnitude(temp) / 10)
        } else {
            temp / 10
        },
        magnitude(temp) % 10,
    )
}

impl BatterySample {
    /// The temperature as it is logged: whole degrees, rounded toward zero, and the tenths.
    pub fn temp_parts(&self) -> (parts: (i16, u8))
        ensures
            parts.0 == temperature_parts(self.temp_c as int).0,
            parts.1 == temperature_parts(self.temp_c as int).1,
            0 <= parts.1 < 10,
            self.temp_c >= 0 ==> 10 * parts.0 + parts.1 == self.temp_c,
            self.temp_c < 0 ==> 10 * parts.0 - parts.1 == self.temp_c,
    {
        let t: i32 = self.temp_c as i32;
        if t < 0 {
            let size: i32 = -t;
            (-(size / 10) as i16, (size % 10) as u8)
        } else {
            ((t / 10) as i16, (t % 10) as u8)
        }
    }
}

/// What has just happened on the bus, or to the timer.
#[derive(Clone, Copy, Debug, PartialEq, Eq)]
pub enum ReaderEvent {
    /// The node was switched on.
    Started,
    /// The pause after the start, or between two rounds, is over.
    Rested,
    /// The write of a register ended.
    Written(Result<(), I2cError>),
    /// The pause between a write and the read that belongs to it is over.
    Settled,
    /// The read of a register ended.
    ReadBack(Result<[u8; 2], I2cError>),
}

/// What to do next.
#[derive(Clone, Copy, Debug, PartialEq, Eq, Structural)]
pub enum ReaderAction {
    /// Pause for so many milliseconds.
    WaitMs(u64),
    /// Write the single byte `reg` to the device at `addr`, up to the stop condition.
    Write { addr: u8, reg: u8 },
    /// Pause for so many microseconds.
    WaitUs(u64),
    /// Read two bytes from the device at `addr`.
    Read { addr: u8 },
}

/// What is worth a line in the log.
#[derive(Clone, Copy, Debug, PartialEq, Eq, Structural)]
pub enum ReaderNote {
    /// Nothing.
    Nothing,
    /// A round is complete.
    Battery(BatterySample),
    /// A round had to be given up.
    Failed(I2cError),
}

/// What a reader remembers: the words of the round that is under way.
#[verifier::ext_equal]
pub struct ReaderModel {
    pub words: Seq<u16>,
}

impl ReaderModel {
    /// What a reader remembers between two rounds.
    pub open spec fn empty() -> ReaderModel {
        ReaderModel { words: Seq::empty() }
    }

    /// The words of the round once the word in `buf` has joined them.
    pub open spec fn with(self, buf: [u8; 2]) -> Seq<u16> {
        self.words.push(word_value(buf@) as u16)
    }

    /// What is remembered after an event. A failure drops the words of the round, and so does
    /// the completion of it.
    pub open spec fn after(self, event: ReaderEvent) -> ReaderModel {
        match event {
            ReaderEvent::Written(Ok(_)) => self,
            ReaderEvent::Settled => self,
            ReaderEvent::ReadBack(Ok(buf)) if self.with(buf).len() < ROUND_WORDS => ReaderModel {
                words: self.with(buf),
            },
            _ => ReaderModel::empty(),
        }
    }

    /// What is remembered after a sequence of events.
    pub open spec fn after_all(self, events: Seq<ReaderEvent>) -> ReaderModel
        decreases events.len(),
    {
        if events.len() == 0 {
            self
        } else {
            self.after_all(events.drop_last()).after(events.last())
        }
    }

    /// What to do about an event. A failure ends the round: nothing more is asked of the battery
    /// before the pause is over.
    pub open spec fn action(self, event: ReaderEvent) -> ReaderAction {
        match event {
            ReaderEvent::Started => ReaderAction::WaitMs(BOOT_MS),
            ReaderEvent::Rested => ReaderAction::Write {
                addr: BATTERY_ADDR,
                reg: round_registers()[0],
            },
            ReaderEvent::Written(Ok(_)) => ReaderAction::WaitUs(T_WRITE_READ_US),
            ReaderEvent::Settled => ReaderAction::Read { addr: BATTERY_ADDR },
            ReaderEvent::ReadBack(Ok(buf)) if self.with(buf).len() < ROUND_WORDS =>
                ReaderAction::Write {
                addr: BATTERY_ADDR,
                reg: round_registers()[self.with(buf).len() as int],
            },
            _ => ReaderAction::WaitMs(ROUND_MS),
        }
    }

    /// What to log about an event.
    pub open spec fn note(self, event: ReaderEvent) -> ReaderNote {
        match event {
            ReaderEvent::Written(Err(e)) => ReaderNote::Failed(e),
            ReaderEvent::ReadBack(Err(e)) => ReaderNote::Failed(e),
            ReaderEvent::ReadBack(Ok(buf)) if self.with(buf).len() == ROUND_WORDS =>
                ReaderNote::Battery(sample_of(self.with(buf))),
            _ => ReaderNote::Nothing,
        }
    }
}

/// The battery reader between two events.
pub struct BatteryReader {
    words: [u16; ROUND_WORDS],
    count: usize,
}

impl View for BatteryReader {
    type V = ReaderModel;

    closed spec fn view(&self) -> ReaderModel {
        ReaderModel { words: self.words@.take(self.count as int) }
    }
}

impl BatteryReader {
    #[verifier::type_invariant]
    spec fn well_formed(self) -> bool {
        self.count < ROUND_WORDS
    }

    /// A reader that has just been switched on.
    pub fn new() -> (reader: BatteryReader)
        ensures
            reader@ == ReaderModel::empty(),
            reader@.words.len() == 0,
    {
        let reader = BatteryReader { words: [0u16; ROUND_WORDS], count: 0 };
        assert(reader@ =~= ReaderModel::empty());
        reader
    }

    /// Forgets the words of the round.
    fn drop_round(&mut self)
        ensures
            final(self)@ == ReaderModel::empty(),
    {
        self.count = 0;
        assert(self@ =~= ReaderModel::empty());
    }

    /// Takes in an event and says what to do next and what to log.
    pub fn battery_reader_step(&mut self, event: ReaderEvent) -> (next: (ReaderAction, ReaderNote))
        ensures
            final(self)@ == old(self)@.after(event),
            final(self)@.words.len() < ROUND_WORDS,
            next.0 == old(self)@.action(event),
            next.1 == old(self)@.note(event),
            event is Started ==> final(self)@.words.len() == 0 && next.0 == ReaderAction::WaitMs(200)
                && next.1 is Nothing,
            event is Rested ==> final(self)@.words.len() == 0 && next.0 == (ReaderAction::Write {
                addr: 0x0B,
                reg: 0x09,
            }) && next.1 is Nothing,
            event matches ReaderEvent::Written(Ok(_)) ==> final(self)@.words == old(self)@.words
                && next.0 == ReaderAction::WaitUs(500) && next.1 is Nothing,
            event is Settled ==> final(self)@.words == old(self)@.words && next.0 == (
            ReaderAction::Read { addr: 0x0B }) && next.1 is Nothing,
            event matches ReaderEvent::Written(Err(e)) ==> final(self)@.words.len() == 0 && next.0
                == ReaderAction::WaitMs(1000) && next.1 == ReaderNote::Failed(e),
            event matches ReaderEvent::ReadBack(Err(e)) ==> final(self)@.words.len() == 0 && next.0
                == ReaderAction::WaitMs(1000) && next.1 == ReaderNote::Failed(e),
            event matches ReaderEvent::ReadBack(Ok(buf)) ==> old(self)@.words.len() < 6 ==> {
                &&& final(self)@.words.len() == old(self)@.words.len() + 1
                &&& final(self)@.words.drop_last() == old(self)@.words
                &&& final(self)@.words.last() == buf@[0] + 256 * buf@[1]
                &&& next.0 == (ReaderAction::Write {
                    addr: 0x0B,
                    reg: seq![
                        0x0Au8,
                        0x08u8,
                        0x0Du8,
                        0x0Fu8,
                        0x10u8,
                        0x1Cu8,
                    ][old(self)@.words.len() as int],
                })
                &&& next.1 is Nothing
            },
            event matches ReaderEvent::ReadBack(Ok(buf)) ==> old(self)@.words.len() >= 6 ==> {
                &&& final(self)@.words.len() == 0
                &&& next.0 == ReaderAction::WaitMs(1000)
                &&& next.1 matches ReaderNote::Battery(sample)
                &&& sample.voltage_mv == old(self)@.words[0]
                &&& (sample.current_ma - old(self)@.words[1]) % 0x1_0000 == 0
                &&& (sample.temp_c + 2731 - old(self)@.words[2]) % 0x1_0000 == 0
                &&& sample.soc_percent == old(self)@.words[3] % 256
                &&& sample.remaining_mah == old(self)@.words[4]
                &&& sample.full_mah == old(self)@.words[5]
                &&& sample.serial == buf@[0] + 256 * buf@[1]
            },
    {
        proof {
            use_type_invariant(&*self);
        }
        match event {
            ReaderEvent::Started => {
                self.drop_round();
                (ReaderAction::WaitMs(BOOT_MS), ReaderNote::Nothing)
            },
            ReaderEvent::Rested => {
                self.drop_round();
                (
                    ReaderAction::Write { addr: BATTERY_ADDR, reg: round_register(0) },
                    ReaderNote::Nothing,
                )
            },
            ReaderEvent::Written(Ok(_)) => (
                ReaderAction::WaitUs(T_WRITE_READ_US),
                ReaderNote::Nothing,
            ),
            ReaderEvent::Settled => (
                ReaderAction::Read { addr: BATTERY_ADDR },
                ReaderNote::Nothing,
            ),
            ReaderEvent::ReadBack(Ok(buf)) => self.take_word(buf),
            ReaderEvent::Written(Err(e)) => {
                self.drop_round();
                (ReaderAction::WaitMs(ROUND_MS), ReaderNote::Failed(e))
            },
            ReaderEvent::ReadBack(Err(e)) => {
                self.drop_round();
                (ReaderAction::WaitMs(ROUND_MS), ReaderNote::Failed(e))
            },
        }
    }

    /// Adds a word to the round and goes on with the next register, or completes the round.
    fn take_word(&mut self, buf: [u8; 2]) -> (next: (ReaderAction, ReaderNote))
        ensures
            final(self)@ == old(self)@.after(ReaderEvent::ReadBack(Ok(buf))),
            final(self)@.words.len() < ROUND_WORDS,
            next.0 == old(self)@.action(ReaderEvent::ReadBack(Ok(buf))),
            next.1 == old(self)@.note(ReaderEvent::ReadBack(Ok(buf))),
    {
        proof {
            use_type_invariant(&*self);
        }
        let ghost collected = self@.with(buf);
        let count: usize = self.count;
        let mut words: [u16; ROUND_WORDS] = self.words;
        words[count] = word_from_bytes(buf);
        assert(words@.take(count + 1) =~= collected);
        if count + 1 < ROUND_WORDS {
            *self = BatteryReader { words, count: count + 1 };
            (
                ReaderAction::Write { addr: BATTERY_ADDR, reg: round_register(count + 1) },
                ReaderNote::Nothing,
            )
        } else {
            self.drop_round();
            assert(words@ =~= collected);
            (ReaderAction::WaitMs(ROUND_MS), ReaderNote::Battery(battery_sample(&words)))
        }
    }
}

/// The words that the bytes read in a round stand for.
pub open spec fn words_of(bufs: Seq<[u8; 2]>) -> Seq<u16> {
    bufs.map_values(|buf: [u8; 2]| word_value(buf@) as u16)
}

/// What happens in a round in which nothing fails, up to the word in the last of `bufs`.
pub open spec fn round_events(bufs: Seq<[u8; 2]>) -> Seq<ReaderEvent>
    decreases bufs.len(),
{
    if bufs.len() == 0 {
        seq![ReaderEvent::Rested]
    } else {
        round_events(bufs.drop_last()).push(ReaderEvent::Written(Ok(()))).push(
            ReaderEvent::Settled,
        ).push(ReaderEvent::ReadBack(Ok(bufs.last())))
    }
}

/// What is remembered just before the last event of such a round.
pub open spec fn round_before_last(start: ReaderModel, bufs: Seq<[u8; 2]>) -> ReaderModel {
    start.after_all(round_events(bufs).drop_last())
}

/// As long as nothing fails the words of a round are collected in the order in which they were
/// read, whatever came before the round.
pub proof fn law_round_collects(start: ReaderModel, bufs: Seq<[u8; 2]>)
    requires
        bufs.len() < ROUND_WORDS,
    ensures
        start.after_all(round_events(bufs)).words == words_of(bufs),
    decreases bufs.len(), 1int,
{
    if bufs.len() > 0 {
        lemma_before_last(start, bufs);
    }
    assert(start.after_all(round_events(bufs)).words =~= words_of(bufs));
}

/// Before the last word of a round comes in, the words before it have been collected.
proof fn lemma_before_last(start: ReaderModel, bufs: Seq<[u8; 2]>)
    requires
        0 < bufs.len() <= ROUND_WORDS,
    ensures
        round_before_last(start, bufs).words == words_of(bufs.drop_last()),
        round_events(bufs).last() == ReaderEvent::ReadBack(Ok(bufs.last())),
        round_before_last(start, bufs).with(bufs.last()) == words_of(bufs),
    decreases bufs.len(), 0int,
{
    let inner = round_events(bufs.drop_last());
    let written = inner.push(ReaderEvent::Written(Ok(())));
    let settled = written.push(ReaderEvent::Settled);
    law_round_collects(start, bufs.drop_last());
    assert(round_events(bufs).drop_last() =~= settled);
    assert(settled.drop_last() =~= written);
    assert(written.drop_last() =~= inner);
    assert(start.after_all(written) == start.after_all(inner));
    assert(start.after_all(settled) == start.after_all(written));
    assert(round_before_last(start, bufs).with(bufs.last()) =~= words_of(bufs));
}

/// In a round in which nothing fails, each word is followed by a write of the next register, the
/// write by a pause, and the pause by a read.
pub proof fn law_round_asks_in_order(start: ReaderModel, bufs: Seq<[u8; 2]>)
    requires
        bufs.len() < ROUND_WORDS,
    ensures
        round_before_last(start, bufs).action(round_events(bufs).last()) == (ReaderAction::Write {
            addr: BATTERY_ADDR,
            reg: round_registers()[bufs.len() as int],
        }),
        start.after_all(round_events(bufs)).action(ReaderEvent::Written(Ok(())))
            == ReaderAction::WaitUs(T_WRITE_READ_US),
        start.after_all(round_events(bufs)).after(ReaderEvent::Written(Ok(()))).action(
            ReaderEvent::Settled,
        ) == (ReaderAction::Read { addr: BATTERY_ADDR }),
{
    if bufs.len() > 0 {
        lemma_before_last(start, bufs);
    }
}

/// The last word of a round in which nothing fails completes the sample. Then the reader pauses
/// and starts afresh.
pub proof fn law_round_completes(start: ReaderModel, bufs: Seq<[u8; 2]>)
    requires
        bufs.len() == ROUND_WORDS,
    ensures
        round_before_last(start, bufs).note(round_events(bufs).last()) == ReaderNote::Battery(
            sample_of(words_of(bufs)),
        ),
        round_before_last(start, bufs).action(round_events(bufs).last()) == ReaderAction::WaitMs(
            ROUND_MS,
        ),
        start.after_all(round_events(bufs)) == ReaderModel::empty(),
{
    lemma_before_last(start, bufs);
}

/// A failed transfer ends the round: it is reported, the words so far are dropped, and the
/// battery is left alone until the pause is over.
pub proof fn law_failure_ends_round(model: ReaderModel, e: I2cError, event: ReaderEvent)
    requires
        event == ReaderEvent::Written(Err(e)) || event == ReaderEvent::ReadBack(Err(e)),
    ensures
        model.note(event) == ReaderNote::Failed(e),
        model.action(event) == ReaderAction::WaitMs(ROUND_MS),
        model.after(event) == ReaderModel::empty(),
{
}

/// Every round starts with the first register and no words, whatever came before it.
pub proof fn law_round_starts_over(model: ReaderModel)
    ensures
        model.after(ReaderEvent::Rested) == ReaderModel::empty(),
        model.action(ReaderEvent::Rested) == (ReaderAction::Write {
            addr: BATTERY_ADDR,
            reg: CMD_VOLTAGE,
        }),
{
}

/// Whatever happens, the words of a round that is under way are fewer than a round has.
pub proof fn law_round_stays_short(events: Seq<ReaderEvent>)
    ensures
        ReaderModel::empty().after_all(events).words.len() < ROUND_WORDS,
    decreases events.len(),
{
    if events.len() > 0 {
        law_round_stays_short(events.drop_last());
    }
}

/// The current is the two's complement reading of its word.
pub proof fn law_current_is_signed(words: Seq<u16>)
    requires
        words.len() == ROUND_WORDS,
    ensures
        words[1] < 0x8000 ==> sample_of(words).current_ma == words[1],
        words[1] >= 0x8000 ==> sample_of(words).current_ma == words[1] - 0x1_0000,
{
}

/// The temperature is exact for every word that stands for one in the range of the sample.
pub proof fn law_temperature_exact(words: Seq<u16>)
    requires
        words.len() == ROUND_WORDS,
        words[2] - ZERO_CELSIUS <= i16::MAX,
    ensures
        sample_of(words).temp_c == words[2] - ZERO_CELSIUS,
{
}

/// The state of charge is exact for every percentage.
pub proof fn law_soc_exact(words: Seq<u16>)
    requires
        words.len() == ROUND_WORDS,
        words[3] <= u8::MAX,
    ensures
        sample_of(words).soc_percent == words[3],
{
}

/// The parts of a temperature give back its magnitude, and the whole degrees carry its sign
/// wherever there are any.
pub proof fn law_temperature_parts(temp: i16)
    ensures
        magnitude(temperature_parts(temp as int).0) * 10 + temperature_parts(temp as int).1
            == magnitude(temp as int),
        0 <= temperature_parts(temp as int).1 < 10,
        temperature_parts(temp as int).0 > 0 ==> temp > 0,
        temperature_parts(temp as int).0 < 0 ==> temp < 0,
{
}

/// Reading a register of the battery slave over the bus gives the word that the register holds:
/// after the reader's write of `reg`, the slave answers the read with two bytes that stand for it.
pub proof fn law_reader_meets_slave(
    slave: SlaveModel,
    reg: u8,
    write: SlaveEvent,
    read: SlaveEvent,
)
    requires
        word_register(reg) is Some,
        command_of(write) == Some(reg),
        is_read(read),
    ensures
        slave.after(write).action(read) is Send,
        slave.after(write).action(read)->bytes.len() == 2,
        Some(word_value(slave.after(write).action(read)->bytes) as u16)
            == word_register(reg),
{
}

/// The battery slave holds a word in every register that a round reads.
pub proof fn law_round_registers_are_words(i: int)
    requires
        0 <= i < ROUND_WORDS,
    ensures
        word_register(round_registers()[i]) is Some,
{
}

/// A round in which the battery slave gave every answer reports the words of its registers,
/// decoded, whatever the reader had been through before.
pub proof fn law_reader_samples_slave(start: ReaderModel, bufs: Seq<[u8; 2]>)
    requires
        bufs.len() == ROUND_WORDS,
        forall|i: int|
            0 <= i < ROUND_WORDS ==> (#[trigger] bufs[i])@ == response(round_registers()[i]),
    ensures
        round_before_last(start, bufs).note(round_events(bufs).last()) == ReaderNote::Battery(
            sample_of(round_registers().map_values(|reg: u8| word_register(reg)->0)),
        ),
{
    law_round_completes(start, bufs);
    let held = round_registers().map_values(|reg: u8| word_register(reg)->0);
    assert forall|i: int| 0 <= i < ROUND_WORDS implies words_of(bufs)[i] == held[i] by {
        law_round_registers_are_words(i);
        assert(bufs[i]@ == response(round_registers()[i]));
        law_word_round_trip(held[i]);
    }
    assert(words_of(bufs) =~= held);
}

/// Voltage, capacities and serial number are the words themselves, whatever their size. The others
/// agree with their words modulo what they are narrowed to.
pub proof fn law_sample_fields(words: Seq<u16>)
    requires
        words.len() == 7,
    ensures
        sample_of(words).voltage_mv == words[0],
        (sample_of(words).current_ma - words[1]) % 0x1_0000 == 0,
        (sample_of(words).temp_c + 2731 - words[2]) % 0x1_0000 == 0,
        sample_of(words).soc_percent == words[3] % 256,
        sample_of(words).remaining_mah == words[4],
        sample_of(words).full_mah == words[5],
        sample_of(words).serial == words[6],
{
}

/// Different rounds give different samples, but for the part of the charge above a byte.
pub proof fn law_samples_tell_rounds_apart(a: Seq<u16>, b: Seq<u16>)
    requires
        a.len() == 7,
        b.len() == 7,
        sample_of(a) == sample_of(b),
    ensures
        forall|i: int| 0 <= i < 7 && i != 3 ==> #[trigger] a[i] == b[i],
        a[3] % 256 == b[3] % 256,
{
    law_sample_fields(a);
    law_sample_fields(b);
}

/// The parts of a temperature add up to it: the tenths are added to the whole degrees where it is
/// not below zero, and taken from them where it is.
pub proof fn law_temperature_adds_up(temp: i16)
    ensures
        temp >= 0 ==> 10 * temperature_parts(temp as int).0 + temperature_parts(temp as int).1
            == temp,
        temp < 0 ==> 10 * temperature_parts(temp as int).0 - temperature_parts(temp as int).1
            == temp,
        0 <= temperature_parts(temp as int).1 < 10,
{
}

/// Whatever the reader remembers: the battery is given 200 ms to boot, a round begins with the
/// voltage, a register that was written is given 500 microseconds and then read, and none of these
/// changes the words of a round but the start of one.
pub proof fn law_reader_pace(model: ReaderModel)
    ensures
        model.action(ReaderEvent::Started) == ReaderAction::WaitMs(200),
        model.action(ReaderEvent::Rested) == (ReaderAction::Write { addr: 0x0B, reg: 0x09 }),
        model.action(ReaderEvent::Written(Ok(()))) == ReaderAction::WaitUs(500),
        model.action(ReaderEvent::Settled) == (ReaderAction::Read { addr: 0x0B }),
        model.after(ReaderEvent::Started).words.len() == 0,
        model.after(ReaderEvent::Rested).words.len() == 0,
        model.after(ReaderEvent::Written(Ok(()))) == model,
        model.after(ReaderEvent::Settled) == model,
        model.note(ReaderEvent::Started) is Nothing,
        model.note(ReaderEvent::Rested) is Nothing,
        model.note(ReaderEvent::Written(Ok(()))) is Nothing,
        model.note(ReaderEvent::Settled) is Nothing,
{
}

/// Whatever the reader remembers, a failed transfer drops it, is logged, and is followed by a pause
/// of a second.
pub proof fn law_reader_gives_up(model: ReaderModel, e: I2cError)
    ensures
        model.after(ReaderEvent::Written(Err(e))).words.len() == 0,
        model.after(ReaderEvent::ReadBack(Err(e))).words.len() == 0,
        model.action(ReaderEvent::Written(Err(e))) == ReaderAction::WaitMs(1000),
        model.action(ReaderEvent::ReadBack(Err(e))) == ReaderAction::WaitMs(1000),
        model.note(ReaderEvent::Written(Err(e))) == ReaderNote::Failed(e),
        model.note(ReaderEvent::ReadBack(Err(e))) == ReaderNote::Failed(e),
{
}

/// A word joins the words before it, first byte once and second byte 256 times, and the next
/// register is asked for: current, temperature, charge, remaining and full capacity, serial number,
/// in that order.
pub proof fn law_word_joins_round(model: ReaderModel, buf: [u8; 2])
    requires
        model.words.len() < 6,
    ensures
        model.after(ReaderEvent::ReadBack(Ok(buf))).words.len() == model.words.len() + 1,
        model.after(ReaderEvent::ReadBack(Ok(buf))).words.drop_last() == model.words,
        model.after(ReaderEvent::ReadBack(Ok(buf))).words.last() == buf@[0] + 256 * buf@[1],
        model.note(ReaderEvent::ReadBack(Ok(buf))) is Nothing,
        model.action(ReaderEvent::ReadBack(Ok(buf))) == (ReaderAction::Write {
            addr: 0x0B,
            reg: seq![
                0x0Au8,
                0x08u8,
                0x0Du8,
                0x0Fu8,
                0x10u8,
                0x1Cu8,
            ][model.words.len() as int],
        }),
{
    assert(model.after(ReaderEvent::ReadBack(Ok(buf))).words.drop_last() =~= model.words);
}

/// The events of a round in which nothing fails: the end of the pause, and then, for each word, the
/// write, the settling and the read that brings its bytes.
pub proof fn law_round_shape(bufs: Seq<[u8; 2]>, k: int)
    ensures
        round_events(bufs).len() == 1 + 3 * bufs.len(),
        round_events(bufs)[0] == ReaderEvent::Rested,
        0 <= k < bufs.len() ==> {
            &&& round_events(bufs)[3 * k + 1] == ReaderEvent::Written(Ok(()))
            &&& round_events(bufs)[3 * k + 2] == ReaderEvent::Settled
            &&& round_events(bufs)[3 * k + 3] == ReaderEvent::ReadBack(Ok(bufs[k]))
        },
    decreases bufs.len(),
{
    if bufs.len() > 0 {
        law_round_shape(bufs.drop_last(), k);
    }
}

/// What a whole round reports, in terms of the bytes that came: seven words, each written, settled
/// and read in turn, give each field of the sample from its own two bytes, and the reader then
/// pauses for a second with nothing remembered.
pub proof fn law_round_reports(start: ReaderModel, events: Seq<ReaderEvent>, bufs: Seq<[u8; 2]>)
    requires
        bufs.len() == 7,
        events.len() == 22,
        events[0] == ReaderEvent::Rested,
        forall|k: int|
            0 <= k < 7 ==> {
                &&& events[3 * k + 1] == ReaderEvent::Written(Ok(()))
                &&& events[3 * k + 2] == ReaderEvent::Settled
                &&& events[3 * k + 3] == ReaderEvent::ReadBack(Ok(#[trigger] bufs[k]))
            },
    ensures
        ({
            let model = start.after_all(events.drop_last());
            &&& model.note(events.last()) matches ReaderNote::Battery(sample)
            &&& sample.voltage_mv == bufs[0]@[0] + 256 * bufs[0]@[1]
            &&& (sample.current_ma - (bufs[1]@[0] + 256 * bufs[1]@[1])) % 0x1_0000 == 0
            &&& (sample.temp_c + 2731 - (bufs[2]@[0] + 256 * bufs[2]@[1])) % 0x1_0000 == 0
            &&& sample.soc_percent == bufs[3]@[0]
            &&& sample.remaining_mah == bufs[4]@[0] + 256 * bufs[4]@[1]
            &&& sample.full_mah == bufs[5]@[0] + 256 * bufs[5]@[1]
            &&& sample.serial == bufs[6]@[0] + 256 * bufs[6]@[1]
        }),
        start.after_all(events.drop_last()).action(events.last()) == ReaderAction::WaitMs(1000),
        start.after_all(events).words.len() == 0,
{
    law_round_shape(bufs, 0);
    assert forall|j: int| 0 <= j < 22 implies events[j] == round_events(bufs)[j] by {
        let k = (j - 1) / 3;
        if j > 0 {
            law_round_shape(bufs, k);
            assert(0 <= k < 7);
            let buf = bufs[k];
            assert(j == 3 * k + 1 || j == 3 * k + 2 || j == 3 * k + 3);
        }
    }
    assert(events =~= round_events(bufs));
    law_round_completes(start, bufs);
    law_sample_fields(words_of(bufs));
    assert forall|i: int| 0 <= i < 7 implies words_of(bufs)[i] == bufs[i]@[0] + 256 * bufs[i]@[1] by {
        assert(words_of(bufs)[i] == word_value(bufs[i]@) as u16);
    }
}

/// A sequence of events does what its events do one after the other.
pub proof fn law_reader_events_in_turn(
    model: ReaderModel,
    events: Seq<ReaderEvent>,
    event: ReaderEvent,
)
    ensures
        model.after_all(Seq::empty()) == model,
        model.after_all(events.push(event)) == model.after_all(events).after(event),
{
    assert(events.push(event).drop_last() =~= events);
}

} // verus!
