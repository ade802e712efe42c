//! The life sign: a lamp that changes its level at a steady pace.

use vstd::prelude::*;

verus! {

/// Time, in milliseconds, that each level lasts.
pub const BLINK_MS: u64 = 500;

/// Level of the pin that drives the lamp.
#[derive(Clone, Copy, Debug, PartialEq, Eq, Structural)]
pub enum LedLevel {
    /// Supply voltage.
    High,
    /// Ground.
    Low,
}

impl LedLevel {
    /// The other level.
    pub open spec fn other(self) -> LedLevel {
        match self {
            LedLevel::High => LedLevel::Low,
            LedLevel::Low => LedLevel::High,
        }
    }
}

/// The firmwares that have a lamp.
#[derive(Clone, Copy, Debug, PartialEq, Eq, Structural)]
pub enum Image {
    /// Nothing but the lamp.
    Blinky,
    /// The master that polls a smart battery.
    BatteryReader,
    /// The slave that plays a smart battery.
    BatteryStub,
    /// The bridge between a sensor and an external master.
    Bridge,
}

/// The level that the lamp of a firmware begins with.
pub open spec fn first_level(image: Image) -> LedLevel {
    match image {
        Image::Blinky | Image::Bridge => LedLevel::High,
        Image::BatteryReader | Image::BatteryStub => LedLevel::Low,
    }
}

/// What has just happened to the lamp.
#[derive(Clone, Copy, Debug, PartialEq, Eq, Structural)]
pub enum LampEvent {
    /// The node was switched on.
    Started,
    /// The pin has the level that was asked for.
    LevelSet,
    /// The pause is over.
    Waited,
}

/// What to do next about the lamp.
#[derive(Clone, Copy, Debug, PartialEq, Eq, Structural)]
pub enum LampAction {
    /// Drive the pin to this level.
    Drive(LedLevel),
    /// Pause for so many milliseconds.
    WaitMs(u64),
}

/// The level that comes next after an event, `next` having been it before: setting one uses it up.
pub open spec fn next_after(next: LedLevel, event: LampEvent) -> LedLevel {
    match event {
        LampEvent::LevelSet => next,
        _ => next.other(),
    }
}

/// What to do about an event: a level once it is due, and a pause once it is set.
pub open spec fn lamp_action(next: LedLevel, event: LampEvent) -> LampAction {
    match event {
        LampEvent::LevelSet => LampAction::WaitMs(BLINK_MS),
        _ => LampAction::Drive(next),
    }
}

/// The lamp between two events.
#[derive(Clone, Copy, Debug, PartialEq, Eq, Structural)]
pub struct Blinker {
    /// The level that comes next.
    pub next: LedLevel,
}

impl Blinker {
    /// A blinker that begins with `first`.
    pub fn new(first: LedLevel) -> (blinker: Blinker)
        ensures
            blinker.next == first,
    {
        Blinker { next: first }
    }

    /// The blinker of a firmware that has just been switched on.
    pub fn for_image(image: Image) -> (blinker: Blinker)
        ensures
            blinker.next == first_level(image),
            blinker.next is Low <==> image is BatteryReader || image is BatteryStub,
    {
        match image {
            Image::Blinky => Blinker::new(LedLevel::High),
            Image::BatteryReader => Blinker::new(LedLevel::Low),
            Image::BatteryStub => Blinker::new(LedLevel::Low),
            Image::Bridge => Blinker::new(LedLevel::High),
        }
    }

    /// The level to set now. The one after it is the other level.
    pub fn step(&mut self) -> (level: LedLevel)
        ensures
            level == old(self).next,
            final(self).next == old(self).next.other(),
            final(self).next != level,
    {
        let level = self.next;
        self.next = match level {
            LedLevel::High => LedLevel::Low,
            LedLevel::Low => LedLevel::High,
        };
        level
    }

    /// Takes in an event and says what to do next.
    pub fn blinker_step(&mut self, event: LampEvent) -> (action: LampAction)
        ensures
            action == lamp_action(old(self).next, event),
            final(self).next == next_after(old(self).next, event),
            event is LevelSet ==> action == LampAction::WaitMs(500) && final(self).next == old(
                self,
            ).next,
            !(event is LevelSet) ==> action == LampAction::Drive(old(self).next) && final(self).next
                != old(self).next,
    {
        match event {
            LampEvent::Started => LampAction::Drive(self.step()),
            LampEvent::LevelSet => LampAction::WaitMs(BLINK_MS),
            LampEvent::Waited => LampAction::Drive(self.step()),
        }
    }
}

/// The level that a blinker comes to next after `n` steps.
pub open spec fn level_after(first: LedLevel, n: nat) -> LedLevel
    decreases n,
{
    if n == 0 {
        first
    } else {
        level_after(first, (n - 1) as nat).other()
    }
}

/// The levels alternate for ever: every second one is the first level, the rest are the other.
pub proof fn law_levels_alternate(first: LedLevel, n: nat)
    ensures
        n % 2 == 0 ==> level_after(first, n) == first,
        n % 2 == 1 ==> level_after(first, n) == first.other(),
    decreases n,
{
    if n > 0 {
        law_levels_alternate(first, (n - 1) as nat);
    }
}

/// The level that comes next after a sequence of events.
pub open spec fn next_after_all(first: LedLevel, events: Seq<LampEvent>) -> LedLevel
    decreases events.len(),
{
    if events.len() == 0 {
        first
    } else {
        next_after(next_after_all(first, events.drop_last()), events.last())
    }
}

/// What is done about event `i` of a sequence.
pub open spec fn action_at(first: LedLevel, events: Seq<LampEvent>, i: int) -> LampAction {
    lamp_action(next_after_all(first, events.take(i)), events[i])
}

/// The event that an action ends in.
pub open spec fn outcome(action: LampAction) -> LampEvent {
    match action {
        LampAction::Drive(_) => LampEvent::LevelSet,
        LampAction::WaitMs(_) => LampEvent::Waited,
    }
}

/// Whether event `i` is the one that the action before it ends in.
pub open spec fn follows(first: LedLevel, events: Seq<LampEvent>, i: int) -> bool {
    events[i] == outcome(action_at(first, events, i - 1))
}

/// Whether `events` is what happens when each action is performed: the start, and then the event
/// that each action ends in.
pub open spec fn is_run(first: LedLevel, events: Seq<LampEvent>) -> bool {
    &&& events.len() > 0
    &&& events[0] == LampEvent::Started
    &&& forall|i: int| 0 < i < events.len() ==> #[trigger] follows(first, events, i)
}

/// In a run, the even events each ask for the next level, and the odd ones follow a level.
proof fn lemma_run_position(first: LedLevel, events: Seq<LampEvent>, i: int)
    requires
        is_run(first, events),
        0 <= i < events.len(),
    ensures
        i % 2 == 0 <==> events[i] != LampEvent::LevelSet,
        next_after_all(first, events.take(i)) == level_after(first, ((i + 1) / 2) as nat),
    decreases i,
{
    if i > 0 {
        lemma_run_position(first, events, i - 1);
        assert(follows(first, events, i));
        assert(events.take(i).drop_last() =~= events.take(i - 1));
        assert(events.take(i).last() == events[i - 1]);
    }
}

/// The lamp blinks: in a run the levels alternate, beginning with the first, and one pause of
/// [`BLINK_MS`], and nothing else, stands between two of them.
pub proof fn law_lamp_blinks(first: LedLevel, events: Seq<LampEvent>, i: int)
    requires
        is_run(first, events),
        0 <= i < events.len(),
    ensures
        i % 2 == 1 ==> action_at(first, events, i) == LampAction::WaitMs(BLINK_MS),
        i % 4 == 0 ==> action_at(first, events, i) == LampAction::Drive(first),
        i % 4 == 2 ==> action_at(first, events, i) == LampAction::Drive(first.other()),
{
    lemma_run_position(first, events, i);
    law_levels_alternate(first, ((i + 1) / 2) as nat);
}

/// Every run begins with the start alone.
pub proof fn law_lamp_starts(first: LedLevel)
    ensures
        is_run(first, seq![LampEvent::Started]),
{
}

/// The lamp never stops: every run goes on with the event that its latest action ends in.
pub proof fn law_lamp_goes_on(first: LedLevel, events: Seq<LampEvent>)
    requires
        is_run(first, events),
    ensures
        is_run(first, events.push(outcome(action_at(first, events, events.len() - 1)))),
{
    let longer = events.push(outcome(action_at(first, events, events.len() - 1)));
    assert forall|i: int| 0 < i < longer.len() implies #[trigger] follows(first, longer, i) by {
        assert(longer.take(i - 1) =~= events.take(i - 1));
        if i < events.len() {
            assert(follows(first, events, i));
        }
    }
}

/// From any state, a level is driven and then held for 500 ms, and the level driven next is another
/// one.
pub proof fn law_level_held_then_changed(next: LedLevel)
    ensures
        lamp_action(next, LampEvent::Started) == LampAction::Drive(next),
        lamp_action(next, LampEvent::Waited) == LampAction::Drive(next),
        lamp_action(next, LampEvent::LevelSet) == LampAction::WaitMs(500),
        next_after(next, LampEvent::Started) != next,
        next_after(next, LampEvent::Waited) != next,
        next_after(next, LampEvent::LevelSet) == next,
        next.other() != next,
{
}

/// The lamp begins low in the firmwares of the battery and high in the others.
pub proof fn law_first_levels(image: Image)
    ensures
        first_level(image) is Low <==> image is BatteryReader || image is BatteryStub,
{
}

/// The runs are the sequences that begin with the start and in which a level having been set and a
/// pause being over then take turns.
pub proof fn law_run_shape(first: LedLevel, events: Seq<LampEvent>)
    ensures
        is_run(first, events) <==> {
            &&& events.len() > 0
            &&& events[0] is Started
            &&& forall|i: int|
                0 < i < events.len() ==> if i % 2 == 1 {
                    #[trigger] events[i] is LevelSet
                } else {
                    events[i] is Waited
                }
        },
{
    if is_run(first, events) {
        assert forall|i: int| 0 < i < events.len() implies if i % 2 == 1 {
            #[trigger] events[i] is LevelSet
        } else {
            events[i] is Waited
        } by {
            lemma_run_position(first, events, i - 1);
            assert(follows(first, events, i));
        }
    }
    if events.len() > 0 && events[0] is Started && (forall|i: int|
        0 < i < events.len() ==> if i % 2 == 1 {
            #[trigger] events[i] is LevelSet
        } else {
            events[i] is Waited
        }) {
        assert forall|i: int| 0 < i < events.len() implies #[trigger] follows(
            first,
            events,
            i,
        ) by {
            let now = events[i];
            let before = events[i - 1];
            assert(i % 2 == 1 ==> i == 1 || before is Waited);
            assert(i % 2 == 0 ==> before is LevelSet);
        }
    }
}

/// A sequence of events does what its events do one after the other.
pub proof fn law_lamp_events_in_turn(first: LedLevel, events: Seq<LampEvent>, event: LampEvent)
    ensures
        next_after_all(first, Seq::empty()) == first,
        next_after_all(first, events.push(event)) == next_after(
            next_after_all(first, events),
            event,
        ),
        action_at(first, events.push(event), events.len() as int) == lamp_action(
            next_after_all(first, events),
            event,
        ),
{
    assert(events.push(event).drop_last() =~= events);
    assert(events.push(event).take(events.len() as int) =~= events);
}

} // verus!
