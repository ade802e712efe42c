use smbus_firmware::blinker::{Blinker, Image, LampAction, LampEvent, LedLevel, BLINK_MS};

#[test]
fn levels_alternate() {
    for first in [LedLevel::High, LedLevel::Low] {
        let mut blinker = Blinker::new(first);
        for n in 0..10 {
            assert_eq!(blinker.step() == first, n % 2 == 0);
        }
    }
}

#[test]
fn level_lasts_half_a_second() {
    assert_eq!(BLINK_MS, 500);
}

#[test]
fn battery_images_begin_low_and_the_others_high() {
    assert_eq!(Blinker::for_image(Image::Blinky).step(), LedLevel::High);
    assert_eq!(Blinker::for_image(Image::Bridge).step(), LedLevel::High);
    assert_eq!(Blinker::for_image(Image::BatteryReader).step(), LedLevel::Low);
    assert_eq!(Blinker::for_image(Image::BatteryStub).step(), LedLevel::Low);
}

#[test]
fn each_level_is_followed_by_one_pause() {
    let mut blinker = Blinker::for_image(Image::BatteryStub);
    let mut event = LampEvent::Started;
    let mut actions = Vec::new();
    for _ in 0..6 {
        let action = blinker.blinker_step(event);
        event = match action {
            LampAction::Drive(_) => LampEvent::LevelSet,
            LampAction::WaitMs(_) => LampEvent::Waited,
        };
        actions.push(action);
    }
    assert_eq!(
        actions,
        vec![
            LampAction::Drive(LedLevel::Low),
            LampAction::WaitMs(500),
            LampAction::Drive(LedLevel::High),
            LampAction::WaitMs(500),
            LampAction::Drive(LedLevel::Low),
            LampAction::WaitMs(500),
        ]
    );
}
