use railan::menu::clock::reading_of;
use railan::menu::current_ui::{CurrentUI, EXPIRY_NANOS};
use railan::menu::ui_foundations::{ScrollingDirection, UIType};

const ALL: [UIType; 7] = [
    UIType::Start,
    UIType::Main,
    UIType::Villages,
    UIType::Crafts,
    UIType::Diplomacy,
    UIType::Quit,
    UIType::Terminated,
];

const SCROLLING: [UIType; 3] = [UIType::Villages, UIType::Crafts, UIType::Diplomacy];

fn shown(ui_type: UIType) -> CurrentUI {
    let mut ui = CurrentUI::new();
    ui.change_ui_type_at(ui_type, 0);
    ui
}

#[test]
fn expiry_is_three_seconds() {
    assert_eq!(EXPIRY_NANOS, 3_000_000_000);
}

#[test]
fn starts_with_the_welcome() {
    let ui = CurrentUI::new();
    assert_eq!(ui.get_ui_type(), UIType::Start);
    assert_eq!(ui.ui_type, UIType::Start);
    assert_eq!(ui.get_scroll_offset(), 0);
}

#[test]
fn welcome_expires_after_three_seconds() {
    let ui = CurrentUI::new();
    assert!(!ui.is_expired_at(0));
    assert!(!ui.is_expired_at(2_999_999_999));
    assert!(!ui.is_expired_at(3_000_000_000));
    assert!(ui.is_expired_at(3_000_000_001));
    assert!(ui.is_expired_at(u64::MAX));
}

#[test]
fn welcome_has_not_expired_at_once() {
    let ui = CurrentUI::new();
    assert!(!ui.is_expired());
}

#[test]
fn only_the_farewell_gets_an_expiry() {
    for ui_type in ALL {
        let mut ui = CurrentUI::new();
        ui.change_ui_type_at(ui_type, 1_000);
        assert_eq!(ui.get_ui_type(), ui_type);
        if ui_type == UIType::Quit {
            assert!(!ui.is_expired_at(3_000_001_000));
            assert!(ui.is_expired_at(3_000_001_001));
        } else {
            assert!(!ui.is_expired_at(u64::MAX));
            assert!(!ui.is_expired());
        }
    }
}

#[test]
fn farewell_expiry_counts_from_the_change() {
    let mut ui = CurrentUI::new();
    ui.change_ui_type_at(UIType::Quit, 10_000_000_000);
    assert!(!ui.is_expired_at(13_000_000_000));
    assert!(ui.is_expired_at(13_000_000_001));
    ui.change_ui_type_at(UIType::Quit, 20_000_000_000);
    assert!(!ui.is_expired_at(23_000_000_000));
    assert!(ui.is_expired_at(23_000_000_001));
}

#[test]
fn farewell_at_the_last_reading_never_expires() {
    let mut ui = CurrentUI::new();
    ui.change_ui_type_at(UIType::Quit, u64::MAX);
    assert!(!ui.is_expired_at(u64::MAX));
}

#[test]
fn farewell_by_the_clock_has_not_expired_at_once() {
    let mut ui = CurrentUI::new();
    ui.change_ui_type(UIType::Quit);
    assert_eq!(ui.get_ui_type(), UIType::Quit);
    assert!(!ui.is_expired());
    assert!(ui.is_expired_at(u64::MAX));
}

#[test]
fn change_by_the_clock_shows_the_screen() {
    for ui_type in ALL {
        let mut ui = CurrentUI::new();
        ui.change_ui_type(ui_type);
        assert_eq!(ui.get_ui_type(), ui_type);
        assert_eq!(ui.get_scroll_offset(), 0);
    }
}

#[test]
fn scroll_down_adds_one() {
    for ui_type in SCROLLING {
        let mut ui = shown(ui_type);
        for k in 0..50u16 {
            assert_eq!(ui.get_scroll_offset(), k);
            ui.scroll(ScrollingDirection::Down);
            assert_eq!(ui.get_scroll_offset(), k + 1);
        }
    }
}

#[test]
fn scroll_up_stays_at_the_floor() {
    for ui_type in SCROLLING {
        let mut ui = shown(ui_type);
        ui.scroll(ScrollingDirection::Down);
        ui.scroll(ScrollingDirection::Down);
        ui.scroll(ScrollingDirection::Up);
        assert_eq!(ui.get_scroll_offset(), 1);
        ui.scroll(ScrollingDirection::Up);
        assert_eq!(ui.get_scroll_offset(), 0);
        for _ in 0..5 {
            ui.scroll(ScrollingDirection::Up);
            assert_eq!(ui.get_scroll_offset(), 0);
        }
    }
}

#[test]
fn scroll_reaches_the_largest_offset() {
    let mut ui = shown(UIType::Villages);
    for _ in 0..u16::MAX {
        assert!(ui.can_scroll(ScrollingDirection::Down));
        ui.scroll(ScrollingDirection::Down);
    }
    assert_eq!(ui.get_scroll_offset(), u16::MAX);
    assert!(!ui.can_scroll(ScrollingDirection::Down));
    assert!(ui.can_scroll(ScrollingDirection::Up));
    ui.scroll(ScrollingDirection::Up);
    assert_eq!(ui.get_scroll_offset(), u16::MAX - 1);
}

#[test]
fn screens_without_offset_do_not_scroll() {
    for ui_type in [UIType::Start, UIType::Main, UIType::Quit, UIType::Terminated] {
        let mut ui = shown(ui_type);
        assert!(ui.can_scroll(ScrollingDirection::Down));
        assert!(ui.can_scroll(ScrollingDirection::Up));
        ui.scroll(ScrollingDirection::Down);
        assert_eq!(ui.get_scroll_offset(), 0);
        ui.scroll(ScrollingDirection::Up);
        assert_eq!(ui.get_scroll_offset(), 0);
        assert_eq!(ui.get_ui_type(), ui_type);
    }
}

#[test]
fn scroll_keeps_screen_and_expiry() {
    let mut ui = shown(UIType::Villages);
    ui.scroll(ScrollingDirection::Down);
    assert_eq!(ui.get_ui_type(), UIType::Villages);
    assert!(!ui.is_expired_at(u64::MAX));
    let mut ui = CurrentUI::new();
    ui.scroll(ScrollingDirection::Down);
    assert_eq!(ui.get_ui_type(), UIType::Start);
    assert!(!ui.is_expired_at(3_000_000_000));
    assert!(ui.is_expired_at(3_000_000_001));
}

#[test]
fn entered_screen_starts_at_the_top() {
    for first in SCROLLING {
        for second in ALL {
            let mut ui = shown(first);
            ui.scroll(ScrollingDirection::Down);
            ui.scroll(ScrollingDirection::Down);
            ui.scroll(ScrollingDirection::Down);
            assert_eq!(ui.get_scroll_offset(), 3);
            ui.change_ui_type_at(second, 5);
            assert_eq!(ui.get_ui_type(), second);
            assert_eq!(ui.get_scroll_offset(), 0);
            ui.change_ui_type_at(first, 6);
            assert_eq!(ui.get_scroll_offset(), 0);
        }
    }
}

#[test]
fn entering_the_shown_screen_again_resets_its_offset() {
    let mut ui = shown(UIType::Crafts);
    ui.scroll(ScrollingDirection::Down);
    assert_eq!(ui.get_scroll_offset(), 1);
    ui.change_ui_type_at(UIType::Crafts, 9);
    assert_eq!(ui.get_scroll_offset(), 0);
}

#[test]
fn long_sequence_of_changes_ends_at_the_top() {
    let mut ui = CurrentUI::new();
    let mut at: u64 = 0;
    for round in 0..20usize {
        for (i, ui_type) in ALL.iter().enumerate() {
            ui.change_ui_type_at(*ui_type, at);
            assert_eq!(ui.get_ui_type(), *ui_type);
            assert_eq!(ui.get_scroll_offset(), 0);
            if (round + i) % 2 == 0 {
                ui.scroll(ScrollingDirection::Down);
            }
            at += 1_000_000;
        }
    }
}

#[test]
fn clock_reading_of_nanoseconds() {
    assert_eq!(reading_of(0), 0);
    assert_eq!(reading_of(3_000_000_000), 3_000_000_000);
    assert_eq!(reading_of(u64::MAX as u128), u64::MAX);
    assert_eq!(reading_of(u64::MAX as u128 + 1), u64::MAX);
    assert_eq!(reading_of(u128::MAX), u64::MAX);
}
