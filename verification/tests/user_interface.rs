use railan::menu::events::{InputEvent, Key, KeyInput, KeyKind, UIEvent};
use railan::menu::ui_foundations::{ActionType, ScrollingDirection, UIType};
use railan::menu::user_interface::UserInterface;

const ALL: [UIType; 7] = [
    UIType::Start,
    UIType::Main,
    UIType::Villages,
    UIType::Crafts,
    UIType::Diplomacy,
    UIType::Quit,
    UIType::Terminated,
];

fn key(key: Key) -> UIEvent {
    UIEvent::Input(InputEvent::Key(KeyInput::press(key)))
}

fn letter(letter: char) -> UIEvent {
    key(Key::Char(letter))
}

fn shown(ui_type: UIType) -> UserInterface {
    let mut ui = UserInterface::new();
    ui.apply_action_at(ActionType::HandleUITimeout(UIType::Start), 0);
    if ui_type != UIType::Main {
        ui.apply_action_at(ActionType::ChangeView(ui_type), 0);
    }
    assert_eq!(ui.get_current_uitype(), ui_type);
    ui
}

#[test]
fn new_interface_shows_the_welcome() {
    let ui = UserInterface::new();
    assert_eq!(ui.get_current_uitype(), UIType::Start);
    assert_eq!(ui.get_scroll_offset(), 0);
}

#[test]
fn table_holds_the_eight_events() {
    let ui = UserInterface::new();
    assert_eq!(ui.get_action_for_event(&letter('v')), Some(ActionType::ChangeView(UIType::Villages)));
    assert_eq!(ui.get_action_for_event(&letter('c')), Some(ActionType::ChangeView(UIType::Crafts)));
    assert_eq!(ui.get_action_for_event(&letter('d')), Some(ActionType::ChangeView(UIType::Diplomacy)));
    assert_eq!(ui.get_action_for_event(&letter('q')), Some(ActionType::ChangeView(UIType::Quit)));
    assert_eq!(
        ui.get_action_for_event(&key(Key::Down)),
        Some(ActionType::Scroll(ScrollingDirection::Down))
    );
    assert_eq!(ui.get_action_for_event(&key(Key::Up)), Some(ActionType::Scroll(ScrollingDirection::Up)));
    assert_eq!(
        ui.get_action_for_event(&UIEvent::Timeout(UIType::Start)),
        Some(ActionType::HandleUITimeout(UIType::Start))
    );
    assert_eq!(
        ui.get_action_for_event(&UIEvent::Timeout(UIType::Quit)),
        Some(ActionType::HandleUITimeout(UIType::Quit))
    );
}

#[test]
fn table_holds_no_other_event() {
    let ui = UserInterface::new();
    for event in [
        letter('x'),
        letter('V'),
        letter('Q'),
        key(Key::Other),
        UIEvent::Input(InputEvent::Other),
        UIEvent::Timeout(UIType::Main),
        UIEvent::Timeout(UIType::Villages),
        UIEvent::Timeout(UIType::Crafts),
        UIEvent::Timeout(UIType::Diplomacy),
        UIEvent::Timeout(UIType::Terminated),
        UIEvent::Input(InputEvent::Key(KeyInput {
            key: Key::Char('v'),
            modifiers: 1,
            kind: KeyKind::Press,
            state: 0,
        })),
        UIEvent::Input(InputEvent::Key(KeyInput {
            key: Key::Char('v'),
            modifiers: 0,
            kind: KeyKind::Release,
            state: 0,
        })),
        UIEvent::Input(InputEvent::Key(KeyInput {
            key: Key::Char('v'),
            modifiers: 0,
            kind: KeyKind::Repeat,
            state: 0,
        })),
        UIEvent::Input(InputEvent::Key(KeyInput {
            key: Key::Down,
            modifiers: 0,
            kind: KeyKind::Press,
            state: 8,
        })),
    ] {
        assert_eq!(ui.get_action_for_event(&event), None);
    }
}

#[test]
fn unmapped_events_change_nothing() {
    for ui_type in ALL {
        let mut ui = shown(ui_type);
        for event in [letter('x'), UIEvent::Input(InputEvent::Other), UIEvent::Timeout(UIType::Main)] {
            assert!(ui.can_process(&event));
            ui.process_ui_event_at(&event, 77);
            assert_eq!(ui.get_current_uitype(), ui_type);
            assert_eq!(ui.get_scroll_offset(), 0);
        }
    }
}

#[test]
fn welcome_gives_way_to_main_after_three_seconds() {
    let mut ui = UserInterface::new();
    ui.update_terminal_at(0);
    assert_eq!(ui.get_current_uitype(), UIType::Start);
    ui.update_terminal_at(3_000_000_000);
    assert_eq!(ui.get_current_uitype(), UIType::Start);
    ui.update_terminal_at(3_000_000_001);
    assert_eq!(ui.get_current_uitype(), UIType::Main);
    ui.update_terminal_at(u64::MAX);
    assert_eq!(ui.get_current_uitype(), UIType::Main);
}

#[test]
fn welcome_stays_while_the_clock_is_young() {
    let mut ui = UserInterface::new();
    ui.update_terminal();
    assert_eq!(ui.get_current_uitype(), UIType::Start);
}

#[test]
fn village_key_toggles_between_villages_and_main() {
    let mut ui = shown(UIType::Main);
    ui.process_ui_event_at(&letter('v'), 10);
    assert_eq!(ui.get_current_uitype(), UIType::Villages);
    assert_eq!(ui.get_scroll_offset(), 0);
    ui.process_ui_event_at(&letter('v'), 20);
    assert_eq!(ui.get_current_uitype(), UIType::Main);
}

#[test]
fn village_key_by_the_clock() {
    let mut ui = shown(UIType::Main);
    ui.process_ui_event(&letter('v'));
    assert_eq!(ui.get_current_uitype(), UIType::Villages);
    assert_eq!(ui.get_scroll_offset(), 0);
    ui.process_ui_event(&letter('v'));
    assert_eq!(ui.get_current_uitype(), UIType::Main);
}

#[test]
fn each_letter_shows_its_screen() {
    for (pressed, target) in
        [('v', UIType::Villages), ('c', UIType::Crafts), ('d', UIType::Diplomacy), ('q', UIType::Quit)]
    {
        for ui_type in ALL {
            let mut ui = shown(ui_type);
            ui.process_ui_event_at(&letter(pressed), 5);
            if ui_type == target {
                assert_eq!(ui.get_current_uitype(), UIType::Main);
            } else {
                assert_eq!(ui.get_current_uitype(), target);
            }
            assert_eq!(ui.get_scroll_offset(), 0);
        }
    }
}

#[test]
fn change_view_to_the_shown_screen_leads_to_main() {
    for ui_type in ALL {
        let mut ui = shown(ui_type);
        ui.apply_action_at(ActionType::ChangeView(ui_type), 1);
        assert_eq!(ui.get_current_uitype(), UIType::Main);
    }
}

#[test]
fn change_view_to_another_screen_leads_there() {
    for from in ALL {
        for to in ALL {
            if from != to {
                let mut ui = shown(from);
                ui.apply_action_at(ActionType::ChangeView(to), 1);
                assert_eq!(ui.get_current_uitype(), to);
            }
        }
    }
}

#[test]
fn timeout_of_the_welcome_leads_to_main() {
    for ui_type in ALL {
        let mut ui = shown(ui_type);
        ui.apply_action_at(ActionType::HandleUITimeout(UIType::Start), 1);
        assert_eq!(ui.get_current_uitype(), UIType::Main);
    }
}

#[test]
fn timeout_of_the_farewell_terminates() {
    for ui_type in ALL {
        let mut ui = shown(ui_type);
        ui.apply_action_at(ActionType::HandleUITimeout(UIType::Quit), 1);
        assert_eq!(ui.get_current_uitype(), UIType::Terminated);
    }
}

#[test]
fn timeout_of_any_other_screen_changes_nothing() {
    for target in [UIType::Main, UIType::Villages, UIType::Crafts, UIType::Diplomacy, UIType::Terminated] {
        for ui_type in ALL {
            let mut ui = shown(ui_type);
            if ui_type == UIType::Villages {
                ui.apply_action_at(ActionType::Scroll(ScrollingDirection::Down), 1);
            }
            let offset = ui.get_scroll_offset();
            ui.apply_action_at(ActionType::HandleUITimeout(target), 1);
            assert_eq!(ui.get_current_uitype(), ui_type);
            assert_eq!(ui.get_scroll_offset(), offset);
        }
    }
}

#[test]
fn quit_key_leads_to_the_farewell_and_then_to_the_end() {
    for ui_type in ALL {
        if ui_type == UIType::Quit {
            continue;
        }
        let mut ui = shown(ui_type);
        ui.process_ui_event_at(&letter('q'), 40_000_000_000);
        assert_eq!(ui.get_current_uitype(), UIType::Quit);
        ui.update_terminal_at(40_000_000_001);
        assert_eq!(ui.get_current_uitype(), UIType::Quit);
        ui.update_terminal_at(43_000_000_000);
        assert_eq!(ui.get_current_uitype(), UIType::Quit);
        ui.update_terminal_at(43_000_000_001);
        assert_eq!(ui.get_current_uitype(), UIType::Terminated);
    }
}

#[test]
fn quit_key_on_the_farewell_leads_to_main() {
    let mut ui = shown(UIType::Quit);
    ui.process_ui_event_at(&letter('q'), 1);
    assert_eq!(ui.get_current_uitype(), UIType::Main);
    ui.update_terminal_at(u64::MAX);
    assert_eq!(ui.get_current_uitype(), UIType::Main);
}

#[test]
fn quit_key_by_the_clock_shows_the_farewell() {
    let mut ui = shown(UIType::Crafts);
    ui.process_ui_event(&letter('q'));
    assert_eq!(ui.get_current_uitype(), UIType::Quit);
    ui.update_terminal();
    assert_eq!(ui.get_current_uitype(), UIType::Quit);
    ui.update_terminal_at(u64::MAX);
    assert_eq!(ui.get_current_uitype(), UIType::Terminated);
}

#[test]
fn arrows_scroll_the_shown_screen() {
    for ui_type in [UIType::Villages, UIType::Crafts, UIType::Diplomacy] {
        let mut ui = shown(ui_type);
        ui.process_ui_event_at(&key(Key::Down), 1);
        ui.process_ui_event_at(&key(Key::Down), 2);
        assert_eq!(ui.get_scroll_offset(), 2);
        ui.process_ui_event_at(&key(Key::Up), 3);
        assert_eq!(ui.get_scroll_offset(), 1);
        ui.process_ui_event_at(&key(Key::Up), 4);
        ui.process_ui_event_at(&key(Key::Up), 5);
        assert_eq!(ui.get_scroll_offset(), 0);
        assert_eq!(ui.get_current_uitype(), ui_type);
    }
}

#[test]
fn offsets_do_not_outlive_a_change_of_screen() {
    let mut ui = shown(UIType::Villages);
    ui.process_ui_event_at(&key(Key::Down), 1);
    ui.process_ui_event_at(&key(Key::Down), 1);
    ui.process_ui_event_at(&letter('c'), 2);
    assert_eq!(ui.get_current_uitype(), UIType::Crafts);
    assert_eq!(ui.get_scroll_offset(), 0);
    ui.process_ui_event_at(&key(Key::Down), 3);
    assert_eq!(ui.get_scroll_offset(), 1);
    ui.process_ui_event_at(&letter('v'), 4);
    assert_eq!(ui.get_current_uitype(), UIType::Villages);
    assert_eq!(ui.get_scroll_offset(), 0);
}

#[test]
fn down_cannot_be_processed_at_the_largest_offset() {
    let mut ui = shown(UIType::Diplomacy);
    for _ in 0..u16::MAX {
        assert!(ui.can_process(&key(Key::Down)));
        ui.process_ui_event_at(&key(Key::Down), 1);
    }
    assert_eq!(ui.get_scroll_offset(), u16::MAX);
    assert!(!ui.can_process(&key(Key::Down)));
    assert!(ui.can_process(&key(Key::Up)));
    assert!(ui.can_process(&letter('v')));
    assert!(ui.can_process(&UIEvent::Timeout(UIType::Quit)));
}

#[test]
fn clock_reading_does_not_run_backwards() {
    let ui = UserInterface::new();
    let first = ui.now();
    let second = ui.now();
    assert!(first <= second);
}
