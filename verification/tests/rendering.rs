use railan::data::craft::{Craft, CraftType};
use railan::data::kingdom::Kingdom;
use railan::data::village::Village;
use railan::game::GameState;
use railan::menu::assets::{asset_path, Asset, ASSET_PATH};
use railan::menu::current_ui::CurrentUI;
use railan::menu::rendering::craft_menu::{write_crafts, CraftMenu};
use railan::menu::rendering::diplomacy_menu::DiplomacyMenu;
use railan::menu::rendering::full_screen::FullScreenMessage;
use railan::menu::rendering::main_menu::MainMenu;
use railan::menu::rendering::village_menu::{write_villages, VillageMenu};
use railan::menu::rendering::{Frame, TerminalRenderer, MESSAGE_HOLD_SECS};
use railan::menu::ui_foundations::{ScrollingDirection, UIType};
use railan::menu::user_interface::UserInterface;

fn game() -> GameState {
    GameState::new(Kingdom {
        villages: vec![
            Village { name: String::from("Aldone"), num_citizen: 12 },
            Village { name: String::from("Brim"), num_citizen: 0 },
        ],
        crafts: vec![
            (
                CraftType::Woodworker,
                vec![
                    Craft { craft_type: CraftType::Woodworker, lvl: 3 },
                    Craft { craft_type: CraftType::Woodworker, lvl: 1 },
                ],
            ),
            (CraftType::Stonemason, vec![Craft { craft_type: CraftType::Stonemason, lvl: 7 }]),
        ],
    })
}

const VILLAGES: &str = "Your villages:\n Aldone: 12 Citizen\nBrim: 0 Citizen\n";

const CRAFTS: &str =
    "Woodworker:\n Woodworker: Level 3 \nWoodworker: Level 1 \nStonemason:\n Stonemason: Level 7 \n";

#[test]
fn asset_file_names() {
    assert_eq!(Asset::Welcome.file_name(), "welcome.txt");
    assert_eq!(Asset::Exit.file_name(), "exit.txt");
    assert_eq!(Asset::Main.file_name(), "main.txt");
    assert_eq!(Asset::Menu.file_name(), "menu.txt");
}

#[test]
fn asset_path_joins_directory_and_name() {
    assert_eq!(ASSET_PATH, "./assets");
    assert_eq!(asset_path("menu.txt"), "./assets/menu.txt");
    assert_eq!(asset_path(Asset::Welcome.file_name()), "./assets/welcome.txt");
    assert_eq!(asset_path(""), "./assets/");
}

#[test]
fn villages_text_lists_every_village() {
    assert_eq!(write_villages(&game().kingdom.villages), VILLAGES);
}

#[test]
fn villages_text_of_no_village_is_the_heading() {
    assert_eq!(write_villages(&Vec::new()), "Your villages:\n ");
}

#[test]
fn crafts_text_lists_every_category() {
    assert_eq!(write_crafts(&game().kingdom.crafts), CRAFTS);
}

#[test]
fn crafts_text_of_no_category_is_empty() {
    assert_eq!(write_crafts(&Vec::new()), "");
}

#[test]
fn crafts_text_of_a_category_without_crafts() {
    assert_eq!(write_crafts(&vec![(CraftType::Stonemason, Vec::new())]), "Stonemason:\n ");
}

#[test]
fn message_hold_is_three_seconds() {
    assert_eq!(MESSAGE_HOLD_SECS, 3);
}

#[test]
fn full_screen_message_frames() {
    let game = game();
    let welcome = FullScreenMessage { ui_type: UIType::Start };
    assert_eq!(welcome.render(&game), Frame::Message { asset: Asset::Welcome, hold_secs: 3 });
    let farewell = FullScreenMessage { ui_type: UIType::Quit };
    assert_eq!(farewell.render(&game), Frame::Message { asset: Asset::Exit, hold_secs: 3 });
    for ui_type in [UIType::Main, UIType::Villages, UIType::Crafts, UIType::Diplomacy, UIType::Terminated] {
        assert_eq!(FullScreenMessage { ui_type }.render(&game), Frame::Blank);
    }
}

#[test]
fn full_screen_message_keeps_no_offset() {
    let mut welcome = FullScreenMessage { ui_type: UIType::Start };
    welcome.set_scroll_offset(9);
    assert_eq!(welcome.get_scroll_offset(), 0);
    assert_eq!(welcome.ui_type, UIType::Start);
}

#[test]
fn main_menu_frame() {
    let mut menu = MainMenu;
    assert_eq!(menu.render(&game()), Frame::AssetPane { asset: Asset::Main, scroll: 0 });
    menu.set_scroll_offset(4);
    assert_eq!(menu.get_scroll_offset(), 0);
    assert_eq!(menu.render(&game()), Frame::AssetPane { asset: Asset::Main, scroll: 0 });
}

#[test]
fn village_menu_frame() {
    let mut menu = VillageMenu::new();
    assert_eq!(menu.get_scroll_offset(), 0);
    assert_eq!(menu.render(&game()), Frame::TextPane { text: String::from(VILLAGES), scroll: 0 });
    menu.set_scroll_offset(5);
    assert_eq!(menu.get_scroll_offset(), 5);
    assert_eq!(menu.render(&game()), Frame::TextPane { text: String::from(VILLAGES), scroll: 5 });
}

#[test]
fn craft_menu_frame() {
    let mut menu = CraftMenu::new();
    assert_eq!(menu.get_scroll_offset(), 0);
    assert_eq!(menu.render(&game()), Frame::TextPane { text: String::from(CRAFTS), scroll: 0 });
    menu.set_scroll_offset(2);
    assert_eq!(menu.get_scroll_offset(), 2);
    assert_eq!(menu.render(&game()), Frame::TextPane { text: String::from(CRAFTS), scroll: 2 });
}

#[test]
fn diplomacy_menu_frame() {
    let mut menu = DiplomacyMenu::new();
    assert_eq!(menu.get_scroll_offset(), 0);
    assert_eq!(menu.render(&game()), Frame::TextPane { text: String::from("Not done yet"), scroll: 0 });
    menu.set_scroll_offset(u16::MAX);
    assert_eq!(menu.get_scroll_offset(), u16::MAX);
    assert_eq!(
        menu.render(&game()),
        Frame::TextPane { text: String::from("Not done yet"), scroll: u16::MAX }
    );
}

#[test]
fn current_ui_renders_the_shown_screen() {
    let game = game();
    let mut ui = CurrentUI::new();
    assert_eq!(ui.render(&game), Frame::Message { asset: Asset::Welcome, hold_secs: 3 });
    ui.change_ui_type_at(UIType::Main, 0);
    assert_eq!(ui.render(&game), Frame::AssetPane { asset: Asset::Main, scroll: 0 });
    ui.change_ui_type_at(UIType::Villages, 0);
    ui.scroll(ScrollingDirection::Down);
    assert_eq!(ui.render(&game), Frame::TextPane { text: String::from(VILLAGES), scroll: 1 });
    ui.change_ui_type_at(UIType::Crafts, 0);
    assert_eq!(ui.render(&game), Frame::TextPane { text: String::from(CRAFTS), scroll: 0 });
    ui.change_ui_type_at(UIType::Diplomacy, 0);
    ui.scroll(ScrollingDirection::Down);
    ui.scroll(ScrollingDirection::Down);
    assert_eq!(ui.render(&game), Frame::TextPane { text: String::from("Not done yet"), scroll: 2 });
    ui.change_ui_type_at(UIType::Quit, 0);
    assert_eq!(ui.render(&game), Frame::Message { asset: Asset::Exit, hold_secs: 3 });
    ui.change_ui_type_at(UIType::Terminated, 0);
    assert_eq!(ui.render(&game), Frame::Blank);
}

#[test]
fn user_interface_renders_the_shown_screen() {
    let game = game();
    let mut ui = UserInterface::new();
    assert_eq!(ui.render_terminal(&game), Frame::Message { asset: Asset::Welcome, hold_secs: 3 });
    ui.update_terminal_at(4_000_000_000);
    assert_eq!(ui.render_terminal(&game), Frame::AssetPane { asset: Asset::Main, scroll: 0 });
}

#[test]
fn frame_follows_the_growth_of_the_kingdom() {
    let mut game = game();
    let menu = VillageMenu::new();
    game.kingdom.add_citizen(1);
    assert_eq!(
        menu.render(&game),
        Frame::TextPane {
            text: String::from("Your villages:\n Aldone: 13 Citizen\nBrim: 0 Citizen\n"),
            scroll: 0
        }
    );
}
