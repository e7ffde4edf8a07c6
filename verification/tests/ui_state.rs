use brainsurf::mods::{ModInfo, Submitter};
use brainsurf::ui::{Brainsurf, Message, Screen, UiAction};

fn sample_mod() -> ModInfo {
    ModInfo {
        id: 615376,
        name: String::from("Cool Mod"),
        submitter: Submitter {
            name: String::from("someone"),
            avatar_url: String::from("https://images.example/avatar.png"),
        },
        description: Some(String::from("a short summary")),
        text: None,
    }
}

#[test]
fn fresh_state_shows_the_warning() {
    let app = Brainsurf::new(vec![sample_mod()]);
    assert!(matches!(app.screen, Screen::Warning));
    assert!(app.selected_mod.is_none());
    assert!(app.data_win_path.is_none());
    assert!(!app.done_installing);
    assert_eq!(app.mods.len(), 1);
}

#[test]
fn titles_follow_the_screen() {
    let mut app = Brainsurf::new(vec![]);
    assert_eq!(app.title().as_str(), "brainsurf - WARNING");
    let action = app.update(Message::ChangeScreen(Screen::ModPicker));
    assert_eq!(action, UiAction::Idle);
    assert_eq!(app.title().as_str(), "brainsurf - Mod Picker");
}

#[test]
fn selecting_a_mod_resets_the_done_flag() {
    let mut app = Brainsurf::new(vec![sample_mod()]);
    app.data_win_path = Some(String::from("data.win"));
    app.selected_mod = Some(sample_mod());
    let action = app.update(Message::InstallMod);
    assert!(app.done_installing);
    assert_eq!(
        action,
        UiAction::RunInstall { mod_id: 615376, target_path: String::from("data.win") }
    );
    let action = app.update(Message::ChangeSelected(sample_mod()));
    assert_eq!(action, UiAction::Idle);
    assert!(!app.done_installing);
}

#[test]
fn picking_the_target_file_goes_through_the_caller() {
    let mut app = Brainsurf::new(vec![]);
    let action = app.update(Message::PickDataWinFile);
    assert_eq!(action, UiAction::PickFile);
    assert!(app.data_win_path.is_none());
    let action = app.update(Message::SetDataWinPath(String::from("saves/data.win")));
    assert_eq!(action, UiAction::Idle);
    assert_eq!(app.data_win_path, Some(String::from("saves/data.win")));
}

#[test]
fn launching_and_mod_pages_open_addresses() {
    let mut app = Brainsurf::new(vec![]);
    let action = app.update(Message::LaunchGame);
    assert_eq!(
        action,
        UiAction::OpenPage { url: String::from("steam://rungameid/2741670") }
    );
    app.selected_mod = Some(sample_mod());
    let action = app.update(Message::OpenModPage);
    assert_eq!(
        action,
        UiAction::OpenPage { url: String::from("https://gamebanana.com/mods/615376") }
    );
}
