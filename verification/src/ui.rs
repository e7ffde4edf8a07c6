use vstd::prelude::*;
use crate::mods::ModInfo;
use crate::reference::{mod_page_url_spec, reference_for_mod};
use crate::text::dec_rep_int;

verus! {

// The state behind the presentation layer. Rendering, dialogs and the event
// loop live outside the library; this module decides what each message does
// to the state and what outside work, if any, the caller must then perform.

/// Which screen is shown.
#[derive(Clone, Copy, Debug, PartialEq, Eq, Structural)]
pub enum Screen {
    Warning,
    ModPicker,
}

/// One user-interface event.
#[derive(Clone, Debug, PartialEq, Eq)]
pub enum Message {
    ChangeScreen(Screen),
    ChangeSelected(ModInfo),
    InstallMod,
    PickDataWinFile,
    /// The caller picked a target file after a `PickFile` answer.
    SetDataWinPath(String),
    LaunchGame,
    OpenModPage,
}

/// What the caller must do after handling a message.
#[derive(Clone, Debug, PartialEq, Eq)]
pub enum UiAction {
    /// Nothing: the state change was the whole effect.
    Idle,
    /// Run the install pipeline for the selected mod against the target file.
    RunInstall { mod_id: i32, target_path: String },
    /// Let the user pick the target file, then send `SetDataWinPath`.
    PickFile,
    /// Open the given address with the system handler.
    OpenPage { url: String },
}

/// The address that launches the game itself.
pub open spec fn game_launch_url_spec() -> Seq<char> {
    "steam://rungameid/2741670"@
}

/// The main application state.
pub struct Brainsurf {
    pub screen: Screen,
    /// The mods the listing returned, in listing order.
    pub mods: Vec<ModInfo>,
    pub selected_mod: Option<ModInfo>,
    /// The user's chosen target file, once picked.
    pub data_win_path: Option<String>,
    pub done_installing: bool,
}

impl Brainsurf {
    /// A fresh state over the listed mods: the warning screen, nothing
    /// selected, no target picked, nothing installed.
    pub fn new(mods: Vec<ModInfo>) -> (r: Self)
        ensures
            r.screen is Warning,
            r.mods == mods,
            r.selected_mod is None,
            r.data_win_path is None,
            !r.done_installing,
    {
        Brainsurf {
            screen: Screen::Warning,
            mods,
            selected_mod: None,
            data_win_path: None,
            done_installing: false,
        }
    }

    /// The label of a screen.
    pub open spec fn screen_label_spec(screen: Screen) -> Seq<char> {
        match screen {
            Screen::Warning => "WARNING"@,
            Screen::ModPicker => "Mod Picker"@,
        }
    }

    /// The window title: the application name and the screen's label.
    pub open spec fn title_spec(screen: Screen) -> Seq<char> {
        "brainsurf - "@ + Self::screen_label_spec(screen)
    }

    /// The window title for the current screen.
    pub fn title(&self) -> (r: String)
        ensures
            r@ == Self::title_spec(self.screen),
    {
        let label = match self.screen {
            Screen::Warning => "WARNING",
            Screen::ModPicker => "Mod Picker",
        };
        let s = String::from_str("brainsurf - ");
        s.concat(label)
    }

    /// What one message does: how the state changes, and what the caller must
    /// then do. Installing marks the state done on the expectation that the
    /// caller performs the returned action before presenting the state again.
    pub fn update(&mut self, event: Message) -> (action: UiAction)
        requires
            event is InstallMod ==> old(self).selected_mod is Some && old(
                self,
            ).data_win_path is Some,
            event is OpenModPage ==> old(self).selected_mod is Some,
        ensures
            (event matches Message::ChangeScreen(s) ==> *final(self) == (Brainsurf {
                screen: s,
                ..*old(self)
            }) && action is Idle),
            (event matches Message::ChangeSelected(m) ==> *final(self) == (Brainsurf {
                selected_mod: Some(m),
                done_installing: false,
                ..*old(self)
            }) && action is Idle),
            (event is InstallMod ==> *final(self) == (Brainsurf {
                done_installing: true,
                ..*old(self)
            }) && (old(self).selected_mod matches Some(m) ==> (old(
                self,
            ).data_win_path matches Some(p) ==> action matches UiAction::RunInstall {
                mod_id,
                target_path,
            } && mod_id == m.id && target_path@ == p@))),
            (event is PickDataWinFile ==> *final(self) == *old(self) && action is PickFile),
            (event matches Message::SetDataWinPath(p) ==> *final(self) == (Brainsurf {
                data_win_path: Some(p),
                ..*old(self)
            }) && action is Idle),
            (event is LaunchGame ==> *final(self) == *old(self) && (action
                matches UiAction::OpenPage { url } && url@ == game_launch_url_spec())),
            (event is OpenModPage ==> *final(self) == *old(self) && (old(
                self,
            ).selected_mod matches Some(m) ==> (action matches UiAction::OpenPage { url } && url@
                == mod_page_url_spec(dec_rep_int(m.id as int))))),
    {
        match event {
            Message::ChangeScreen(new_screen) => {
                self.screen = new_screen;
                UiAction::Idle
            },
            Message::ChangeSelected(new_selected) => {
                self.selected_mod = Some(new_selected);
                self.done_installing = false;
                UiAction::Idle
            },
            Message::InstallMod => {
                self.done_installing = true;
                let mod_id = match &self.selected_mod {
                    Some(m) => m.id,
                    None => {
                        proof {
                            assert(false);
                        }
                        0
                    },
                };
                let target_path = match &self.data_win_path {
                    Some(p) => p.clone(),
                    None => {
                        proof {
                            assert(false);
                        }
                        String::new()
                    },
                };
                UiAction::RunInstall { mod_id, target_path }
            },
            Message::PickDataWinFile => UiAction::PickFile,
            Message::SetDataWinPath(p) => {
                self.data_win_path = Some(p);
                UiAction::Idle
            },
            Message::LaunchGame => {
                UiAction::OpenPage { url: String::from_str("steam://rungameid/2741670") }
            },
            Message::OpenModPage => {
                let url = match &self.selected_mod {
                    Some(m) => reference_for_mod(m.id),
                    None => {
                        proof {
                            assert(false);
                        }
                        String::new()
                    },
                };
                UiAction::OpenPage { url }
            },
        }
    }
}

} // verus!
