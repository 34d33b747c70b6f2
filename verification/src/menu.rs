//! The way through the screens: which event leads from which screen to
//! which.

use vstd::prelude::*;
use crate::options::{update_volume, volume_updated, stepped_level, VolumeButton};
use crate::settings::Settings;

verus! {

/// The screens of the game.
#[derive(Clone, Copy, Debug, PartialEq, Eq, Structural)]
pub enum Screen {
    /// The welcome screen.
    Start,
    /// The main menu.
    MainMenu,
    /// The options.
    Options,
    /// The game itself.
    Game,
}

/// The buttons of the menus.
#[derive(Clone, Copy, Debug, PartialEq, Eq, Structural)]
pub enum Button {
    /// Main menu: start a game.
    Start,
    /// Main menu: open the options.
    Options,
    /// Main menu: leave.
    Exit,
    /// Options: back to the main menu.
    Back,
    /// Options: one of the four volume buttons.
    Volume(VolumeButton),
}

/// What a menu screen hears of.
#[derive(Clone, Copy, Debug, PartialEq, Eq, Structural)]
pub enum MenuEvent {
    /// The window is about to close.
    CloseRequested,
    /// The escape key went down.
    EscapePressed,
    /// The left mouse button went down.
    MousePressed,
    /// A button was clicked.
    Clicked(Button),
    /// Anything else.
    Other,
}

/// Where a screen sends the player.
#[derive(Clone, Copy, Debug, PartialEq, Eq, Structural)]
pub enum Flow {
    /// Nowhere.
    Stay,
    /// Out of the application.
    Quit,
    /// To another screen.
    Switch(Screen),
}

pub open spec fn spec_start_screen_event(event: MenuEvent) -> Flow {
    match event {
        MenuEvent::CloseRequested => Flow::Quit,
        MenuEvent::EscapePressed => Flow::Quit,
        MenuEvent::MousePressed => Flow::Switch(Screen::MainMenu),
        _ => Flow::Stay,
    }
}

/// The welcome screen: a click leads on to the main menu, escape leaves.
#[verifier::when_used_as_spec(spec_start_screen_event)]
pub fn start_screen_event(event: MenuEvent) -> (r: Flow)
    ensures
        r == spec_start_screen_event(event),
{
    match event {
        MenuEvent::CloseRequested => Flow::Quit,
        MenuEvent::EscapePressed => Flow::Quit,
        MenuEvent::MousePressed => Flow::Switch(Screen::MainMenu),
        _ => Flow::Stay,
    }
}

pub open spec fn spec_main_menu_event(event: MenuEvent) -> Flow {
    match event {
        MenuEvent::CloseRequested => Flow::Quit,
        MenuEvent::EscapePressed => Flow::Switch(Screen::Start),
        MenuEvent::Clicked(Button::Start) => Flow::Switch(Screen::Game),
        MenuEvent::Clicked(Button::Options) => Flow::Switch(Screen::Options),
        MenuEvent::Clicked(Button::Exit) => Flow::Quit,
        _ => Flow::Stay,
    }
}

/// The main menu: its buttons lead to the game, to the options and out,
/// escape leads back to the welcome screen.
#[verifier::when_used_as_spec(spec_main_menu_event)]
pub fn main_menu_event(event: MenuEvent) -> (r: Flow)
    ensures
        r == spec_main_menu_event(event),
{
    match event {
        MenuEvent::CloseRequested => Flow::Quit,
        MenuEvent::EscapePressed => Flow::Switch(Screen::Start),
        MenuEvent::Clicked(Button::Start) => Flow::Switch(Screen::Game),
        MenuEvent::Clicked(Button::Options) => Flow::Switch(Screen::Options),
        MenuEvent::Clicked(Button::Exit) => Flow::Quit,
        _ => Flow::Stay,
    }
}

/// Where the options screen sends the player.
pub open spec fn options_flow(event: MenuEvent) -> Flow {
    match event {
        MenuEvent::CloseRequested => Flow::Quit,
        MenuEvent::EscapePressed => Flow::Switch(Screen::MainMenu),
        MenuEvent::Clicked(Button::Back) => Flow::Switch(Screen::MainMenu),
        _ => Flow::Stay,
    }
}

/// The options screen: a volume button steps the level that its label
/// shows and stores the new volume, the back button and escape lead back to
/// the main menu.
///
/// `level` is the level on the label of the clicked volume button, if the
/// label could be read. The second part of the answer is the level to write
/// on the label, where a volume has changed and wants saving.
pub fn options_event(settings: &mut Settings, event: MenuEvent, level: Option<i16>) -> (r: (
    Flow,
    Option<u8>,
))
    ensures
        r.0 == options_flow(event),
        match (event, level) {
            (MenuEvent::Clicked(Button::Volume(button)), Some(shown)) => {
                &&& *final(settings) == volume_updated(*old(settings), button, shown)
                &&& r.1 == Some(
                    stepped_level(
                        shown,
                        button == VolumeButton::MusicUp || button == VolumeButton::EffectsUp,
                    ) as u8,
                )
            },
            _ => *final(settings) == *old(settings) && r.1 is None,
        },
{
    match event {
        MenuEvent::CloseRequested => (Flow::Quit, None),
        MenuEvent::EscapePressed => (Flow::Switch(Screen::MainMenu), None),
        MenuEvent::Clicked(Button::Back) => (Flow::Switch(Screen::MainMenu), None),
        MenuEvent::Clicked(Button::Volume(button)) => {
            match level {
                Some(shown) => {
                    let next = update_volume(settings, button, shown);
                    (Flow::Stay, Some(next))
                },
                None => (Flow::Stay, None),
            }
        },
        _ => (Flow::Stay, None),
    }
}

} // verus!
