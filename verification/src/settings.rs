//! The settings record, and what its store owes: a record that was saved is
//! the record that is loaded, and a store without a record yields the
//! defaults and keeps them.
//!
//! The store itself is a file that the caller reads and writes. The
//! functions here take what the caller found in it, and answer with the
//! record to use and with the effects that the caller is to perform, in
//! their order.

use crate::state::{default_api_url, default_url};
use vstd::prelude::*;

verus! {

/// The user's settings.
#[derive(Debug, PartialEq, Eq)]
pub struct AppSettings {
    /// The base URL of the upstream API.
    pub api_url: String,
    /// Seconds between two refreshes.
    pub refresh_interval: u32,
    pub notifications: bool,
    pub dark_mode: bool,
}

/// An `AppSettings` with its text as a sequence.
pub struct AppSettingsView {
    pub api_url: Seq<char>,
    pub refresh_interval: u32,
    pub notifications: bool,
    pub dark_mode: bool,
}

impl View for AppSettings {
    type V = AppSettingsView;

    open spec fn view(&self) -> AppSettingsView {
        AppSettingsView {
            api_url: self.api_url@,
            refresh_interval: self.refresh_interval,
            notifications: self.notifications,
            dark_mode: self.dark_mode,
        }
    }
}

/// The built-in settings: the local upstream, a refresh every 30 seconds,
/// notifications and dark mode on.
pub open spec fn default_settings() -> AppSettingsView {
    AppSettingsView {
        api_url: default_api_url(),
        refresh_interval: 30,
        notifications: true,
        dark_mode: true,
    }
}

impl Default for AppSettings {
    fn default() -> (r: Self)
        ensures
            r@ == default_settings(),
    {
        AppSettings {
            api_url: default_url(),
            refresh_interval: 30,
            notifications: true,
            dark_mode: true,
        }
    }
}

impl Clone for AppSettings {
    fn clone(&self) -> (r: Self)
        ensures
            r == *self,
    {
        AppSettings {
            api_url: self.api_url.clone(),
            refresh_interval: self.refresh_interval,
            notifications: self.notifications,
            dark_mode: self.dark_mode,
        }
    }
}

/// Something the caller is to do to the world outside the library.
#[derive(Debug, PartialEq, Eq)]
pub enum Effect {
    /// Write the record to the store, in place of what is there.
    Persist(AppSettings),
    /// Make the text the base URL of the shared state.
    Configure(String),
}

/// An `Effect` with its texts as sequences.
pub enum EffectView {
    Persist(AppSettingsView),
    Configure(Seq<char>),
}

impl View for Effect {
    type V = EffectView;

    open spec fn view(&self) -> EffectView {
        match self {
            Effect::Persist(settings) => EffectView::Persist(settings@),
            Effect::Configure(url) => EffectView::Configure(url@),
        }
    }
}

/// What the caller found in the store, with its text as a sequence.
pub open spec fn stored_view(stored: Option<AppSettings>) -> Option<AppSettingsView> {
    match stored {
        Some(settings) => Some(settings@),
        None => None,
    }
}

/// The effects of a list, with their texts as sequences.
pub open spec fn effect_views(effects: Seq<Effect>) -> Seq<EffectView> {
    effects.map_values(|effect: Effect| effect@)
}

/// The record that a command answers with, and the effects that the caller
/// is to perform, first to last. Where one fails, those after it are left
/// undone.
#[derive(Debug, PartialEq, Eq)]
pub struct SettingsPlan {
    pub settings: AppSettings,
    pub effects: Vec<Effect>,
}

/// A `SettingsPlan` with its texts as sequences.
pub struct SettingsPlanView {
    pub settings: AppSettingsView,
    pub effects: Seq<EffectView>,
}

impl View for SettingsPlan {
    type V = SettingsPlanView;

    open spec fn view(&self) -> SettingsPlanView {
        SettingsPlanView { settings: self.settings@, effects: effect_views(self.effects@) }
    }
}

/// What the effects act on: the record in the store, where there is one,
/// and the base URL of the shared state.
pub struct World {
    pub stored: Option<AppSettingsView>,
    pub base_url: Seq<char>,
}

/// The world after one effect.
pub open spec fn apply(world: World, effect: EffectView) -> World {
    match effect {
        EffectView::Persist(settings) => World { stored: Some(settings), base_url: world.base_url },
        EffectView::Configure(url) => World { stored: world.stored, base_url: url },
    }
}

/// The world after all effects of a list, first to last.
pub open spec fn run(world: World, effects: Seq<EffectView>) -> World
    decreases effects.len(),
{
    if effects.len() == 0 {
        world
    } else {
        run(apply(world, effects[0]), effects.drop_first())
    }
}

/// Loading: the record of the store where there is one, and nothing to do;
/// else the defaults, which are to be written to the store.
pub open spec fn load_plan(stored: Option<AppSettingsView>) -> SettingsPlanView {
    match stored {
        Some(settings) => SettingsPlanView { settings, effects: Seq::empty() },
        None => SettingsPlanView {
            settings: default_settings(),
            effects: seq![EffectView::Persist(default_settings())],
        },
    }
}

/// Saving: the record is to be written to the store.
pub open spec fn save_plan(settings: AppSettingsView) -> Seq<EffectView> {
    seq![EffectView::Persist(settings)]
}

/// Resetting: the defaults, which are to be written to the store.
pub open spec fn reset_plan() -> SettingsPlanView {
    SettingsPlanView {
        settings: default_settings(),
        effects: seq![EffectView::Persist(default_settings())],
    }
}

/// The name of the file that holds the record, inside the application's
/// private data directory.
pub fn settings_file_name() -> (name: &'static str)
    ensures
        name@ == "settings.json"@,
{
    "settings.json"
}

/// Loads the settings from what the caller found in the store: `None` where
/// the store holds no record.
pub fn load_settings(stored: Option<AppSettings>) -> (plan: SettingsPlan)
    ensures
        plan@ == load_plan(stored_view(stored)),
{
    match stored {
        Some(settings) => {
            let plan = SettingsPlan { settings, effects: Vec::new() };
            assert(plan@.effects =~= Seq::empty());
            plan
        },
        None => {
            let settings = AppSettings::default();
            let mut effects: Vec<Effect> = Vec::new();
            effects.push(Effect::Persist(settings.clone()));
            let plan = SettingsPlan { settings, effects };
            assert(plan@.effects =~= seq![EffectView::Persist(default_settings())]);
            plan
        },
    }
}

/// Saves a record.
pub fn save_settings(settings: &AppSettings) -> (effects: Vec<Effect>)
    ensures
        effect_views(effects@) == save_plan(settings@),
{
    let mut effects: Vec<Effect> = Vec::new();
    effects.push(Effect::Persist(settings.clone()));
    assert(effect_views(effects@) =~= save_plan(settings@));
    effects
}

/// Resets the settings to the defaults.
pub fn reset_settings() -> (plan: SettingsPlan)
    ensures
        plan@ == reset_plan(),
{
    let settings = AppSettings::default();
    let mut effects: Vec<Effect> = Vec::new();
    effects.push(Effect::Persist(settings.clone()));
    let plan = SettingsPlan { settings, effects };
    assert(plan@.effects =~= seq![EffectView::Persist(default_settings())]);
    plan
}

} // verus!
