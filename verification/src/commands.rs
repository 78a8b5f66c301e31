//! The settings commands of the user interface. Each keeps the base URL of
//! the shared state in step with the store: once a record has been loaded,
//! saved or reset, its URL becomes the base URL. The store always comes
//! first, so where writing it fails the base URL stays as it was.

use crate::settings::{
    default_settings, effect_views, load_plan, load_settings, reset_plan, reset_settings, run,
    save_plan, save_settings, stored_view, AppSettings, AppSettingsView, Effect, EffectView,
    SettingsPlan, SettingsPlanView, World,
};
use vstd::prelude::*;

verus! {

/// Getting the settings: load them, then make their URL the base URL.
pub open spec fn get_settings_plan(stored: Option<AppSettingsView>) -> SettingsPlanView {
    let loaded = load_plan(stored);
    SettingsPlanView {
        settings: loaded.settings,
        effects: loaded.effects.push(EffectView::Configure(loaded.settings.api_url)),
    }
}

/// Saving settings: write them to the store, then make their URL the base
/// URL.
pub open spec fn save_settings_cmd_plan(settings: AppSettingsView) -> Seq<EffectView> {
    save_plan(settings) + seq![EffectView::Configure(settings.api_url)]
}

/// Resetting the settings: write the defaults to the store, then make their
/// URL the base URL.
pub open spec fn reset_settings_cmd_plan() -> SettingsPlanView {
    let reset = reset_plan();
    SettingsPlanView {
        settings: reset.settings,
        effects: reset.effects.push(EffectView::Configure(reset.settings.api_url)),
    }
}

/// Answers the command that gets the settings, from what the caller found
/// in the store: `None` where the store holds no record.
pub fn get_settings(stored: Option<AppSettings>) -> (plan: SettingsPlan)
    ensures
        plan@ == get_settings_plan(stored_view(stored)),
{
    let loaded = load_settings(stored);
    let ghost before = effect_views(loaded.effects@);
    let settings = loaded.settings;
    let mut effects = loaded.effects;
    effects.push(Effect::Configure(settings.api_url.clone()));
    assert(effect_views(effects@) =~= before.push(EffectView::Configure(settings@.api_url)));
    SettingsPlan { settings, effects }
}

/// Answers the command that saves settings.
pub fn save_settings_cmd(settings: AppSettings) -> (effects: Vec<Effect>)
    ensures
        effect_views(effects@) == save_settings_cmd_plan(settings@),
{
    let mut effects = save_settings(&settings);
    let ghost persist = effect_views(effects@);
    effects.push(Effect::Configure(settings.api_url.clone()));
    assert(effect_views(effects@) =~= persist + seq![EffectView::Configure(settings@.api_url)]);
    effects
}

/// Answers the command that resets the settings.
pub fn reset_settings_cmd() -> (plan: SettingsPlan)
    ensures
        plan@ == reset_settings_cmd_plan(),
{
    let reset = reset_settings();
    let ghost before = effect_views(reset.effects@);
    let settings = reset.settings;
    let mut effects = reset.effects;
    effects.push(Effect::Configure(settings.api_url.clone()));
    assert(effect_views(effects@) =~= before.push(EffectView::Configure(settings@.api_url)));
    SettingsPlan { settings, effects }
}

/// Once the effects of getting the settings are done, the store holds the
/// record that the command answered with, and the base URL is that record's
/// URL.
pub proof fn law_get_settings_in_step(world: World)
    ensures
        ({
            let plan = get_settings_plan(world.stored);
            let after = run(world, plan.effects);
            after.stored == Some(plan.settings) && after.base_url == plan.settings.api_url
        }),
{
    reveal_with_fuel(run, 3);
    let plan = get_settings_plan(world.stored);
    if world.stored is None {
        assert(plan.effects.drop_first() =~= seq![EffectView::Configure(plan.settings.api_url)]);
    }
}

/// Once the effects of saving a record are done, the store holds that
/// record, and the base URL is its URL.
pub proof fn law_save_settings_in_step(world: World, settings: AppSettingsView)
    ensures
        ({
            let after = run(world, save_settings_cmd_plan(settings));
            after.stored == Some(settings) && after.base_url == settings.api_url
        }),
{
    reveal_with_fuel(run, 3);
    let effects = save_settings_cmd_plan(settings);
    assert(effects.drop_first() =~= seq![EffectView::Configure(settings.api_url)]);
}

/// Once the effects of a reset are done, the store holds the defaults, and
/// the base URL is the default URL.
pub proof fn law_reset_settings_in_step(world: World)
    ensures
        ({
            let plan = reset_settings_cmd_plan();
            let after = run(world, plan.effects);
            &&& plan.settings == default_settings()
            &&& after.stored == Some(default_settings())
            &&& after.base_url == default_settings().api_url
        }),
{
    reveal_with_fuel(run, 3);
    let plan = reset_settings_cmd_plan();
    assert(plan.effects.drop_first() =~= seq![
        EffectView::Configure(default_settings().api_url),
    ]);
}

/// Round trip: a record that was saved is the record that the next load
/// yields, whatever the store held before, and that load writes nothing.
pub proof fn law_save_then_load(world: World, settings: AppSettingsView)
    ensures
        ({
            let after = run(world, save_settings_cmd_plan(settings));
            &&& load_plan(after.stored).settings == settings
            &&& load_plan(after.stored).effects == Seq::<EffectView>::empty()
            &&& get_settings_plan(after.stored).settings == settings
            &&& load_plan(run(world, save_plan(settings)).stored).settings == settings
        }),
{
    law_save_settings_in_step(world, settings);
    reveal_with_fuel(run, 2);
}

/// First run: loading from a store without a record yields the defaults,
/// and once the effects are done the store holds them.
pub proof fn law_load_from_fresh_store(world: World)
    requires
        world.stored is None,
    ensures
        load_plan(world.stored).settings == default_settings(),
        run(world, load_plan(world.stored).effects).stored == Some(default_settings()),
        run(world, get_settings_plan(world.stored).effects).stored == Some(default_settings()),
{
    reveal_with_fuel(run, 2);
    law_get_settings_in_step(world);
}

/// The order of the effects, seen where the caller stops after the first
/// one. Every command that writes to the store does so first: saving leaves
/// the record in the store, resetting and getting from a store without a
/// record leave the defaults there, and in each case the base URL is still
/// as it was.
pub proof fn law_order_of_effects(world: World, settings: AppSettingsView)
    ensures
        ({
            let after = run(world, save_settings_cmd_plan(settings).take(1));
            after.base_url == world.base_url && after.stored == Some(settings)
        }),
        ({
            let after = run(world, reset_settings_cmd_plan().effects.take(1));
            after.base_url == world.base_url && after.stored == Some(default_settings())
        }),
        world.stored is None ==> ({
            let after = run(world, get_settings_plan(world.stored).effects.take(1));
            after.base_url == world.base_url && after.stored == Some(default_settings())
        }),
{
    reveal_with_fuel(run, 2);
    assert(save_settings_cmd_plan(settings).take(1) =~= seq![EffectView::Persist(settings)]);
    assert(reset_settings_cmd_plan().effects.take(1) =~= seq![
        EffectView::Persist(default_settings()),
    ]);
    if world.stored is None {
        assert(get_settings_plan(world.stored).effects.take(1) =~= seq![
            EffectView::Persist(default_settings()),
        ]);
    }
}

/// The base URL follows the store, never the other way round. Wherever the
/// caller stops, after any number of the effects of a command, the base URL
/// is as it was before the command or the store holds the record that the
/// command is about. So a command whose write to the store fails leaves the
/// base URL unchanged.
pub proof fn law_configuration_follows_store(world: World, settings: AppSettingsView, done: int)
    ensures
        0 <= done <= save_settings_cmd_plan(settings).len() ==> ({
            let after = run(world, save_settings_cmd_plan(settings).take(done));
            after.base_url == world.base_url || after.stored == Some(settings)
        }),
        0 <= done <= reset_settings_cmd_plan().effects.len() ==> ({
            let after = run(world, reset_settings_cmd_plan().effects.take(done));
            after.base_url == world.base_url || after.stored == Some(default_settings())
        }),
        0 <= done <= get_settings_plan(world.stored).effects.len() ==> ({
            let plan = get_settings_plan(world.stored);
            let after = run(world, plan.effects.take(done));
            after.base_url == world.base_url || after.stored == Some(plan.settings)
        }),
        run(world, save_settings_cmd_plan(settings).take(0)) == world,
{
    reveal_with_fuel(run, 3);
    let saving = save_settings_cmd_plan(settings);
    let resetting = reset_settings_cmd_plan().effects;
    let getting = get_settings_plan(world.stored).effects;
    assert(saving.take(0) =~= Seq::empty());
    if done == 0 {
        assert(resetting.take(0) =~= Seq::empty());
        assert(getting.take(0) =~= Seq::empty());
    } else if done == 1 {
        law_order_of_effects(world, settings);
        if world.stored is Some {
            assert(getting.take(1) =~= getting);
        }
    } else if done == 2 {
        law_save_settings_in_step(world, settings);
        law_reset_settings_in_step(world);
        law_get_settings_in_step(world);
        assert(saving.take(2) =~= saving);
        assert(resetting.take(2) =~= resetting);
        if world.stored is None {
            assert(getting.take(2) =~= getting);
        }
    }
}

} // verus!
