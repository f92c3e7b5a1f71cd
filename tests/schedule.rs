use factory_core::clock::{TickClock, TICK_SPEED};
use factory_core::schedule::Stage;
use factory_core::tile::TileVariant;

#[test]
fn stages_run_in_frame_order() {
    assert_eq!(
        Stage::frame_order(),
        vec![Stage::Ui, Stage::Setup, Stage::Tick, Stage::Animation]
    );
}

#[test]
fn stage_names() {
    assert_eq!(Stage::Ui.name(), "factory_ui");
    assert_eq!(Stage::Setup.name(), "factory_setup");
    assert_eq!(Stage::Tick.name(), "factory_tick");
    assert_eq!(Stage::Animation.name(), "factory_animation");
}

#[test]
fn tick_stage_runs_only_on_tick() {
    let mut clock = TickClock::new();
    clock.advance(TICK_SPEED / 2);
    assert!(!Stage::Tick.runs_this_frame(&clock));
    assert!(Stage::Ui.runs_this_frame(&clock));
    assert!(Stage::Setup.runs_this_frame(&clock));
    assert!(Stage::Animation.runs_this_frame(&clock));
    clock.advance(TICK_SPEED / 2);
    assert!(Stage::Tick.runs_this_frame(&clock));
}

#[test]
fn tile_material_indices() {
    assert_eq!(TileVariant::Blank.material_index(), 0);
    assert_eq!(TileVariant::Input.material_index(), 1);
    assert_eq!(TileVariant::Output.material_index(), 2);
    assert_eq!(TileVariant::Misc.material_index(), 3);
}
