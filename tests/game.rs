use temple_adventure::builder::build_fixed_world;
use temple_adventure::controller::{play_turn, resolve};
use temple_adventure::gamestate::{check_world, GameState, Place};
use temple_adventure::grammar::ItemNode;
use temple_adventure::item::{DamageLevel, DamageType, ItemBuilder};
use temple_adventure::location::{ExitBuilder, Location};
use temple_adventure::parser::parse_line;
use temple_adventure::token::DirectionType;

/// Two rooms; the seal in the first blocks the way east.
fn seal_world() -> GameState {
    let mut start = Location::new("Start", "A small room.", "No exit.");
    let seal = ItemBuilder::new("seal", "a stone seal", "A seal of stone.")
        .set_fixed(true)
        .set_health(3)
        .set_damaged_by(DamageType::SMASHING)
        .set_destroyed_desc("The seal lies in pieces.")
        .finalize();
    start.add_exit(
        DirectionType::EAST,
        ExitBuilder::new().set_dest(1).set_desc("A door").set_blocked_by_item(seal.get_id())
            .set_blocked_desc("The door is sealed.").finalize(),
    );
    start.add_item(seal);
    start.add_item(
        ItemBuilder::new("pickaxe", "a pickaxe", "A heavy pickaxe.")
            .set_damage_type(DamageType::SMASHING)
            .finalize(),
    );
    let mut beyond = Location::new("Beyond", "The far room.", "No exit.");
    beyond.add_exit(DirectionType::WEST, ExitBuilder::new().set_dest(0).finalize());
    let locations = vec![start, beyond];
    assert!(check_world(0, &locations));
    GameState::new(0, locations)
}

fn turn(gs: &mut GameState, line: &str) -> String {
    play_turn(gs, parse_line(line)).response
}

#[test]
fn smashing_the_seal_opens_the_exit() {
    let mut gs = seal_world();
    assert_eq!(turn(&mut gs, "take pickaxe"), "You pick up the pickaxe.");
    assert_eq!(gs.current_location().find_exit(DirectionType::EAST), None);
    for _ in 0..3 {
        assert_eq!(turn(&mut gs, "use pickaxe"), "You smash the seal with the pickaxe.");
    }
    let seal = &gs.current_location().items[0];
    assert_eq!(seal.current_health, 0);
    assert_eq!(seal.damage_level(), DamageLevel::DESTROYED);
    assert_eq!(gs.current_location().find_exit(DirectionType::EAST), Some(1));
    assert_eq!(turn(&mut gs, "use pickaxe"), "The seal is already destroyed.");
    assert_eq!(gs.current_location().items[0].current_health, 0);
    assert!(turn(&mut gs, "go east").starts_with("You go east.\nBeyond:"));
    assert_eq!(gs.player().location, 1);
}

#[test]
fn destruction_is_narrated_once() {
    let mut gs = seal_world();
    turn(&mut gs, "take pickaxe");
    let mut narrations = Vec::new();
    for _ in 0..3 {
        let report = play_turn(&mut gs, parse_line("use pickaxe"));
        narrations.push(report.narration.unwrap());
    }
    assert_eq!(narrations[2], "The seal lies in pieces.\n");
}

#[test]
fn taking_an_absent_item() {
    let mut gs = seal_world();
    assert_eq!(turn(&mut gs, "take banana"), "You don't see a banana here.");
    assert_eq!(turn(&mut gs, "take key"), "You don't see a key here.");
    assert!(gs.player().inventory.is_empty());
    assert_eq!(turn(&mut gs, "drop key"), "You aren't carrying a key.");
    assert_eq!(turn(&mut gs, "examine idol"), "You don't see a idol here.");
    assert_eq!(turn(&mut gs, "use rope"), "You aren't carrying a rope.");
}

#[test]
fn quit_dialog() {
    let mut gs = seal_world();
    let report = play_turn(&mut gs, parse_line("quit"));
    assert_eq!(
        report.response,
        "\nAre you sure you want to quit? Your game will not be saved. (yes/[no])\n"
    );
    assert!(report.narration.is_none());
    assert!(gs.awaiting_quit);
    assert_eq!(turn(&mut gs, "no"), "Excellent.");
    assert!(!gs.awaiting_quit);
    assert!(!gs.break_control);
    assert_eq!(turn(&mut gs, "take pickaxe"), "You pick up the pickaxe.");
    turn(&mut gs, "quit");
    assert_eq!(turn(&mut gs, "yes"), "Goodbye");
    assert!(gs.break_control);
}

#[test]
fn quit_dialog_other_answers() {
    let mut gs = seal_world();
    turn(&mut gs, "quit");
    assert_eq!(turn(&mut gs, "take pickaxe"), "I'll take that as a no.");
    assert!(gs.player().inventory.is_empty());
    assert!(!gs.break_control);
    turn(&mut gs, "quit");
    assert_eq!(turn(&mut gs, "gibberish 12"), "I'll take that as a no.");
    turn(&mut gs, "quit");
    assert_eq!(turn(&mut gs, "quit"), "Goodbye");
    assert!(gs.break_control);
}

#[test]
fn taking_a_fixed_item_changes_nothing() {
    let mut gs = seal_world();
    let before: Vec<String> = gs.current_location().items.iter().map(|i| i.i_type.clone()).collect();
    assert_eq!(turn(&mut gs, "take seal"), "You can't pick up the seal.");
    let after: Vec<String> = gs.current_location().items.iter().map(|i| i.i_type.clone()).collect();
    assert_eq!(before, after);
    assert!(gs.player().inventory.is_empty());
}

#[test]
fn take_then_drop_round_trip() {
    let mut gs = seal_world();
    let id = gs.current_location().items[1].get_id();
    assert_eq!(turn(&mut gs, "get pick"), "You pick up the pick.");
    assert_eq!(gs.current_location().items.len(), 1);
    assert_eq!(gs.player().inventory.len(), 1);
    assert_eq!(gs.player().inventory[0].get_id(), id);
    assert_eq!(turn(&mut gs, "i"), "You are carrying:\n\ta pickaxe");
    assert_eq!(turn(&mut gs, "drop pickaxe"), "Dropped.");
    assert!(gs.player().inventory.is_empty());
    let ids: Vec<u128> = gs.current_location().items.iter().map(|i| i.get_id()).collect();
    assert_eq!(ids.len(), 2);
    assert!(ids.contains(&id));
    assert_eq!(turn(&mut gs, "inventory"), "You are carrying nothing.");
}

fn lamp_world() -> GameState {
    let mut start = Location::new("Start", "Dark.", "No exit.");
    let lamp = ItemBuilder::new("lantern", "a lantern", "A lantern.")
        .set_can_turn_on(true)
        .set_is_on(true)
        .set_is_on_desc("It is lit.")
        .finalize();
    start.add_exit(
        DirectionType::NORTH,
        ExitBuilder::new().set_dest(1).set_blocked_by_item(lamp.get_id()).finalize(),
    );
    start.add_item(lamp);
    let other = Location::new("Other", "Elsewhere.", "No exit.");
    GameState::new(0, vec![start, other])
}

#[test]
fn toggling_the_blocker_flips_the_exit() {
    let mut gs = lamp_world();
    assert_eq!(gs.current_location().find_exit(DirectionType::NORTH), None);
    assert_eq!(turn(&mut gs, "x lamp"), "A lantern. It is lit.");
    assert_eq!(turn(&mut gs, "use lamp"), "You turn off the lantern.");
    assert_eq!(gs.current_location().find_exit(DirectionType::NORTH), Some(1));
    assert_eq!(turn(&mut gs, "use lamp"), "You turn on the lantern.");
    assert_eq!(gs.current_location().find_exit(DirectionType::NORTH), None);
    assert_eq!(turn(&mut gs, "go north"), "You can't go that way.");
    assert_eq!(gs.player().location, 0);
}

#[test]
fn direct_state_operations() {
    let mut gs = lamp_world();
    let node = ItemNode::new("lantern", "lamp");
    assert_eq!(gs.turn_on_item(&node), Some(false));
    assert_eq!(gs.get_item(&node), Some(true));
    assert_eq!(gs.turn_on_item(&node), Some(true));
    assert_eq!(gs.damage_first_item(Some(DamageType::CUTTING)), None);
    assert_eq!(gs.damage_first_item(None), None);
    assert_eq!(gs.attach_first_item(&node), None);
    assert!(gs.drop_item(&node));
    assert!(!gs.drop_item(&node));
    assert!(!gs.update_player());
}

#[test]
fn unparsed_lines_and_stray_answers() {
    let mut gs = seal_world();
    assert_eq!(resolve(&mut gs, None), "I don't know how to do that.");
    assert_eq!(resolve(&mut gs, parse_line("yes")), "I don't know how to do that.");
    assert_eq!(turn(&mut gs, "go west"), "No exit.");
    assert_eq!(turn(&mut gs, "go east"), "The door is sealed.");
}

#[test]
fn look_describes_the_location() {
    let mut gs = seal_world();
    assert_eq!(
        turn(&mut gs, "look"),
        "Start:\nA small room.\nA door to the east. The door is sealed.\n\nThere is a stone seal and a pickaxe here."
    );
    assert_eq!(turn(&mut gs, "look at seal"), "A seal of stone.");
}

#[test]
fn inconsistent_worlds_are_detected() {
    let mut a = Location::new("A", "A.", "No.");
    a.add_exit(DirectionType::EAST, ExitBuilder::new().set_dest(5).finalize());
    assert!(!check_world(0, &vec![a]));
    assert!(!check_world(1, &vec![Location::new("A", "A.", "No.")]));
    assert!(check_world(0, &build_fixed_world()));
}

#[test]
fn the_whole_temple() {
    let mut gs = GameState::new(0, build_fixed_world());
    assert!(turn(&mut gs, "go east").starts_with("After hesitating a bare moment"));
    assert_eq!(turn(&mut gs, "take machete"), "You pick up the machete.");
    turn(&mut gs, "go east");
    turn(&mut gs, "go east");
    assert_eq!(gs.player().location, 3);
    assert_eq!(turn(&mut gs, "take rope"), "You pick up the rope.");
    assert_eq!(turn(&mut gs, "go north"), "The cobwebs are too thick to push through.");
    assert_eq!(turn(&mut gs, "use machete"), "You cut the cobwebs with the machete.");
    assert!(turn(&mut gs, "go north").starts_with("You go north.\nSeal Room:"));
    assert_eq!(turn(&mut gs, "go east"), "The door is sealed.");
    turn(&mut gs, "go south");
    turn(&mut gs, "go west");
    turn(&mut gs, "go north");
    assert_eq!(gs.player().location, 4);
    assert_eq!(turn(&mut gs, "go north"), "There's no way you can jump across the pit.");
    assert_eq!(turn(&mut gs, "use rope"), "You attach the rope to the root.");
    assert_eq!(gs.attach_first_item(&ItemNode::new("rope", "rope")), None);
    assert!(turn(&mut gs, "go north").starts_with("You swing deftly across the pit"));
    assert_eq!(turn(&mut gs, "take pickaxe"), "You pick up the pickaxe.");
    turn(&mut gs, "go south");
    turn(&mut gs, "go south");
    turn(&mut gs, "go east");
    turn(&mut gs, "go north");
    assert_eq!(gs.player().location, 7);
    for _ in 0..3 {
        assert_eq!(turn(&mut gs, "use pickaxe"), "You smash the seal with the pickaxe.");
    }
    assert!(turn(&mut gs, "go east").starts_with("You leave the small room behind"));
    let report = play_turn(&mut gs, parse_line("take idol"));
    assert_eq!(report.response, "You pick up the idol.");
    assert!(report.won);
    assert!(gs.update_player());
}

#[test]
fn attaching_reports_the_place() {
    let mut start = Location::new("Pit", "A pit.", "No exit.");
    let mut ceiling = ItemBuilder::new("ceiling", "the ceiling", "Stone.").set_scenery(true).finalize();
    ceiling.attach_item(ItemBuilder::new("root", "a root", "A root.").set_can_attach(true).finalize());
    start.add_item(ItemBuilder::new("pit", "a pit", "Deep.").set_scenery(true).finalize());
    start.add_item(ceiling);
    start.add_item(ItemBuilder::new("rope", "a rope", "Rope.").set_can_attach(true).finalize());
    let mut gs = GameState::new(0, vec![start]);
    let rope = ItemNode::new("rope", "rope");
    assert_eq!(gs.attach_first_item(&rope), None);
    assert_eq!(gs.get_item(&rope), Some(true));
    assert_eq!(gs.attach_first_item(&rope), Some(Place::ATTACHED(1, 0)));
    assert!(gs.player().inventory.is_empty());
    let root = &gs.current_location().scenery_items[1].attached_items[0];
    assert_eq!(root.attached_items.len(), 1);
    assert_eq!(root.attached_items[0].i_type, "rope");
}

fn collect_ids(items: &[temple_adventure::item::Item], out: &mut Vec<u128>) {
    for it in items {
        out.push(it.get_id());
        collect_ids(&it.attached_items, out);
    }
}

#[test]
fn built_world_item_ids_are_unique() {
    let world = build_fixed_world();
    let mut ids = Vec::new();
    for loc in &world {
        collect_ids(&loc.items, &mut ids);
        collect_ids(&loc.scenery_items, &mut ids);
    }
    assert_eq!(ids.len(), 10);
    let mut sorted = ids.clone();
    sorted.sort();
    sorted.dedup();
    assert_eq!(sorted.len(), ids.len());
}

#[test]
fn built_world_seal_blocks_the_chamber() {
    let world = build_fixed_world();
    assert_eq!(world.len(), 8);
    assert_eq!(world[0].find_exit(DirectionType::EAST), Some(1));
    let seal = &world[7].items[0];
    assert_eq!(seal.i_type, "seal");
    assert!(seal.is_fixed);
    assert_eq!((seal.max_health, seal.current_health), (3, 3));
    assert_eq!(seal.damaged_by, Some(DamageType::SMASHING));
    assert_eq!(world[7].find_exit(DirectionType::EAST), None);
}

#[test]
fn a_tick_without_pending_damage_is_silent() {
    let mut gs = GameState::new(0, build_fixed_world());
    assert_eq!(gs.update(), "");
    assert_eq!(gs.update(), "");
}
