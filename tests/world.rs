use temple_adventure::grammar::ItemNode;
use temple_adventure::item::{DamageLevel, DamageType, Item, ItemBuilder};
use temple_adventure::location::{ExitBuilder, ExitExists, Exits, Location, ObjId};
use temple_adventure::player::Player;
use temple_adventure::token::DirectionType;

fn item(t: &str) -> ItemBuilder {
    ItemBuilder::new(t, &format!("a {}", t), &format!("A plain {}.", t))
}

fn with_health(max: i32, cur: i32) -> Item {
    item("thing").set_max_health(max).set_current_health(cur).finalize()
}

#[test]
fn damage_levels() {
    assert_eq!(with_health(4, 4).damage_level(), DamageLevel::NODAMAGE);
    assert_eq!(with_health(4, 3).damage_level(), DamageLevel::LIGHT);
    assert_eq!(with_health(4, 2).damage_level(), DamageLevel::LIGHT);
    assert_eq!(with_health(4, 1).damage_level(), DamageLevel::HEAVY);
    assert_eq!(with_health(4, 0).damage_level(), DamageLevel::DESTROYED);
    assert_eq!(with_health(3, 1).damage_level(), DamageLevel::HEAVY);
    assert_eq!(with_health(-1, -1).damage_level(), DamageLevel::NODAMAGE);
    assert_eq!(with_health(-1, 0).damage_level(), DamageLevel::NODAMAGE);
}

#[test]
fn pending_damage_shows_on_the_next_tick() {
    let mut seal = item("seal")
        .set_health(3)
        .set_light_damage_desc("Cracked.")
        .set_heavy_damage_desc("Holed.")
        .set_destroyed_desc("Rubble.")
        .finalize();
    seal.damage(1);
    assert_eq!(seal.current_health, 3);
    assert_eq!(seal.to_dmg, 1);
    let mut out = String::new();
    seal.update(&mut out);
    assert_eq!(seal.current_health, 2);
    assert_eq!(seal.to_dmg, 0);
    assert_eq!(out, "Cracked.\n");
    // Same level again: nothing to tell.
    let mut out = String::new();
    seal.update(&mut out);
    assert_eq!(out, "");
}

#[test]
fn max_health_damage_destroys_and_stops_at_zero() {
    let mut seal = item("seal").set_health(3).set_destroyed_desc("Rubble.").finalize();
    for _ in 0..3 {
        seal.damage(1);
    }
    let mut out = String::new();
    seal.update(&mut out);
    assert_eq!(seal.current_health, 0);
    assert_eq!(seal.damage_level(), DamageLevel::DESTROYED);
    assert_eq!(out, "Rubble.\n");
    seal.damage(5);
    seal.update(&mut String::new());
    assert_eq!(seal.current_health, 0);
}

#[test]
fn one_damage_per_turn_destroys_after_max_health_turns() {
    let mut seal = item("seal").set_health(3).finalize();
    let mut healths = Vec::new();
    for _ in 0..4 {
        seal.damage(1);
        seal.update(&mut String::new());
        healths.push(seal.current_health);
    }
    assert_eq!(healths, vec![2, 1, 0, 0]);
    assert_eq!(seal.damage_level(), DamageLevel::DESTROYED);
}

#[test]
fn indestructible_items_keep_their_health() {
    let mut rock = item("rock").finalize();
    rock.damage(2);
    rock.update(&mut String::new());
    assert_eq!(rock.current_health, -1);
    assert_eq!(rock.damage_level(), DamageLevel::NODAMAGE);
}

#[test]
fn tick_reaches_attached_items() {
    let mut ceiling = item("ceiling").set_scenery(true).finalize();
    let mut root = item("root").set_health(2).set_light_damage_desc("Frayed.").finalize();
    root.damage(1);
    ceiling.attach_item(root);
    let mut out = String::new();
    ceiling.update(&mut out);
    assert_eq!(out, "Frayed.\n");
    assert_eq!(ceiling.attached_items[0].current_health, 1);
}

#[test]
fn blocking_predicate() {
    assert!(with_health(3, 1).is_blocking());
    assert!(!with_health(3, 0).is_blocking());
    let mut root = item("root").set_can_attach(true).finalize();
    assert!(root.is_blocking());
    root.attach_item(item("rope").finalize());
    assert!(!root.is_blocking());
    let mut lamp = item("lantern").set_can_turn_on(true).set_is_on(true).finalize();
    assert!(lamp.is_blocking());
    assert_eq!(lamp.toggle_on(), Some(false));
    assert!(!lamp.is_blocking());
    assert_eq!(item("rock").finalize().toggle_on(), None);
}

#[test]
fn descriptions_follow_state() {
    let mut lamp = item("lantern")
        .set_can_turn_on(true)
        .set_is_on_desc("It glows.")
        .finalize();
    assert_eq!(lamp.description(), "A plain lantern.");
    lamp.toggle_on();
    assert_eq!(lamp.description(), "A plain lantern. It glows.");
}

#[test]
fn finalized_items_get_distinct_ids() {
    let a = item("key").finalize();
    let b = item("key").finalize();
    assert_ne!(a.get_id(), b.get_id());
    assert_eq!(b.find_item_by_id(b.get_id()).map(|i| i.get_id()), Some(b.get_id()));
    assert!(b.find_item_by_id(a.get_id()).is_none());
}

#[test]
fn find_by_id_searches_attached_items() {
    let mut ceiling = item("ceiling").finalize();
    let root = item("root").finalize();
    let id = root.get_id();
    ceiling.attach_item(root);
    assert_eq!(ceiling.find_item_by_id(id).map(|i| i.i_type.clone()), Some("root".to_string()));
}

#[test]
fn exit_builder_defaults() {
    let e = ExitBuilder::new().set_dest(2).finalize();
    assert_eq!(e.dest, 2);
    assert_eq!(e.desc, "You may go");
    assert_eq!(e.blocked_desc, "You can't go that way.");
    assert!(e.travel_desc.is_none());
    assert!(e.blocked_by.is_none());
    let e = ExitBuilder::new().set_blocked_by_item(7).set_blocked_desc("Shut.").finalize();
    assert_eq!(e.blocked_by, Some(ObjId::ITEMID(7)));
    assert_eq!(e.blocked_desc, "Shut.");
}

#[test]
fn new_exits_are_all_absent() {
    let x = Exits::new("Nope.");
    for e in [&x.n, &x.s, &x.e, &x.w] {
        assert!(matches!(e, ExitExists::NO(m) if m == "Nope."));
    }
}

fn room() -> Location {
    Location::new("Room", "A room.", "No way.")
}

#[test]
fn blocked_exit_opens_when_blocker_stops_blocking() {
    let mut loc = room();
    let mut seal = item("seal").set_health(1).set_fixed(true).finalize();
    loc.add_exit(
        DirectionType::EAST,
        ExitBuilder::new().set_dest(1).set_desc("A door is").set_blocked_by_item(seal.get_id())
            .set_blocked_desc("Sealed.").finalize(),
    );
    let seal_id = seal.get_id();
    seal.damage(1);
    loc.add_item(seal);
    assert_eq!(loc.find_exit(DirectionType::EAST), None);
    assert_eq!(loc.display_exiting(DirectionType::EAST), "Sealed.");
    assert_eq!(loc.display_exits(), "A door is to the east. Sealed.\n");
    loc.update(&mut String::new());
    assert_eq!(loc.find_item_by_id(seal_id).map(|i| i.current_health), Some(0));
    assert_eq!(loc.find_exit(DirectionType::EAST), Some(1));
    assert_eq!(loc.display_exiting(DirectionType::EAST), "You go east.");
    assert_eq!(loc.display_exits(), "A door is to the east. \n");
    assert_eq!(loc.find_exit(DirectionType::WEST), None);
    assert_eq!(loc.display_exiting(DirectionType::WEST), "No way.");
}

#[test]
fn exit_without_blocker_is_open() {
    let mut loc = room();
    loc.add_exit(
        DirectionType::NORTH,
        ExitBuilder::new().set_dest(3).set_travel_desc("Off you go.").finalize(),
    );
    assert_eq!(loc.find_exit(DirectionType::NORTH), Some(3));
    assert_eq!(loc.display_exiting(DirectionType::NORTH), "Off you go.");
}

#[test]
fn item_lists_read_naturally() {
    let mut loc = room();
    assert_eq!(loc.display_items(), "\nThere is nothing else of note that you can see here.");
    loc.add_item(item("key").finalize());
    assert_eq!(loc.display_items(), "\nThere is a key here.");
    loc.add_item(item("rope").finalize());
    assert_eq!(loc.display_items(), "\nThere is a key and a rope here.");
    loc.add_item(item("idol").finalize());
    assert_eq!(loc.display_items(), "\nThere is a key, a rope, and a idol here.");
}

#[test]
fn attached_items_are_listed() {
    let mut loc = room();
    let mut ceiling = ItemBuilder::new("ceiling", "ceiling", "Stone.").set_scenery(true).finalize();
    ceiling.attach_item(item("root").finalize());
    loc.add_item(ceiling);
    assert_eq!(loc.scenery_items.len(), 1);
    assert!(loc.items.is_empty());
    assert_eq!(loc.display_items(), "\nAttached to the ceiling is a root.");
    assert_eq!(
        loc.display(),
        "Room:\nA room.\n\nAttached to the ceiling is a root."
    );
}

#[test]
fn location_lookup_order() {
    let mut loc = room();
    let mut ceiling = ItemBuilder::new("ceiling", "the ceiling", "Stone.").set_scenery(true).finalize();
    ceiling.attach_item(item("root").finalize());
    loc.add_item(ceiling);
    loc.add_item(item("key").finalize());
    let node = |t: &str| ItemNode::new(t, t);
    assert_eq!(loc.find_item(&node("root")).map(|i| i.name.clone()), Some("a root".to_string()));
    assert_eq!(loc.find_item(&node("ceiling")).map(|i| i.is_scenery), Some(true));
    assert!(loc.find_item(&node("idol")).is_none());
    // Only manipulable items can be removed.
    assert!(loc.remove_item(&node("ceiling")).is_none());
    assert!(loc.remove_item(&node("root")).is_none());
    assert_eq!(loc.remove_item(&node("key")).map(|i| i.i_type), Some("key".to_string()));
    assert!(loc.items.is_empty());
}

#[test]
fn player_inventory() {
    let mut p = Player::new(3);
    assert_eq!(p.location, 3);
    assert_eq!(p.display_inventory(), "You are carrying nothing.");
    p.add_item(item("key").finalize());
    p.add_item(item("rope").finalize());
    assert_eq!(p.display_inventory(), "You are carrying:\n\ta key\n\ta rope");
    let node = ItemNode::new("rope", "rope");
    assert_eq!(p.find_item(&node).map(|i| i.name.clone()), Some("a rope".to_string()));
    assert_eq!(p.remove_item(&node).map(|i| i.i_type), Some("rope".to_string()));
    assert!(p.find_item(&node).is_none());
    assert_eq!(p.inventory.len(), 1);
}
