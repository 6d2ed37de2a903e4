use vstd::prelude::*;

use crate::gamestate::exits_within;
use crate::item::{blocking, find_in_list, find_in_tree, item_wf, lemma_attach_wf, DamageType, Item, ItemBuilder};
use crate::location::{
    exit_in, location_wf, lookup_id, spec_find_exit, Exit, ExitBuilder, ExitExists, Location, ObjId,
};
use crate::token::DirectionType;

verus! {

/// Every location of `v` has its exits within `v` and keeps its scenery apart.
pub open spec fn all_wf(v: Seq<Location>) -> bool {
    forall|i: int| 0 <= i < v.len() ==> exits_within(#[trigger] v[i], v.len()) && location_wf(v[i])
}

fn add_exit_at(locations: &mut Vec<Location>, i: usize, d: DirectionType, exit: Exit)
    requires
        i < old(locations)@.len(),
        exit.dest < old(locations)@.len(),
        all_wf(old(locations)@),
    ensures
        final(locations)@.len() == old(locations)@.len(),
        all_wf(final(locations)@),
        forall|j: int| 0 <= j < old(locations)@.len() && j != i ==> final(locations)@[j] == old(
            locations,
        )@[j],
        final(locations)@[i as int].items == old(locations)@[i as int].items,
        final(locations)@[i as int].scenery_items == old(locations)@[i as int].scenery_items,
        exit_in(final(locations)@[i as int], d) == ExitExists::YES(exit),
        forall|o: DirectionType|
            o != d ==> exit_in(final(locations)@[i as int], o) == exit_in(
                old(locations)@[i as int],
                o,
            ),
{
    let ghost before = locations@;
    let ghost dest = exit.dest;
    locations[i].add_exit(d, exit);
    assert forall|j: int| 0 <= j < locations@.len() implies exits_within(
        #[trigger] locations@[j],
        locations@.len(),
    ) && location_wf(locations@[j]) by {
        if j != i {
            assert(locations@[j] == before[j]);
        } else {
            assert(exits_within(before[j], before.len()));
            assert forall|o: DirectionType| match #[trigger] exit_in(locations@[j], o) {
                ExitExists::YES(e) => e.dest < locations@.len(),
                ExitExists::NO(_) => true,
            } by {
                if o != d {
                    assert(exit_in(locations@[j], o) == exit_in(before[j], o));
                }
            }
        }
    }
}

fn add_item_at(locations: &mut Vec<Location>, i: usize, item: Item)
    requires
        i < old(locations)@.len(),
        item_wf(item),
        all_wf(old(locations)@),
    ensures
        final(locations)@.len() == old(locations)@.len(),
        all_wf(final(locations)@),
        forall|j: int| 0 <= j < old(locations)@.len() && j != i ==> final(locations)@[j] == old(
            locations,
        )@[j],
        final(locations)@[i as int].exits == old(locations)@[i as int].exits,
        !item.is_scenery ==> final(locations)@[i as int].items@ == old(
            locations,
        )@[i as int].items@.push(item),
        !item.is_scenery ==> final(locations)@[i as int].scenery_items == old(
            locations,
        )@[i as int].scenery_items,
{
    let ghost before = locations@;
    locations[i].add_item(item);
    assert forall|j: int| 0 <= j < locations@.len() implies exits_within(
        #[trigger] locations@[j],
        locations@.len(),
    ) && location_wf(locations@[j]) by {
        if j != i {
            assert(locations@[j] == before[j]);
        } else {
            assert(exits_within(before[j], before.len()));
            assert forall|o: DirectionType| #[trigger]
                exit_in(locations@[j], o) == exit_in(before[j], o) by {}
        }
    }
}

/// The temple: eight locations, starting outside at index 0, with their exits
/// and items. Every exit leads to one of the eight. The way east out of the
/// start is open; the seal room (7) holds a fixed stone seal of health 3 that
/// smashing damages, and it blocks the way east to the chamber (6).
pub fn build_fixed_world() -> (r: Vec<Location>)
    ensures
        r@.len() == 8,
        spec_find_exit(r@[0], DirectionType::EAST) == Some(1usize),
        r@[7].items@.len() == 1,
        ({
            let seal = r@[7].items@[0];
            &&& seal.i_type@ == "seal"@
            &&& seal.is_fixed
            &&& seal.max_health == 3
            &&& seal.current_health == 3
            &&& seal.damaged_by == Some(DamageType::SMASHING)
            &&& exit_in(r@[7], DirectionType::EAST) matches ExitExists::YES(e) && e.dest == 6
                && e.blocked_by == Some(ObjId::ITEMID(seal.id))
        }),
        spec_find_exit(r@[7], DirectionType::EAST) is None,
        forall|i: int|
            0 <= i < r@.len() ==> exits_within(#[trigger] r@[i], r@.len()) && location_wf(r@[i]),
{
    let mut locations = build_temple_locations();
    proof {
        assert forall|i: int| 0 <= i < locations@.len() implies exits_within(
            #[trigger] locations@[i],
            locations@.len(),
        ) && location_wf(locations@[i]) by {
            assert(exits_within(locations@[i], 0));
        }
    }
    proof {
        reveal_strlit("UNKNOWN");
        reveal_strlit("seal");
        assert("seal"@[0] != "UNKNOWN"@[0]);
        reveal_strlit("cobwebs");
        assert("cobwebs"@[0] != "UNKNOWN"@[0]);
        reveal_strlit("root");
        assert("root"@[0] != "UNKNOWN"@[0]);
        reveal_strlit("ceiling");
        assert("ceiling"@[0] != "UNKNOWN"@[0]);
    }
    let seal = ItemBuilder::new(
        "seal",
        "a stone seal",
        "The door is blocked with a seal of stone bricks. They appear to be worn with age, and might not stand for long.",
    ).set_fixed(true).set_health(3).set_damaged_by(DamageType::SMASHING).set_light_damage_desc(
        "The stones of the seal have begun to crack, and rock chips litter the ground.",
    ).set_heavy_damage_desc(
        "The seal sports a hole about the size of a baseball, and large gouges and cracks cross the stones.",
    ).set_destroyed_desc("The open door lies before you, the stone seal in pieces.").finalize();
    let cobwebs = ItemBuilder::new(
        "cobwebs",
        "thick cobwebs",
        "Cobwebs fill the tunnel, making it difficult to move any further.",
    ).set_fixed(true).set_health(1).set_damaged_by(DamageType::CUTTING).set_destroyed_desc(
        "The cobwebs hang limp against the wall, slashed through.",
    ).finalize();
    let root = ItemBuilder::new(
        "root",
        "a root",
        "The root is sturdy and positioned conveniently over the pit trap.",
    ).set_fixed(true).set_can_attach(true).finalize();
    add_exit_at(&mut locations, 0, 
        DirectionType::EAST,
        ExitBuilder::new().set_dest(1).set_desc(
            "The entrance, a door outlined in carved stone, lies",
        ).set_travel_desc("After hesitating a bare moment, you duck in the temple's entrance.").finalize(),
    );
    add_exit_at(&mut locations, 1, 
        DirectionType::WEST,
        ExitBuilder::new().set_dest(0).set_desc("Light beckons from the entrance").set_travel_desc(
            "You hurriedly walk back out into the light.",
        ).finalize(),
    );
    add_exit_at(&mut locations, 1, 
        DirectionType::EAST,
        ExitBuilder::new().set_dest(2).set_desc("The temple continues").set_travel_desc(
            "Steeling your nerves, you walk down the dim hall.",
        ).finalize(),
    );
    add_exit_at(&mut locations, 2, DirectionType::WEST, ExitBuilder::new().set_dest(1).finalize());
    add_exit_at(&mut locations, 2, DirectionType::EAST, ExitBuilder::new().set_dest(3).finalize());
    add_exit_at(&mut locations, 2, DirectionType::NORTH, ExitBuilder::new().set_dest(4).finalize());
    add_exit_at(&mut locations, 3, DirectionType::WEST, ExitBuilder::new().set_dest(2).finalize());
    add_exit_at(&mut locations, 3, 
        DirectionType::NORTH,
        ExitBuilder::new().set_dest(7).set_desc("The hall continues").set_blocked_by_item(
            cobwebs.get_id(),
        ).set_blocked_desc("The cobwebs are too thick to push through.").finalize(),
    );
    add_exit_at(&mut locations, 4, DirectionType::SOUTH, ExitBuilder::new().set_dest(2).finalize());
    add_exit_at(&mut locations, 4, 
        DirectionType::NORTH,
        ExitBuilder::new().set_dest(5).set_desc(
            "The tunnel continues across the pit trap",
        ).set_travel_desc(
            "You swing deftly across the pit and, smiling to yourself, head further into the temple.",
        ).set_blocked_by_item(root.get_id()).set_blocked_desc(
            "There's no way you can jump across the pit.",
        ).finalize(),
    );
    add_exit_at(&mut locations, 5, 
        DirectionType::SOUTH,
        ExitBuilder::new().set_dest(4).set_desc("The pit trap is").set_travel_desc(
            "You leave the tomb, eventually coming to the pit trap. You swing across the gap.",
        ).finalize(),
    );
    add_exit_at(&mut locations, 6, 
        DirectionType::WEST,
        ExitBuilder::new().set_dest(7).set_desc("The door out is").finalize(),
    );
    add_exit_at(&mut locations, 7, 
        DirectionType::SOUTH,
        ExitBuilder::new().set_dest(3).set_desc("The hallway leads back").finalize(),
    );
    add_exit_at(&mut locations, 7, 
        DirectionType::EAST,
        ExitBuilder::new().set_dest(6).set_desc("Behind the seal is another room").set_travel_desc(
            "You leave the small room behind and enter the chamber.",
        ).set_blocked_by_item(seal.get_id()).set_blocked_desc("The door is sealed.").finalize(),
    );
    let mut ceiling = ItemBuilder::new("ceiling", "the ceiling", "It is made of stone.").set_scenery(
        true,
    ).finalize();
    let ghost bare = ceiling;
    let ghost hung = root;
    ceiling.attach_item(root);
    proof {
        lemma_attach_wf(bare, ceiling, hung);
    }
    add_item_at(&mut locations, 3, cobwebs);
    add_item_at(&mut locations, 4, ceiling);
    let ghost the_seal = seal;
    add_item_at(&mut locations, 7, seal);
    proof {
        let r7 = locations@[7];
        assert(r7.items@ =~= seq![the_seal]);
        assert(find_in_tree(the_seal, the_seal.id) == Some(the_seal));
        assert(find_in_list(r7.items@, the_seal.id, 0) is None);
        assert(r7.items@[0] == the_seal);
        assert(find_in_list(r7.items@, the_seal.id, 1) == Some(the_seal));
        assert(lookup_id(r7, the_seal.id) == Some(the_seal));
        assert(blocking(the_seal));
    }
    locations
}

/// The eight locations of the temple with their items, before any exit.
fn build_temple_locations() -> (r: Vec<Location>)
    ensures
        r@.len() == 8,
        r@[7].items@.len() == 0,
        r@[7].scenery_items@.len() == 0,
        forall|i: int|
            0 <= i < r@.len() ==> exits_within(#[trigger] r@[i], 0) && location_wf(r@[i]),
{
    proof {
        reveal_strlit("UNKNOWN");
        reveal_strlit("trees");
        assert("trees"@[0] != "UNKNOWN"@[0]);
        reveal_strlit("machete");
        assert("machete"@[0] != "UNKNOWN"@[0]);
        reveal_strlit("rope");
        assert("rope"@[0] != "UNKNOWN"@[0]);
        reveal_strlit("pit");
        assert("pit"@[0] != "UNKNOWN"@[0]);
        reveal_strlit("pickaxe");
        assert("pickaxe"@[0] != "UNKNOWN"@[0]);
        reveal_strlit("idol");
        assert("idol"@[0] != "UNKNOWN"@[0]);
    }
    let mut outside = Location::new(
        "Outside the Temple",
        "You stand on the slope of a hill, at the entrance to an ancient temple. Trees surround you and obscure your view, while the sounds of the jungle fill your ears.",
        "You shouldn't go into the jungle without a guide.",
    );
    outside.add_item(
        ItemBuilder::new(
            "trees",
            "trees of all sizes",
            "You see jungle trees in all directions, with green leaves and green moss on their trunks. They loom ominously.",
        ).set_scenery(true).finalize(),
    );
    let mut entrance = Location::new(
        "Entrance",
        "You stand just inside the entrance to an ancient temple.",
        "You can't go that direction.",
    );
    entrance.add_item(
        ItemBuilder::new(
            "machete",
            "a machete",
            "The machete is sharp. It's perfect for hacking through vegetation.",
        ).set_damage_type(DamageType::CUTTING).finalize(),
    );
    let fork = Location::new(
        "Forked Passage",
        "You are at an intersection in the halls of the temple.",
        "You can't go that direction.",
    );
    let mut hall = Location::new(
        "Narrow Hallway",
        "You are in a rather cramped passage.",
        "You can't go that direction.",
    );
    hall.add_item(
        ItemBuilder::new(
            "rope",
            "a rope",
            "The rope is about twenty feet long, and is of fine quality.",
        ).set_can_attach(true).finalize(),
    );
    let mut pit_trap = Location::new(
        "Pit Trap",
        "You are at the edge of a pit trap, too wide to jump across.",
        "You can't go that direction.",
    );
    pit_trap.add_item(
        ItemBuilder::new(
            "pit",
            "a deep pit trap",
            "The pit trap is too wide to jump across, and you can't see its bottom.",
        ).set_scenery(true).finalize(),
    );
    let mut tomb = Location::new(
        "Tomb",
        "You stand in a small room, lit by cracks in the stone walls. At the center of the room is a stone sarcophagus.",
        "You can't go that direction.",
    );
    tomb.add_item(
        ItemBuilder::new(
            "pickaxe",
            "a pickaxe",
            "It's a large, unweildy pickaxe, with a head built for busting through rock, rather than dirt.",
        ).set_damage_type(DamageType::SMASHING).finalize(),
    );
    let mut chamber = Location::new(
        "Chamber",
        "You are in a large chamber. A small shaft of light from a skylight illuminates room.",
        "You can't go that direction.",
    );
    chamber.add_item(
        ItemBuilder::new(
            "idol",
            "a small idol",
            "The idol is in the shape of a man and appears to be made entirely of gold.",
        ).finalize(),
    );
    let seal = Location::new(
        "Seal Room",
        "You stand in a small stone room.",
        "You can't go in that direction.",
    );
    vec![outside, entrance, fork, hall, pit_trap, tomb, chamber, seal]
}

} // verus!
