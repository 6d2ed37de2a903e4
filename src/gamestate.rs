use vstd::prelude::*;

use crate::grammar::ItemNode;
use crate::item::{
    all_items_wf, item_wf, lemma_attach_wf, lemma_item_wf, lemma_same_shape_wf, lemma_ticked_wf,
    damaged_once, find_in_list, find_in_tree, lemma_ticked_list_at, tick_children, tick_text_list,
    ticked_list, DamageType, Item,
};
use crate::location::{
    exit_in, location_wf, lookup_id, spec_find_exit, ExitExists, Location, ObjId,
};
use crate::player::Player;
use crate::search::{
    first_attachable, first_damage_target, first_of_type, lemma_find_in_list_stable,
    lemma_first_attachable, lemma_first_damage_target, lemma_first_of_type,
    position_of_attachable, position_of_damage_target, position_of_type,
};
use crate::token::DirectionType;

verus! {

/// Where an item stands in a location: among the manipulable items, or
/// attached to a scenery item.
#[derive(Clone, Copy, PartialEq, Eq, Structural, Debug)]
pub enum Place {
    ITEMS(usize),
    ATTACHED(usize, usize),
}

/// The whole world: its locations, the player, and the session flags.
#[derive(Debug)]
pub struct GameState {
    /// Set once the player has confirmed quitting.
    pub break_control: bool,
    /// Set while the game waits for the answer to "are you sure you want to quit?".
    pub awaiting_quit: bool,
    pub player: Player,
    pub locations: Vec<Location>,
}

/// Every exit of `loc` leads to one of `n` locations.
pub open spec fn exits_within(loc: Location, n: nat) -> bool {
    forall|d: DirectionType|
        match #[trigger] exit_in(loc, d) {
            ExitExists::YES(e) => e.dest < n,
            ExitExists::NO(_) => true,
        }
}

/// The world is consistent: the player stands in a location, every exit
/// leads to a location, and each location keeps its scenery apart.
pub open spec fn world_wf(gs: GameState) -> bool {
    &&& gs.player.location < gs.locations@.len()
    &&& all_items_wf(gs.player.inventory@)
    &&& forall|i: int|
        0 <= i < gs.locations@.len() ==> exits_within(
            #[trigger] gs.locations@[i],
            gs.locations@.len(),
        ) && location_wf(gs.locations@[i])
}

/// The location the player stands in.
pub open spec fn here(gs: GameState) -> Location {
    gs.locations@[gs.player.location as int]
}

/// `b` and `a` differ at most in the items of location `l`.
pub open spec fn items_changed_only(a: GameState, b: GameState, l: int) -> bool {
    &&& b.break_control == a.break_control
    &&& b.awaiting_quit == a.awaiting_quit
    &&& b.locations@.len() == a.locations@.len()
    &&& forall|i: int| 0 <= i < a.locations@.len() && i != l ==> b.locations@[i] == a.locations@[i]
    &&& b.locations@[l].name == a.locations@[l].name
    &&& b.locations@[l].desc == a.locations@[l].desc
    &&& b.locations@[l].exits == a.locations@[l].exits
}

/// The item at a place of a location.
pub open spec fn item_at(loc: Location, p: Place) -> Item {
    match p {
        Place::ITEMS(k) => loc.items@[k as int],
        Place::ATTACHED(j, k) => loc.scenery_items@[j as int].attached_items@[k as int],
    }
}

/// The first scenery index at or after `j` with something attachable attached
/// to it, with the index of that attached item.
pub open spec fn first_attachable_under(s: Seq<Item>, j: int) -> Option<(int, int)>
    decreases s.len() - j,
{
    if j < 0 || j >= s.len() {
        None
    } else {
        match first_attachable(s[j].attached_items@, 0) {
            Some(k) => Some((j, k)),
            None => first_attachable_under(s, j + 1),
        }
    }
}

/// Where the first attach target of a location stands: manipulable items
/// first, then the items attached to scenery.
pub open spec fn attach_target(loc: Location) -> Option<Place> {
    match first_attachable(loc.items@, 0) {
        Some(k) => Some(Place::ITEMS(k as usize)),
        None => match first_attachable_under(loc.scenery_items@, 0) {
            Some((j, k)) => Some(Place::ATTACHED(j as usize, k as usize)),
            None => None,
        },
    }
}

/// The item that USE or EXAMINE of type `t` finds: carried first, then here.
pub open spec fn reachable_item(gs: GameState, t: Seq<char>) -> Option<Item> {
    match first_of_type(gs.player.inventory@, t, 0) {
        Some(k) => Some(gs.player.inventory@[k]),
        None => crate::location::location_find(here(gs), t),
    }
}

/// The item whose type is `"idol"` wins the game once carried.
pub open spec fn has_won(gs: GameState) -> bool {
    first_of_type(gs.player.inventory@, "idol"@, 0) is Some
}

/// `b` is `a` with `src` attached after what was attached to it.
pub open spec fn attached_into(a: Item, b: Item, src: Item) -> bool {
    &&& b == (Item { attached_items: b.attached_items, ..a })
    &&& b.attached_items@ == a.attached_items@.push(src)
}

/// `b` is location `a` after one tick of all its items.
pub open spec fn location_ticked(a: Location, b: Location) -> bool {
    &&& b.name == a.name
    &&& b.desc == a.desc
    &&& b.exits == a.exits
    &&& b.items@.len() == a.items@.len()
    &&& ticked_list(a.items@, b.items@, a.items@.len())
    &&& b.scenery_items@.len() == a.scenery_items@.len()
    &&& ticked_list(a.scenery_items@, b.scenery_items@, a.scenery_items@.len())
}

/// The narration of one tick of a location.
pub open spec fn location_tick_text(loc: Location) -> Seq<char> {
    tick_text_list(loc.items@, loc.items@.len()) + tick_text_list(
        loc.scenery_items@,
        loc.scenery_items@.len(),
    )
}

/// The narration of one tick of the first `k` locations, in order.
pub open spec fn locations_tick_text(s: Seq<Location>, k: nat) -> Seq<char>
    decreases k,
{
    if k == 0 || k > s.len() {
        Seq::<char>::empty()
    } else {
        locations_tick_text(s, (k - 1) as nat) + location_tick_text(s[k - 1])
    }
}

/// Changing only the items of one location keeps the world consistent, as long
/// as that location keeps its scenery apart.
pub proof fn lemma_wf_items_changed(a: GameState, b: GameState, l: int)
    requires
        world_wf(a),
        items_changed_only(a, b, l),
        0 <= l < a.locations@.len(),
        location_wf(b.locations@[l]),
        b.player.location == a.player.location,
        all_items_wf(b.player.inventory@),
    ensures
        world_wf(b),
{
    assert forall|j: int| 0 <= j < b.locations@.len() implies exits_within(
        #[trigger] b.locations@[j],
        b.locations@.len(),
    ) && location_wf(b.locations@[j]) by {
        if j != l {
            assert(b.locations@[j] == a.locations@[j]);
        } else {
            assert forall|d: DirectionType| #[trigger]
                exit_in(b.locations@[j], d) == exit_in(a.locations@[j], d) by {}
            assert(exits_within(a.locations@[j], a.locations@.len()));
        }
    }
}

/// What `first_attachable_under` finds is in range and attachable.
pub proof fn lemma_first_attachable_under(s: Seq<Item>, j: int)
    requires
        0 <= j,
    ensures
        first_attachable_under(s, j) matches Some((a, k)) ==> j <= a < s.len() && 0 <= k
            < s[a].attached_items@.len() && s[a].attached_items@[k].can_attach,
    decreases s.len() - j,
{
    if 0 <= j < s.len() {
        lemma_first_attachable(s[j].attached_items@, 0);
        lemma_first_attachable_under(s, j + 1);
    }
}

/// The place `attach_target` gives is in range.
pub proof fn lemma_attach_target(loc: Location)
    ensures
        attach_target(loc) matches Some(Place::ITEMS(k)) ==> k < loc.items@.len(),
        attach_target(loc) matches Some(Place::ATTACHED(j, k)) ==> j < loc.scenery_items@.len()
            && k < loc.scenery_items@[j as int].attached_items@.len(),
{
    lemma_first_attachable(loc.items@, 0);
    lemma_first_attachable_under(loc.scenery_items@, 0);
    assert(loc.items.len() == loc.items@.len());
    assert(loc.scenery_items.len() == loc.scenery_items@.len());
    if let Some((j, k)) = first_attachable_under(loc.scenery_items@, 0) {
        assert(loc.scenery_items@[j].attached_items.len() == loc.scenery_items@[j].attached_items@.len());
    }
}

/// Where the first attach target of `loc` stands.
fn find_attach_target(loc: &Location) -> (r: Option<Place>)
    ensures
        r == attach_target(*loc),
        r matches Some(Place::ITEMS(k)) ==> k < loc.items@.len(),
        r matches Some(Place::ATTACHED(j, k)) ==> j < loc.scenery_items@.len() && k
            < loc.scenery_items@[j as int].attached_items@.len(),
{
    proof {
        lemma_first_attachable(loc.items@, 0);
        lemma_first_attachable_under(loc.scenery_items@, 0);
    }
    match position_of_attachable(&loc.items) {
        Some(k) => Some(Place::ITEMS(k)),
        None => {
            let n = loc.scenery_items.len();
            let mut j: usize = 0;
            while j < n
                invariant
                    n == loc.scenery_items@.len(),
                    j <= n,
                    first_attachable(loc.items@, 0) is None,
                    first_attachable_under(loc.scenery_items@, 0) == first_attachable_under(
                        loc.scenery_items@,
                        j as int,
                    ),
                decreases n - j,
            {
                match position_of_attachable(&loc.scenery_items[j].attached_items) {
                    Some(k) => {
                        return Some(Place::ATTACHED(j, k));
                    },
                    None => {},
                }
                j = j + 1;
            }
            None
        },
    }
}

/// Location `b` is `a` with `src` attached to the item at place `p`.
pub open spec fn attached_at(a: Location, b: Location, p: Place, src: Item) -> bool {
    match p {
        Place::ITEMS(k) => {
            &&& b.scenery_items == a.scenery_items
            &&& b.items@.len() == a.items@.len()
            &&& forall|i: int| 0 <= i < a.items@.len() && i != k ==> b.items@[i] == a.items@[i]
            &&& attached_into(a.items@[k as int], b.items@[k as int], src)
        },
        Place::ATTACHED(j, k) => {
            let sa = a.scenery_items@[j as int];
            let sb = b.scenery_items@[j as int];
            &&& b.items == a.items
            &&& b.scenery_items@.len() == a.scenery_items@.len()
            &&& forall|i: int|
                0 <= i < a.scenery_items@.len() && i != j ==> b.scenery_items@[i]
                    == a.scenery_items@[i]
            &&& sb == (Item { attached_items: sb.attached_items, ..sa })
            &&& sb.attached_items@.len() == sa.attached_items@.len()
            &&& forall|i: int|
                0 <= i < sa.attached_items@.len() && i != k ==> sb.attached_items@[i]
                    == sa.attached_items@[i]
            &&& attached_into(sa.attached_items@[k as int], sb.attached_items@[k as int], src)
        },
    }
}

/// Attaching a well-formed item keeps a location well formed.
proof fn lemma_attached_at_wf(a: Location, b: Location, p: Place, src: Item)
    requires
        location_wf(a),
        item_wf(src),
        attached_at(a, b, p, src),
        p matches Place::ITEMS(k) ==> k < a.items@.len(),
        p matches Place::ATTACHED(j, k) ==> j < a.scenery_items@.len() && k
            < a.scenery_items@[j as int].attached_items@.len(),
    ensures
        location_wf(b),
{
    match p {
        Place::ITEMS(k) => {
            let k = k as int;
            lemma_attach_wf(a.items@[k], b.items@[k], src);
            assert forall|i: int| 0 <= i < b.items@.len() implies !(
            #[trigger] b.items@[i]).is_scenery && item_wf(b.items@[i]) by {
                if i != k {
                    assert(b.items@[i] == a.items@[i]);
                }
            }
        },
        Place::ATTACHED(j, k) => {
            let j = j as int;
            let k = k as int;
            let sa = a.scenery_items@[j];
            let sb = b.scenery_items@[j];
            lemma_item_wf(sa);
            lemma_item_wf(sb);
            lemma_attach_wf(sa.attached_items@[k], sb.attached_items@[k], src);
            assert forall|i: int| 0 <= i < sb.attached_items@.len() implies item_wf(
                #[trigger] sb.attached_items@[i],
            ) by {
                if i != k {
                    assert(sb.attached_items@[i] == sa.attached_items@[i]);
                }
            }
            assert forall|i: int| 0 <= i < b.scenery_items@.len() implies (
            #[trigger] b.scenery_items@[i]).is_scenery && item_wf(b.scenery_items@[i]) by {
                if i != j {
                    assert(b.scenery_items@[i] == a.scenery_items@[i]);
                }
            }
        },
    }
}

/// Replacing one item of a list by one of the same health and attached items
/// keeps the list well formed.
proof fn lemma_update_same_shape(s: Seq<Item>, k: int, x: Item)
    requires
        all_items_wf(s),
        0 <= k < s.len(),
        x.max_health == s[k].max_health,
        x.current_health == s[k].current_health,
        x.attached_items == s[k].attached_items,
    ensures
        all_items_wf(s.update(k, x)),
{
    lemma_same_shape_wf(s[k], x);
    assert forall|i: int| 0 <= i < s.len() implies item_wf(#[trigger] s.update(k, x)[i]) by {
        if i != k {
            assert(s.update(k, x)[i] == s[i]);
        }
    }
}

/// `it` with its on/off state flipped.
pub open spec fn toggled(it: Item) -> Item {
    Item { is_on: !it.is_on, ..it }
}

/// A tick keeps every item's scenery flag, so a location keeps its scenery apart.
proof fn lemma_ticked_list_keeps_scenery(a: Location, b: Location)
    requires
        location_wf(a),
        location_ticked(a, b),
    ensures
        location_wf(b),
{
    assert forall|i: int| 0 <= i < b.items@.len() implies !(#[trigger] b.items@[i]).is_scenery
        && item_wf(b.items@[i]) by {
        lemma_ticked_list_at(a.items@, b.items@, a.items@.len(), i);
        lemma_ticked_wf(a.items@[i], b.items@[i]);
    }
    assert forall|i: int| 0 <= i < b.scenery_items@.len() implies (
    #[trigger] b.scenery_items@[i]).is_scenery && item_wf(b.scenery_items@[i]) by {
        lemma_ticked_list_at(a.scenery_items@, b.scenery_items@, a.scenery_items@.len(), i);
        lemma_ticked_wf(a.scenery_items@[i], b.scenery_items@[i]);
    }
}

/// What TAKE of type `t` reports: `Some(true)` picked up, `Some(false)` fixed,
/// `None` absent from the current location's manipulable items.
pub open spec fn take_result(a: GameState, t: Seq<char>) -> Option<bool> {
    match first_of_type(here(a).items@, t, 0) {
        Some(k) => Some(!here(a).items@[k].is_fixed),
        None => None,
    }
}

/// How TAKE of type `t` changes the world: the first manipulable item of that
/// type moves from the current location to the end of the inventory, unless it
/// is fixed; nothing else changes.
pub open spec fn take_effect(a: GameState, b: GameState, t: Seq<char>) -> bool {
    match first_of_type(here(a).items@, t, 0) {
        Some(k) => if here(a).items@[k].is_fixed {
            b == a
        } else {
            &&& b.player.location == a.player.location
            &&& items_changed_only(a, b, a.player.location as int)
            &&& here(b).items@ == here(a).items@.remove(k)
            &&& here(b).scenery_items == here(a).scenery_items
            &&& b.player.inventory@ == a.player.inventory@.push(here(a).items@[k])
        },
        None => b == a,
    }
}

/// How DROP of type `t` changes the world: the first carried item of that type
/// moves to the end of the current location's list for its kind.
pub open spec fn drop_effect(a: GameState, b: GameState, t: Seq<char>) -> bool {
    match first_of_type(a.player.inventory@, t, 0) {
        Some(k) => {
            let it = a.player.inventory@[k];
            &&& b.player.location == a.player.location
            &&& items_changed_only(a, b, a.player.location as int)
            &&& b.player.inventory@ == a.player.inventory@.remove(k)
            &&& !it.is_scenery ==> here(b).items@ == here(a).items@.push(it) && here(b).scenery_items
                == here(a).scenery_items
            &&& it.is_scenery ==> here(b).scenery_items@ == here(a).scenery_items@.push(it)
                && here(b).items == here(a).items
        },
        None => b == a,
    }
}

/// The index of the item that damage of kind `dt` hits in the current location.
pub open spec fn damage_result(a: GameState, dt: Option<DamageType>) -> Option<int> {
    match dt {
        Some(d) => first_damage_target(here(a).items@, d, 0),
        None => None,
    }
}

/// How damage of kind `dt` changes the world: one unit of pending damage on the
/// item hit.
pub open spec fn damage_effect(a: GameState, b: GameState, dt: Option<DamageType>) -> bool {
    match damage_result(a, dt) {
        Some(k) => {
            &&& b.player == a.player
            &&& items_changed_only(a, b, a.player.location as int)
            &&& here(b).items@ == here(a).items@.update(k, damaged_once(here(a).items@[k]))
            &&& here(b).scenery_items == here(a).scenery_items
        },
        None => b == a,
    }
}

/// Where the carried item of type `t` gets attached, if it can attach and the
/// current location has a target.
pub open spec fn attach_result(a: GameState, t: Seq<char>) -> Option<Place> {
    match first_of_type(a.player.inventory@, t, 0) {
        Some(s) => if a.player.inventory@[s].can_attach {
            attach_target(here(a))
        } else {
            None
        },
        None => None,
    }
}

/// How attaching the carried item of type `t` changes the world: it leaves the
/// inventory and is appended to the target's attached items.
pub open spec fn attach_effect(a: GameState, b: GameState, t: Seq<char>) -> bool {
    match attach_result(a, t) {
        Some(p) => {
            let s = first_of_type(a.player.inventory@, t, 0)->0;
            &&& b.player.location == a.player.location
            &&& b.player.inventory@ == a.player.inventory@.remove(s)
            &&& items_changed_only(a, b, a.player.location as int)
            &&& attached_at(here(a), here(b), p, a.player.inventory@[s])
        },
        None => b == a,
    }
}

/// The item that switching type `t` acts on: the first carried one, else the
/// first manipulable one here; `Some(true)` when it is carried.
pub open spec fn toggle_source(a: GameState, t: Seq<char>) -> Option<(bool, int)> {
    match first_of_type(a.player.inventory@, t, 0) {
        Some(k) => Some((true, k)),
        None => match first_of_type(here(a).items@, t, 0) {
            Some(k) => Some((false, k)),
            None => None,
        },
    }
}

pub open spec fn toggle_item(a: GameState, t: Seq<char>) -> Option<Item> {
    match toggle_source(a, t) {
        Some((true, k)) => Some(a.player.inventory@[k]),
        Some((false, k)) => Some(here(a).items@[k]),
        None => None,
    }
}

/// The new on/off state after switching type `t`; `None` when the item cannot
/// be switched or there is none.
pub open spec fn toggle_result(a: GameState, t: Seq<char>) -> Option<bool> {
    match toggle_item(a, t) {
        Some(it) => if it.can_turn_on {
            Some(!it.is_on)
        } else {
            None
        },
        None => None,
    }
}

/// How switching type `t` changes the world: the item found flips its state in place.
pub open spec fn toggle_effect(a: GameState, b: GameState, t: Seq<char>) -> bool {
    match toggle_result(a, t) {
        Some(_) => match toggle_source(a, t) {
            Some((true, k)) => {
                &&& b.locations == a.locations
                &&& b.break_control == a.break_control
                &&& b.awaiting_quit == a.awaiting_quit
                &&& b.player.location == a.player.location
                &&& b.player.inventory@ == a.player.inventory@.update(
                    k,
                    toggled(a.player.inventory@[k]),
                )
            },
            Some((false, k)) => {
                &&& b.player == a.player
                &&& items_changed_only(a, b, a.player.location as int)
                &&& here(b).items@ == here(a).items@.update(k, toggled(here(a).items@[k]))
                &&& here(b).scenery_items == here(a).scenery_items
            },
            None => true,
        },
        None => b == a,
    }
}

impl GameState {
    /// A world whose player starts at location `l`.
    pub fn new(l: usize, loc: Vec<Location>) -> (r: GameState)
        requires
            l < loc@.len(),
            forall|i: int|
                0 <= i < loc@.len() ==> exits_within(#[trigger] loc@[i], loc@.len()) && location_wf(
                    loc@[i],
                ),
        ensures
            world_wf(r),
            r.player.location == l,
            r.player.inventory@.len() == 0,
            r.locations == loc,
            !r.break_control,
            !r.awaiting_quit,
    {
        GameState { break_control: false, awaiting_quit: false, player: Player::new(l), locations: loc }
    }

    /// Whether the player carries the idol.
    pub fn update_player(&self) -> (r: bool)
        ensures
            r == has_won(*self),
    {
        proof {
            reveal_strlit("idol");
        }
        let idol = ItemNode::new("idol", "idol");
        match self.player.find_item(&idol) {
            Some(_) => true,
            None => false,
        }
    }

    /// The location the player stands in.
    pub fn current_location(&self) -> (r: &Location)
        requires
            world_wf(*self),
        ensures
            *r == here(*self),
    {
        &self.locations[self.player.location]
    }

    pub fn player(&self) -> (r: &Player)
        ensures
            *r == self.player,
    {
        &self.player
    }

    /// Moves the player through the exit in direction `d` when it exists and is
    /// not blocked; returns the location left.
    pub fn move_player(&mut self, d: DirectionType) -> (r: Option<usize>)
        requires
            world_wf(*old(self)),
        ensures
            world_wf(*final(self)),
            final(self).locations == old(self).locations,
            final(self).player.inventory == old(self).player.inventory,
            final(self).break_control == old(self).break_control,
            final(self).awaiting_quit == old(self).awaiting_quit,
            match spec_find_exit(here(*old(self)), d) {
                Some(dest) => r == Some(old(self).player.location) && final(self).player.location
                    == dest,
                None => r is None && final(self).player.location == old(self).player.location,
            },
    {
        let l = self.player.location;
        match self.locations[l].find_exit(d) {
            Some(e) => {
                proof {
                    assert(exits_within(self.locations@[l as int], self.locations@.len()));
                    assert(exit_in(self.locations@[l as int], d) is YES);
                }
                self.player.location = e;
                Some(l)
            },
            None => None,
        }
    }

    /// The first item of the type `i_node` names that the player can reach:
    /// carried first, then in the current location.
    pub fn has_item(&self, i_node: &ItemNode) -> (r: Option<&Item>)
        requires
            world_wf(*self),
        ensures
            match r {
                Some(x) => reachable_item(*self, i_node.subject@) == Some(*x),
                None => reachable_item(*self, i_node.subject@) is None,
            },
    {
        match self.player.find_item(i_node) {
            Some(i) => Some(i),
            None => self.locations[self.player.location].find_item(i_node),
        }
    }

    /// Picks up the first manipulable item of the type `i_node` names in the
    /// current location. `Some(true)`: it moved into the inventory; `Some(false)`:
    /// it is fixed and stays where it is; `None`: there is none.
    pub fn get_item(&mut self, i_node: &ItemNode) -> (r: Option<bool>)
        requires
            world_wf(*old(self)),
        ensures
            world_wf(*final(self)),
            r == take_result(*old(self), i_node.subject@),
            take_effect(*old(self), *final(self), i_node.subject@),
    {
        let l = self.player.location;
        proof {
            lemma_first_of_type(self.locations@[l as int].items@, i_node.subject@, 0);
        }
        match position_of_type(&self.locations[l].items, &i_node.subject) {
            Some(k) => {
                if self.locations[l].items[k].is_fixed {
                    Some(false)
                } else {
                    let ghost before = *self;
                    let taken = self.locations[l].remove_item(i_node);
                    match taken {
                        Some(i) => {
                            self.player.add_item(i);
                        },
                        None => {},
                    }
                    proof {
                        lemma_wf_items_changed(before, *self, l as int);
                    }
                    Some(true)
                }
            },
            None => None,
        }
    }

    /// Drops the first carried item of the type `i_node` names into the current
    /// location; false when none is carried.
    pub fn drop_item(&mut self, i_node: &ItemNode) -> (r: bool)
        requires
            world_wf(*old(self)),
        ensures
            world_wf(*final(self)),
            r == first_of_type(old(self).player.inventory@, i_node.subject@, 0) is Some,
            drop_effect(*old(self), *final(self), i_node.subject@),
    {
        let l = self.player.location;
        let ghost before = *self;
        proof {
            lemma_first_of_type(before.player.inventory@, i_node.subject@, 0);
        }
        match self.player.remove_item(i_node) {
            Some(i) => {
                proof {
                    let k = first_of_type(before.player.inventory@, i_node.subject@, 0)->0;
                    assert(item_wf(before.player.inventory@[k]));
                    assert forall|m: int| 0 <= m < self.player.inventory@.len() implies item_wf(
                        #[trigger] self.player.inventory@[m],
                    ) by {
                        assert(self.player.inventory@[m] == before.player.inventory@[if m < k {
                            m
                        } else {
                            m + 1
                        }]);
                    }
                }
                self.locations[l].add_item(i);
                proof {
                    lemma_wf_items_changed(before, *self, l as int);
                }
                true
            },
            None => false,
        }
    }

    /// Adds one unit of pending damage to the first manipulable item of the
    /// current location that suffers from damage of kind `damage_type`, and
    /// returns its index among the location's items.
    pub fn damage_first_item(&mut self, damage_type: Option<DamageType>) -> (r: Option<usize>)
        requires
            world_wf(*old(self)),
        ensures
            world_wf(*final(self)),
            r matches Some(k) ==> damage_result(*old(self), damage_type) == Some(k as int),
            r is None ==> damage_result(*old(self), damage_type) is None,
            damage_effect(*old(self), *final(self), damage_type),
    {
        match damage_type {
            Some(dt) => {
                let l = self.player.location;
                proof {
                    lemma_first_damage_target(self.locations@[l as int].items@, dt, 0);
                }
                match position_of_damage_target(&self.locations[l].items, dt) {
                    Some(k) => {
                        let ghost before = *self;
                        self.locations[l].items[k].damage(1);
                        proof {
                            assert(here(*self).items@ =~= here(before).items@.update(
                                k as int,
                                damaged_once(here(before).items@[k as int]),
                            ));
                            lemma_update_same_shape(
                                here(before).items@,
                                k as int,
                                damaged_once(here(before).items@[k as int]),
                            );
                            lemma_wf_items_changed(before, *self, l as int);
                        }
                        Some(k)
                    },
                    None => None,
                }
            },
            None => None,
        }
    }

    /// Attaches the first carried item of the type `i_node` names, when it can
    /// attach, to the first attach target of the current location, taking it
    /// out of the inventory; returns where the target stands.
    pub fn attach_first_item(&mut self, i_node: &ItemNode) -> (r: Option<Place>)
        requires
            world_wf(*old(self)),
        ensures
            world_wf(*final(self)),
            r == attach_result(*old(self), i_node.subject@),
            attach_effect(*old(self), *final(self), i_node.subject@),
    {
        let l = self.player.location;
        proof {
            lemma_first_of_type(self.player.inventory@, i_node.subject@, 0);
        }
        match position_of_type(&self.player.inventory, &i_node.subject) {
            Some(s) => {
                if !self.player.inventory[s].can_attach {
                    return None;
                }
            },
            None => {
                return None;
            },
        }
        match find_attach_target(&self.locations[l]) {
            None => None,
            Some(p) => {
                let ghost before = *self;
                match self.player.remove_item(i_node) {
                    Some(src) => {
                        match p {
                            Place::ITEMS(k) => {
                                self.locations[l].items[k].attach_item(src);
                            },
                            Place::ATTACHED(j, k) => {
                                self.locations[l].scenery_items[j].attached_items[k].attach_item(src);
                            },
                        }
                        proof {
                            lemma_attached_at_wf(here(before), here(*self), p, src);
                            assert(all_items_wf(self.player.inventory@)) by {
                                assert forall|m: int| 0 <= m < self.player.inventory@.len() implies item_wf(
                                    #[trigger] self.player.inventory@[m],
                                ) by {
                                    let s0 = first_of_type(before.player.inventory@, i_node.subject@, 0)->0;
                                    assert(self.player.inventory@[m] == before.player.inventory@[if m < s0 {
                                        m
                                    } else {
                                        m + 1
                                    }]);
                                }
                            }
                            lemma_wf_items_changed(before, *self, l as int);
                        }
                    },
                    None => {},
                }
                Some(p)
            },
        }
    }

    /// Flips the on/off state of the first item of the type `i_node` names,
    /// looking in the inventory first, then among the current location's
    /// manipulable items; returns the new state, or `None` when the item found
    /// cannot be switched or there is none.
    pub fn turn_on_item(&mut self, i_node: &ItemNode) -> (r: Option<bool>)
        requires
            world_wf(*old(self)),
        ensures
            world_wf(*final(self)),
            r == toggle_result(*old(self), i_node.subject@),
            toggle_effect(*old(self), *final(self), i_node.subject@),
    {
        let l = self.player.location;
        let ghost before = *self;
        proof {
            lemma_first_of_type(self.player.inventory@, i_node.subject@, 0);
            lemma_first_of_type(self.locations@[l as int].items@, i_node.subject@, 0);
        }
        match position_of_type(&self.player.inventory, &i_node.subject) {
            Some(k) => {
                if !self.player.inventory[k].can_turn_on {
                    return None;
                }
                let r = self.player.inventory[k].toggle_on();
                proof {
                    assert(self.player.inventory@ =~= before.player.inventory@.update(
                        k as int,
                        toggled(before.player.inventory@[k as int]),
                    ));
                    lemma_update_same_shape(
                        before.player.inventory@,
                        k as int,
                        toggled(before.player.inventory@[k as int]),
                    );
                }
                r
            },
            None => match position_of_type(&self.locations[l].items, &i_node.subject) {
                Some(k) => {
                    if !self.locations[l].items[k].can_turn_on {
                        return None;
                    }
                    let r = self.locations[l].items[k].toggle_on();
                    proof {
                        assert(here(*self).items@ =~= here(before).items@.update(
                            k as int,
                            toggled(here(before).items@[k as int]),
                        ));
                        lemma_update_same_shape(
                            here(before).items@,
                            k as int,
                            toggled(here(before).items@[k as int]),
                        );
                        lemma_wf_items_changed(before, *self, l as int);
                    }
                    r
                },
                None => None,
            },
        }
    }

    /// One tick of the whole world: the inventory first, then every location in
    /// order. Returns the narration of items whose damage level changed.
    pub fn update(&mut self) -> (r: String)
        requires
            world_wf(*old(self)),
        ensures
            world_wf(*final(self)),
            final(self).player.location == old(self).player.location,
            final(self).break_control == old(self).break_control,
            final(self).awaiting_quit == old(self).awaiting_quit,
            final(self).player.inventory@.len() == old(self).player.inventory@.len(),
            ticked_list(
                old(self).player.inventory@,
                final(self).player.inventory@,
                old(self).player.inventory@.len(),
            ),
            final(self).locations@.len() == old(self).locations@.len(),
            forall|i: int|
                0 <= i < old(self).locations@.len() ==> location_ticked(
                    #[trigger] old(self).locations@[i],
                    final(self).locations@[i],
                ),
            r@ == tick_text_list(old(self).player.inventory@, old(self).player.inventory@.len())
                + locations_tick_text(old(self).locations@, old(self).locations@.len()),
    {
        let ghost orig = *self;
        let mut display = String::new();
        let mut inventory: Vec<Item> = Vec::new();
        std::mem::swap(&mut self.player.inventory, &mut inventory);
        self.player.inventory = tick_children(inventory, &mut display);
        let ghost mid = display@;
        let n = self.locations.len();
        let mut i: usize = 0;
        while i < n
            invariant
                n == orig.locations@.len(),
                n == self.locations@.len(),
                i <= n,
                self.player.location == orig.player.location,
                self.break_control == orig.break_control,
                self.awaiting_quit == orig.awaiting_quit,
                self.player.inventory@.len() == orig.player.inventory@.len(),
                ticked_list(
                    orig.player.inventory@,
                    self.player.inventory@,
                    orig.player.inventory@.len(),
                ),
                forall|j: int|
                    0 <= j < i ==> location_ticked(
                        #[trigger] orig.locations@[j],
                        self.locations@[j],
                    ),
                forall|j: int| i <= j < n ==> self.locations@[j] == orig.locations@[j],
                mid == tick_text_list(orig.player.inventory@, orig.player.inventory@.len()),
                display@ == mid + locations_tick_text(orig.locations@, i as nat),
            decreases n - i,
        {
            self.locations[i].update(&mut display);
            proof {
                assert(display@ =~= mid + locations_tick_text(orig.locations@, (i + 1) as nat));
            }
            i = i + 1;
        }
        proof {
            assert forall|j: int| 0 <= j < self.locations@.len() implies exits_within(
                #[trigger] self.locations@[j],
                self.locations@.len(),
            ) && location_wf(self.locations@[j]) by {
                assert(location_ticked(orig.locations@[j], self.locations@[j]));
                assert forall|d: DirectionType| #[trigger]
                    exit_in(self.locations@[j], d) == exit_in(orig.locations@[j], d) by {}
                assert(exits_within(orig.locations@[j], orig.locations@.len()));
                assert(location_wf(orig.locations@[j]));
                lemma_ticked_list_keeps_scenery(orig.locations@[j], self.locations@[j]);
            }
            assert forall|m: int| 0 <= m < self.player.inventory@.len() implies item_wf(
                #[trigger] self.player.inventory@[m],
            ) by {
                lemma_ticked_list_at(
                    orig.player.inventory@,
                    self.player.inventory@,
                    orig.player.inventory@.len(),
                    m,
                );
                lemma_ticked_wf(orig.player.inventory@[m], self.player.inventory@[m]);
            }
        }
        display
    }
}

/// `find_in_list` over the first `n` items depends on those items alone.
proof fn lemma_find_in_list_prefix(s1: Seq<Item>, s2: Seq<Item>, id: u128, n: nat)
    requires
        n <= s1.len(),
        n <= s2.len(),
        forall|j: int| 0 <= j < n ==> s1[j] == s2[j],
    ensures
        find_in_list(s1, id, n) == find_in_list(s2, id, n),
    decreases n,
{
    if n > 0 {
        lemma_find_in_list_prefix(s1, s2, id, (n - 1) as nat);
    }
}

/// Switching the item that blocks an exit opens the exit when it was closed
/// and closes it when it was open, as long as the item's on/off state is all
/// that makes it block: it is not standing with health left, nor waiting for
/// something to be attached, and no earlier item here carries its id.
pub proof fn lemma_toggle_flips_exit(a: GameState, b: GameState, t: Seq<char>, d: DirectionType)
    requires
        world_wf(a),
        toggle_result(a, t) is Some,
        toggle_source(a, t) matches Some((carried, k)) && !carried && ({
            let it = here(a).items@[k];
            &&& exit_in(here(a), d) matches ExitExists::YES(e) && e.blocked_by == Some(
                ObjId::ITEMID(it.id),
            )
            &&& find_in_list(here(a).items@, it.id, k as nat) is None
            &&& !(it.max_health > 0 && it.current_health > 0)
            &&& !(it.can_attach && it.attached_items@.len() == 0)
        }),
        toggle_effect(a, b, t),
    ensures
        (spec_find_exit(here(b), d) is Some) == !(spec_find_exit(here(a), d) is Some),
{
    let (_, k) = toggle_source(a, t)->0;
    lemma_first_of_type(a.player.inventory@, t, 0);
    lemma_first_of_type(here(a).items@, t, 0);
    let it = here(a).items@[k];
    let id = it.id;
    let sa = here(a).items@;
    let sb = here(b).items@;
    assert(sb == sa.update(k, toggled(it)));
    assert(find_in_tree(it, id) == Some(it));
    assert(find_in_list(sa, id, (k + 1) as nat) == Some(it));
    lemma_find_in_list_stable(sa, id, (k + 1) as nat, sa.len());
    lemma_find_in_list_prefix(sa, sb, id, k as nat);
    assert(find_in_tree(toggled(it), id) == Some(toggled(it)));
    assert(find_in_list(sb, id, (k + 1) as nat) == Some(toggled(it)));
    lemma_find_in_list_stable(sb, id, (k + 1) as nat, sb.len());
    assert(lookup_id(here(a), id) == Some(it));
    assert(lookup_id(here(b), id) == Some(toggled(it)));
    assert(exit_in(here(b), d) == exit_in(here(a), d));
}

/// Whether the exit of one direction leads to one of `n` locations (or is absent).
fn exit_within(e: &ExitExists, n: usize) -> (r: bool)
    ensures
        r == exit_within_spec(*e, n),
{
    match e {
        ExitExists::YES(x) => x.dest < n,
        ExitExists::NO(_) => true,
    }
}

/// Whether a world with these locations, its player starting at `l`, is
/// consistent: what `GameState::new` asks for.
pub fn check_world(l: usize, loc: &Vec<Location>) -> (r: bool)
    ensures
        r == (l < loc@.len() && forall|i: int|
            0 <= i < loc@.len() ==> exits_within(#[trigger] loc@[i], loc@.len()) && location_wf(
                loc@[i],
            )),
{
    let n = loc.len();
    if l >= n {
        return false;
    }
    let mut i: usize = 0;
    while i < n
        invariant
            n == loc@.len(),
            i <= n,
            forall|j: int|
                0 <= j < i ==> exits_within(#[trigger] loc@[j], loc@.len()) && location_wf(loc@[j]),
        decreases n - i,
    {
        let x = &loc[i];
        let exits_ok = exit_within(&x.exits.n, n) && exit_within(&x.exits.s, n) && exit_within(
            &x.exits.e,
            n,
        ) && exit_within(&x.exits.w, n);
        if !exits_ok {
            assert(!exits_within(loc@[i as int], loc@.len())) by {
                if !exit_within_spec(x.exits.n, n) {
                    assert(exit_in(*x, DirectionType::NORTH) == x.exits.n);
                } else if !exit_within_spec(x.exits.s, n) {
                    assert(exit_in(*x, DirectionType::SOUTH) == x.exits.s);
                } else if !exit_within_spec(x.exits.e, n) {
                    assert(exit_in(*x, DirectionType::EAST) == x.exits.e);
                } else {
                    assert(exit_in(*x, DirectionType::WEST) == x.exits.w);
                }
            }
            return false;
        }
        assert(exits_within(*x, n as nat)) by {
            assert forall|d: DirectionType| match #[trigger] exit_in(*x, d) {
                ExitExists::YES(e) => e.dest < n,
                ExitExists::NO(_) => true,
            } by {
                match d {
                    DirectionType::NORTH => {},
                    DirectionType::SOUTH => {},
                    DirectionType::EAST => {},
                    DirectionType::WEST => {},
                }
            }
        }
        let mut j: usize = 0;
        while j < x.items.len()
            invariant
                n == loc@.len(),
                i < n,
                *x == loc@[i as int],
                j <= x.items@.len(),
                forall|m: int|
                    0 <= m < j ==> !(#[trigger] x.items@[m]).is_scenery && item_wf(x.items@[m]),
            decreases x.items@.len() - j,
        {
            if x.items[j].is_scenery || !x.items[j].is_wf() {
                assert(!location_wf(loc@[i as int])) by {
                    assert(loc@[i as int].items@[j as int].is_scenery || !item_wf(
                        loc@[i as int].items@[j as int],
                    ));
                }
                return false;
            }
            j = j + 1;
        }
        let mut j: usize = 0;
        while j < x.scenery_items.len()
            invariant
                n == loc@.len(),
                i < n,
                *x == loc@[i as int],
                j <= x.scenery_items@.len(),
                forall|m: int|
                    0 <= m < j ==> (#[trigger] x.scenery_items@[m]).is_scenery && item_wf(
                        x.scenery_items@[m],
                    ),
            decreases x.scenery_items@.len() - j,
        {
            if !x.scenery_items[j].is_scenery || !x.scenery_items[j].is_wf() {
                assert(!location_wf(loc@[i as int])) by {
                    assert(!loc@[i as int].scenery_items@[j as int].is_scenery || !item_wf(
                        loc@[i as int].scenery_items@[j as int],
                    ));
                }
                return false;
            }
            j = j + 1;
        }
        i = i + 1;
    }
    true
}

pub open spec fn exit_within_spec(e: ExitExists, n: usize) -> bool {
    match e {
        ExitExists::YES(x) => x.dest < n,
        ExitExists::NO(_) => true,
    }
}

} // verus!
