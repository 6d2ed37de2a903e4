use vstd::prelude::*;

use crate::gamestate::{
    attach_effect, attach_result, damage_effect, damage_result, drop_effect, has_won, here,
    item_at, lemma_attach_target, location_ticked, locations_tick_text, reachable_item, take_effect, take_result,
    toggle_effect, toggle_result, world_wf, GameState, Place,
};
use crate::grammar::{CommandNode, ItemNode, PrepositionNode};
use crate::location::location_wf;
use crate::item::{damage_level_of, item_description, DamageLevel, tick_text_list, ticked_list, DamageType};
use crate::location::{exiting_text, location_text, spec_find_exit};
use crate::player::inventory_text;
use crate::search::{first_of_type, lemma_first_damage_target, lemma_first_of_type};
use crate::token::{DirectionType, GameStateType, OtherType};

verus! {

pub open spec fn dont_see_text(w: Seq<char>) -> Seq<char> {
    "You don't see a "@ + w + " here."@
}

pub open spec fn not_carrying_text(w: Seq<char>) -> Seq<char> {
    "You aren't carrying a "@ + w + "."@
}

pub open spec fn not_understood_text() -> Seq<char> {
    "I don't know how to do that."@
}

pub open spec fn quit_prompt_text() -> Seq<char> {
    "\nAre you sure you want to quit? Your game will not be saved. (yes/[no])\n"@
}

/// What TAKE reports.
pub open spec fn take_text(a: GameState, i: ItemNode) -> Seq<char> {
    match take_result(a, i.subject@) {
        Some(true) => "You pick up the "@ + i.subject_lexeme@ + "."@,
        Some(false) => "You can't pick up the "@ + i.subject_lexeme@ + "."@,
        None => dont_see_text(i.subject_lexeme@),
    }
}

/// What DROP reports.
pub open spec fn drop_text(a: GameState, i: ItemNode) -> Seq<char> {
    if crate::search::first_of_type(a.player.inventory@, i.subject@, 0) is Some {
        "Dropped."@
    } else {
        not_carrying_text(i.subject_lexeme@)
    }
}

/// What EXAMINE reports.
pub open spec fn examine_text(a: GameState, i: ItemNode) -> Seq<char> {
    match reachable_item(a, i.subject@) {
        Some(it) => item_description(it),
        None => dont_see_text(i.subject_lexeme@),
    }
}

pub open spec fn damage_verb(d: DamageType) -> Seq<char> {
    match d {
        DamageType::SMASHING => "smash"@,
        DamageType::CUTTING => "cut"@,
    }
}

pub open spec fn already_destroyed_text(t: Seq<char>) -> Seq<char> {
    "The "@ + t + " is already destroyed."@
}

/// What USE reports: damage first (no further effect on an item already
/// destroyed), then attaching, then switching on or off.
pub open spec fn use_text(a: GameState, i: ItemNode) -> Seq<char> {
    match reachable_item(a, i.subject@) {
        None => not_carrying_text(i.subject_lexeme@),
        Some(sub) => match damage_result(a, sub.damage_type) {
            Some(k) => if damage_level_of(
                here(a).items@[k].max_health as int,
                here(a).items@[k].current_health as int,
            ) == DamageLevel::DESTROYED {
                already_destroyed_text(here(a).items@[k].i_type@)
            } else {
                "You "@ + damage_verb(sub.damage_type->0) + " the "@ + here(a).items@[k].i_type@
                    + " with the "@ + sub.i_type@ + "."@
            },
            None => match attach_result(a, i.subject@) {
                Some(p) => "You attach the "@ + sub.i_type@ + " to the "@ + item_at(here(a), p).i_type@
                    + "."@,
                None => match toggle_result(a, i.subject@) {
                    Some(true) => "You turn on the "@ + sub.i_type@ + "."@,
                    Some(false) => "You turn off the "@ + sub.i_type@ + "."@,
                    None => "You don't see anything you can use the "@ + sub.i_type@ + " on."@,
                },
            },
        },
    }
}

/// How USE changes the world: the first step of the chain that applies.
pub open spec fn use_effect(a: GameState, b: GameState, i: ItemNode) -> bool {
    match reachable_item(a, i.subject@) {
        None => b == a,
        Some(sub) => if damage_result(a, sub.damage_type) is Some {
            damage_effect(a, b, sub.damage_type)
        } else if attach_result(a, i.subject@) is Some {
            attach_effect(a, b, i.subject@)
        } else {
            toggle_effect(a, b, i.subject@)
        },
    }
}

/// What GO reports: the exit's narration, then the new location when the
/// player moved.
pub open spec fn go_text(a: GameState, d: DirectionType) -> Seq<char> {
    exiting_text(here(a), d) + match spec_find_exit(here(a), d) {
        Some(dest) => "\n"@ + location_text(a.locations@[dest as int]),
        None => Seq::<char>::empty(),
    }
}

/// How GO changes the world: the player moves when the exit is open.
pub open spec fn go_effect(a: GameState, b: GameState, d: DirectionType) -> bool {
    match spec_find_exit(here(a), d) {
        Some(dest) => b == (GameState { player: b.player, ..a }) && b.player.inventory
            == a.player.inventory && b.player.location == dest,
        None => b == a,
    }
}

/// The answer a command gives to "are you sure you want to quit?".
pub open spec fn quit_answer(command: Option<CommandNode>) -> Option<bool> {
    match command {
        Some(CommandNode::GAMESTATE(GameStateType::QUIT)) => Some(true),
        Some(CommandNode::OTHER(OtherType::YES)) => Some(true),
        Some(CommandNode::OTHER(OtherType::NO)) => Some(false),
        _ => None,
    }
}

pub open spec fn quit_answer_text(answer: Option<bool>) -> Seq<char> {
    match answer {
        Some(true) => "Goodbye"@,
        Some(false) => "Excellent."@,
        None => "I'll take that as a no."@,
    }
}

/// What the game answers to a command (or to a line that did not parse).
pub open spec fn respond_text(a: GameState, command: Option<CommandNode>) -> Seq<char> {
    if a.awaiting_quit {
        quit_answer_text(quit_answer(command))
    } else {
        match command {
            Some(CommandNode::GAMESTATE(_)) => quit_prompt_text(),
            Some(CommandNode::INVENTORY) => inventory_text(a.player.inventory@),
            Some(CommandNode::LOOK(None)) => location_text(here(a)),
            Some(CommandNode::LOOK(Some(p))) => examine_text(a, p.item),
            Some(CommandNode::GO(d)) => go_text(a, d),
            Some(CommandNode::TAKE(i)) => take_text(a, i),
            Some(CommandNode::DROP(i)) => drop_text(a, i),
            Some(CommandNode::EXAMINE(i)) => examine_text(a, i),
            Some(CommandNode::USE(i)) => use_text(a, i),
            Some(CommandNode::OTHER(_)) => not_understood_text(),
            None => not_understood_text(),
        }
    }
}

/// How a command changes the world, before the tick.
pub open spec fn respond_effect(a: GameState, b: GameState, command: Option<CommandNode>) -> bool {
    if a.awaiting_quit {
        b == (GameState {
            awaiting_quit: false,
            break_control: a.break_control || quit_answer(command) == Some(true),
            ..a
        })
    } else {
        match command {
            Some(CommandNode::GAMESTATE(_)) => b == (GameState { awaiting_quit: true, ..a }),
            Some(CommandNode::GO(d)) => go_effect(a, b, d),
            Some(CommandNode::TAKE(i)) => take_effect(a, b, i.subject@),
            Some(CommandNode::DROP(i)) => drop_effect(a, b, i.subject@),
            Some(CommandNode::USE(i)) => use_effect(a, b, i),
            _ => b == a,
        }
    }
}

/// `b` is the world `a` after one tick.
pub open spec fn world_ticked(a: GameState, b: GameState) -> bool {
    &&& b.player.location == a.player.location
    &&& b.break_control == a.break_control
    &&& b.awaiting_quit == a.awaiting_quit
    &&& b.player.inventory@.len() == a.player.inventory@.len()
    &&& ticked_list(a.player.inventory@, b.player.inventory@, a.player.inventory@.len())
    &&& b.locations@.len() == a.locations@.len()
    &&& forall|i: int|
        0 <= i < a.locations@.len() ==> location_ticked(#[trigger] a.locations@[i], b.locations@[i])
}

/// The narration of one tick of the world `a`.
pub open spec fn world_tick_text(a: GameState) -> Seq<char> {
    tick_text_list(a.player.inventory@, a.player.inventory@.len()) + locations_tick_text(
        a.locations@,
        a.locations@.len(),
    )
}

fn dont_see(w: &String) -> (r: String)
    ensures
        r@ == dont_see_text(w@),
{
    let mut s = String::from_str("You don't see a ");
    s.append(w.as_str());
    s.append(" here.");
    s
}

fn not_carrying(w: &String) -> (r: String)
    ensures
        r@ == not_carrying_text(w@),
{
    let mut s = String::from_str("You aren't carrying a ");
    s.append(w.as_str());
    s.append(".");
    s
}

/// The answer a command gives to the quit question.
pub fn quit(command: &Option<CommandNode>) -> (r: Option<bool>)
    ensures
        r == quit_answer(*command),
{
    match command {
        Some(CommandNode::GAMESTATE(GameStateType::QUIT)) => Some(true),
        Some(CommandNode::OTHER(OtherType::YES)) => Some(true),
        Some(CommandNode::OTHER(OtherType::NO)) => Some(false),
        _ => None,
    }
}

/// Answers the quit question and leaves the dialog; a yes ends the game.
pub fn confirm_quit(command: &Option<CommandNode>, game_state: &mut GameState) -> (r: String)
    ensures
        *final(game_state) == (GameState {
            awaiting_quit: false,
            break_control: old(game_state).break_control || quit_answer(*command) == Some(true),
            ..*old(game_state)
        }),
        r@ == quit_answer_text(quit_answer(*command)),
{
    game_state.awaiting_quit = false;
    match quit(command) {
        Some(yes) => {
            if yes {
                game_state.break_control = true;
                String::from_str("Goodbye")
            } else {
                String::from_str("Excellent.")
            }
        },
        None => String::from_str("I'll take that as a no."),
    }
}

/// A game-state command: QUIT opens the quit dialog.
pub fn gamestate(s: GameStateType, game_state: &mut GameState) -> (r: String)
    ensures
        *final(game_state) == (GameState { awaiting_quit: true, ..*old(game_state) }),
        r@ == quit_prompt_text(),
{
    match s {
        GameStateType::QUIT => {
            game_state.awaiting_quit = true;
            String::from_str(
                "\nAre you sure you want to quit? Your game will not be saved. (yes/[no])\n",
            )
        },
    }
}

pub fn inventory(game_state: &GameState) -> (r: String)
    ensures
        r@ == inventory_text(game_state.player.inventory@),
{
    game_state.player().display_inventory()
}

pub fn look(game_state: &GameState) -> (r: String)
    requires
        world_wf(*game_state),
    ensures
        r@ == location_text(here(*game_state)),
{
    game_state.current_location().display()
}

/// LOOK AT an item: its description, as EXAMINE gives it.
pub fn item_look(p_node: PrepositionNode, game_state: &GameState) -> (r: String)
    requires
        world_wf(*game_state),
    ensures
        r@ == examine_text(*game_state, p_node.item),
{
    examine(p_node.item, game_state)
}

pub fn go(d: DirectionType, game_state: &mut GameState) -> (r: String)
    requires
        world_wf(*old(game_state)),
    ensures
        world_wf(*final(game_state)),
        go_effect(*old(game_state), *final(game_state), d),
        r@ == go_text(*old(game_state), d),
{
    let mut out = game_state.current_location().display_exiting(d);
    match game_state.move_player(d) {
        Some(_) => {
            out.append("\n");
            let view = game_state.current_location().display();
            out.append(view.as_str());
        },
        None => {},
    }
    assert(out@ =~= go_text(*old(game_state), d));
    out
}

pub fn get(i_node: ItemNode, game_state: &mut GameState) -> (r: String)
    requires
        world_wf(*old(game_state)),
    ensures
        world_wf(*final(game_state)),
        take_effect(*old(game_state), *final(game_state), i_node.subject@),
        r@ == take_text(*old(game_state), i_node),
{
    match game_state.get_item(&i_node) {
        Some(taken) => {
            let mut s = if taken {
                String::from_str("You pick up the ")
            } else {
                String::from_str("You can't pick up the ")
            };
            s.append(i_node.subject_lexeme.as_str());
            s.append(".");
            s
        },
        None => dont_see(&i_node.subject_lexeme),
    }
}

pub fn drop(i_node: ItemNode, game_state: &mut GameState) -> (r: String)
    requires
        world_wf(*old(game_state)),
    ensures
        world_wf(*final(game_state)),
        drop_effect(*old(game_state), *final(game_state), i_node.subject@),
        r@ == drop_text(*old(game_state), i_node),
{
    if game_state.drop_item(&i_node) {
        String::from_str("Dropped.")
    } else {
        not_carrying(&i_node.subject_lexeme)
    }
}

pub fn examine(i_node: ItemNode, game_state: &GameState) -> (r: String)
    requires
        world_wf(*game_state),
    ensures
        r@ == examine_text(*game_state, i_node),
{
    match game_state.has_item(&i_node) {
        Some(i) => i.description(),
        None => dont_see(&i_node.subject_lexeme),
    }
}

/// USE: damage the first item the tool affects; failing that, attach the item;
/// failing that, switch it on or off.
pub fn use_item(i_node: ItemNode, game_state: &mut GameState) -> (r: String)
    requires
        world_wf(*old(game_state)),
    ensures
        world_wf(*final(game_state)),
        use_effect(*old(game_state), *final(game_state), i_node),
        r@ == use_text(*old(game_state), i_node),
{
    let ghost a = *game_state;
    let (dt, sub_type) = match game_state.has_item(&i_node) {
        Some(sub) => (sub.damage_type, sub.i_type.clone()),
        None => {
            return not_carrying(&i_node.subject_lexeme);
        },
    };
    match game_state.damage_first_item(dt) {
        Some(k) => {
            proof {
                lemma_first_damage_target(here(a).items@, dt->0, 0);
            }
            let target = &game_state.current_location().items[k];
            if target.damage_level() == DamageLevel::DESTROYED {
                let mut s = String::from_str("The ");
                s.append(target.i_type.as_str());
                s.append(" is already destroyed.");
                assert(s@ =~= use_text(a, i_node));
                return s;
            }
            let mut s = String::from_str("You ");
            match dt {
                Some(DamageType::SMASHING) => s.append("smash"),
                Some(DamageType::CUTTING) => s.append("cut"),
                None => {},
            }
            s.append(" the ");
            s.append(target.i_type.as_str());
            s.append(" with the ");
            s.append(sub_type.as_str());
            s.append(".");
            assert(s@ =~= use_text(a, i_node));
            s
        },
        None => match game_state.attach_first_item(&i_node) {
            Some(p) => {
                proof {
                    lemma_attach_target(here(a));
                }
                let mut s = String::from_str("You attach the ");
                s.append(sub_type.as_str());
                s.append(" to the ");
                let loc = game_state.current_location();
                match p {
                    Place::ITEMS(k) => s.append(loc.items[k].i_type.as_str()),
                    Place::ATTACHED(j, k) => s.append(
                        loc.scenery_items[j].attached_items[k].i_type.as_str(),
                    ),
                }
                s.append(".");
                assert(s@ =~= use_text(a, i_node));
                s
            },
            None => match game_state.turn_on_item(&i_node) {
                Some(on) => {
                    let mut s = if on {
                        String::from_str("You turn on the ")
                    } else {
                        String::from_str("You turn off the ")
                    };
                    s.append(sub_type.as_str());
                    s.append(".");
                    s
                },
                None => {
                    let mut s = String::from_str("You don't see anything you can use the ");
                    s.append(sub_type.as_str());
                    s.append(" on.");
                    s
                },
            },
        },
    }
}

/// Resolves one command against the world. While the quit question is open,
/// the command is its answer; anything but a yes counts as a no.
pub fn resolve(game_state: &mut GameState, command: Option<CommandNode>) -> (r: String)
    requires
        world_wf(*old(game_state)),
    ensures
        world_wf(*final(game_state)),
        respond_effect(*old(game_state), *final(game_state), command),
        r@ == respond_text(*old(game_state), command),
{
    if game_state.awaiting_quit {
        return confirm_quit(&command, game_state);
    }
    match command {
        Some(c) => match c {
            CommandNode::GAMESTATE(s) => gamestate(s, game_state),
            CommandNode::INVENTORY => inventory(game_state),
            CommandNode::LOOK(prep) => match prep {
                Some(p_node) => item_look(p_node, game_state),
                None => look(game_state),
            },
            CommandNode::GO(d) => go(d, game_state),
            CommandNode::TAKE(i_node) => get(i_node, game_state),
            CommandNode::DROP(i_node) => drop(i_node, game_state),
            CommandNode::EXAMINE(i_node) => examine(i_node, game_state),
            CommandNode::USE(i_node) => use_item(i_node, game_state),
            CommandNode::OTHER(_) => String::from_str("I don't know how to do that."),
        },
        None => String::from_str("I don't know how to do that."),
    }
}

/// Whether a command only opens the quit question, which ends the turn
/// without a tick.
pub open spec fn opens_quit(a: GameState, command: Option<CommandNode>) -> bool {
    !a.awaiting_quit && command matches Some(CommandNode::GAMESTATE(_))
}

/// What one turn gives the player to read.
pub struct TurnReport {
    /// The answer to the command.
    pub response: String,
    /// What the tick brought about; `None` when the turn had no tick.
    pub narration: Option<String>,
    /// Whether the player has won.
    pub won: bool,
}

/// One turn: resolve the command, then, unless the command only opened the
/// quit question, tick the world and check for the win.
pub fn play_turn(game_state: &mut GameState, command: Option<CommandNode>) -> (r: TurnReport)
    requires
        world_wf(*old(game_state)),
    ensures
        world_wf(*final(game_state)),
        r.response@ == respond_text(*old(game_state), command),
        opens_quit(*old(game_state), command) ==> r.narration is None && !r.won && respond_effect(
            *old(game_state),
            *final(game_state),
            command,
        ),
        !opens_quit(*old(game_state), command) ==> r.won == has_won(*final(game_state)) && exists|
            mid: GameState,
        |
            #[trigger] respond_effect(*old(game_state), mid, command) && world_ticked(
                mid,
                *final(game_state),
            ) && (r.narration matches Some(s) && s@ == world_tick_text(mid)),
{
    let opens = !game_state.awaiting_quit && match command {
        Some(CommandNode::GAMESTATE(_)) => true,
        _ => false,
    };
    let response = resolve(game_state, command);
    if opens {
        TurnReport { response, narration: None, won: false }
    } else {
        let ghost mid = *game_state;
        let narration = game_state.update();
        let won = game_state.update_player();
        assert(respond_effect(*old(game_state), mid, command));
        TurnReport { response, narration: Some(narration), won }
    }
}

/// TAKE of a fixed item changes nothing: the location keeps its items and the
/// inventory stays as it was.
pub proof fn lemma_take_fixed_keeps_world(a: GameState, b: GameState, i: ItemNode)
    requires
        !a.awaiting_quit,
        respond_effect(a, b, Some(CommandNode::TAKE(i))),
        take_result(a, i.subject@) == Some(false),
    ensures
        b.player.location == a.player.location,
        here(b).items == here(a).items,
        here(b).scenery_items == here(a).scenery_items,
        b.player.inventory == a.player.inventory,
{
}

/// A successful TAKE moves one item, unchanged, from the location's
/// manipulable items to the end of the inventory: nothing is lost or copied.
pub proof fn lemma_take_moves_item(a: GameState, b: GameState, i: ItemNode)
    requires
        !a.awaiting_quit,
        respond_effect(a, b, Some(CommandNode::TAKE(i))),
        take_result(a, i.subject@) == Some(true),
    ensures
        b.player.location == a.player.location,
        exists|k: int|
            0 <= k < here(a).items@.len() && here(b).items@ == here(a).items@.remove(k)
                && b.player.inventory@ == a.player.inventory@.push(#[trigger] here(a).items@[k]),
        here(b).items@.to_multiset().add(b.player.inventory@.to_multiset()) == here(
            a,
        ).items@.to_multiset().add(a.player.inventory@.to_multiset()),
        here(b).scenery_items == here(a).scenery_items,
{
    broadcast use vstd::seq_lib::to_multiset_build, vstd::seq_lib::to_multiset_remove,
        vstd::seq_lib::to_multiset_contains, vstd::multiset::group_multiset_axioms;

    let t = i.subject@;
    lemma_first_of_type(here(a).items@, t, 0);
    let k = first_of_type(here(a).items@, t, 0)->0;
    let it = here(a).items@[k];
    assert(here(a).items@.contains(it));
    assert(here(a).items@.to_multiset().remove(it).insert(it) =~= here(a).items@.to_multiset());
    assert(here(b).items@.to_multiset().add(b.player.inventory@.to_multiset()) =~= here(
        a,
    ).items@.to_multiset().add(a.player.inventory@.to_multiset()));
}

/// TAKE then DROP of the same item type, when the player carried nothing of
/// that type before, gives back the location's items (as a multiset) and the
/// inventory as they were.
pub proof fn lemma_take_then_drop_restores(a: GameState, b: GameState, c: GameState, i: ItemNode)
    requires
        world_wf(a),
        !a.awaiting_quit,
        respond_effect(a, b, Some(CommandNode::TAKE(i))),
        take_result(a, i.subject@) == Some(true),
        respond_effect(b, c, Some(CommandNode::DROP(i))),
        first_of_type(a.player.inventory@, i.subject@, 0) is None,
    ensures
        c.player.location == a.player.location,
        c.player.inventory@ == a.player.inventory@,
        here(c).items@.to_multiset() == here(a).items@.to_multiset(),
        here(c).scenery_items == here(a).scenery_items,
{
    broadcast use vstd::seq_lib::to_multiset_build, vstd::seq_lib::to_multiset_remove,
        vstd::seq_lib::to_multiset_contains, vstd::multiset::group_multiset_axioms;

    let t = i.subject@;
    lemma_first_of_type(here(a).items@, t, 0);
    lemma_first_of_type(a.player.inventory@, t, 0);
    let k = first_of_type(here(a).items@, t, 0)->0;
    let it = here(a).items@[k];
    let n = a.player.inventory@.len();
    assert(b.player.inventory@[n as int] == it);
    assert forall|j: int| 0 <= j < n implies b.player.inventory@[j].i_type@ != t by {
        assert(b.player.inventory@[j] == a.player.inventory@[j]);
    }
    lemma_first_of_type_found(b.player.inventory@, t, n as int);
    assert(location_wf(here(a)));
    assert(!it.is_scenery);
    assert(c.player.inventory@ =~= a.player.inventory@);
    assert(here(a).items@.contains(it));
    assert(here(a).items@.to_multiset().remove(it).insert(it) =~= here(a).items@.to_multiset());
}

/// When no item before `k` has type `t` and the item at `k` does, the search finds `k`.
proof fn lemma_first_of_type_found(s: Seq<crate::item::Item>, t: Seq<char>, k: int)
    requires
        0 <= k < s.len(),
        s[k].i_type@ == t,
        forall|j: int| 0 <= j < k ==> s[j].i_type@ != t,
    ensures
        first_of_type(s, t, 0) == Some(k),
{
    lemma_first_of_type(s, t, 0);
}

} // verus!
