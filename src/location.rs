use vstd::prelude::*;

use crate::grammar::ItemNode;
use crate::item::{all_items_wf, item_wf, blocking, find_in_list, tick_children, tick_text_list, ticked_list, Item};
use crate::search::{find_id_in, first_of_type, position_of_type};
use crate::token::DirectionType;

verus! {

/// A reference to an object of the world by its stable id.
#[derive(Clone, Copy, PartialEq, Eq, Structural, Debug)]
pub enum ObjId {
    ITEMID(u128),
}

/// A way out of a location.
#[derive(Debug)]
pub struct Exit {
    pub dest: usize,
    pub desc: String,
    /// Narration on passing; `None` gives the default for the direction.
    pub travel_desc: Option<String>,
    /// The item that may block this exit; `None` means never blocked.
    pub blocked_by: Option<ObjId>,
    pub blocked_desc: String,
}

/// Builds an `Exit`, with defaults for what is left unset.
pub struct ExitBuilder {
    pub dest: usize,
    pub desc: Option<String>,
    pub travel_desc: Option<String>,
    pub blocked_by: Option<ObjId>,
    pub blocked_desc: Option<String>,
}

impl ExitBuilder {
    pub fn new() -> (r: ExitBuilder)
        ensures
            r.dest == 0,
            r.desc is None,
            r.travel_desc is None,
            r.blocked_by is None,
            r.blocked_desc is None,
    {
        ExitBuilder { dest: 0, desc: None, travel_desc: None, blocked_by: None, blocked_desc: None }
    }

    pub fn set_dest(self, dest: usize) -> (r: ExitBuilder)
        ensures
            r == (ExitBuilder { dest, ..self }),
    {
        ExitBuilder { dest, ..self }
    }

    pub fn set_desc(self, desc: &str) -> (r: ExitBuilder)
        ensures
            r == (ExitBuilder { desc: r.desc, ..self }),
            r.desc matches Some(s) && s@ == desc@,
    {
        ExitBuilder { desc: Some(String::from_str(desc)), ..self }
    }

    pub fn set_travel_desc(self, desc: &str) -> (r: ExitBuilder)
        ensures
            r == (ExitBuilder { travel_desc: r.travel_desc, ..self }),
            r.travel_desc matches Some(s) && s@ == desc@,
    {
        ExitBuilder { travel_desc: Some(String::from_str(desc)), ..self }
    }

    pub fn set_blocked_by_item(self, blocker_id: u128) -> (r: ExitBuilder)
        ensures
            r == (ExitBuilder { blocked_by: Some(ObjId::ITEMID(blocker_id)), ..self }),
    {
        ExitBuilder { blocked_by: Some(ObjId::ITEMID(blocker_id)), ..self }
    }

    pub fn set_blocked_desc(self, desc: &str) -> (r: ExitBuilder)
        ensures
            r == (ExitBuilder { blocked_desc: r.blocked_desc, ..self }),
            r.blocked_desc matches Some(s) && s@ == desc@,
    {
        ExitBuilder { blocked_desc: Some(String::from_str(desc)), ..self }
    }

    /// The exit; an unset description reads "You may go", an unset blocked
    /// description "You can't go that way.".
    pub fn finalize(self) -> (r: Exit)
        ensures
            r.dest == self.dest,
            r.desc@ == match self.desc {
                Some(s) => s@,
                None => "You may go"@,
            },
            r.travel_desc == self.travel_desc,
            r.blocked_by == self.blocked_by,
            r.blocked_desc@ == match self.blocked_desc {
                Some(s) => s@,
                None => "You can't go that way."@,
            },
    {
        Exit {
            dest: self.dest,
            desc: match self.desc {
                Some(s) => s,
                None => String::from_str("You may go"),
            },
            travel_desc: self.travel_desc,
            blocked_by: self.blocked_by,
            blocked_desc: match self.blocked_desc {
                Some(s) => s,
                None => String::from_str("You can't go that way."),
            },
        }
    }
}

/// One direction of a location: an exit, or the message shown when there is none.
#[derive(Debug)]
pub enum ExitExists {
    YES(Exit),
    NO(String),
}

/// The four directions of a location.
#[derive(Debug)]
pub struct Exits {
    pub n: ExitExists,
    pub s: ExitExists,
    pub e: ExitExists,
    pub w: ExitExists,
}

impl Exits {
    /// No exit in any direction, each showing `no_exit`.
    pub fn new(no_exit: &str) -> (r: Exits)
        ensures
            r.n matches ExitExists::NO(m) && m@ == no_exit@,
            r.s matches ExitExists::NO(m) && m@ == no_exit@,
            r.e matches ExitExists::NO(m) && m@ == no_exit@,
            r.w matches ExitExists::NO(m) && m@ == no_exit@,
    {
        Exits {
            n: ExitExists::NO(String::from_str(no_exit)),
            s: ExitExists::NO(String::from_str(no_exit)),
            e: ExitExists::NO(String::from_str(no_exit)),
            w: ExitExists::NO(String::from_str(no_exit)),
        }
    }
}

/// A place in the world, with its exits, its manipulable items and its scenery.
#[derive(Debug)]
pub struct Location {
    pub name: String,
    pub desc: String,
    pub exits: Exits,
    pub items: Vec<Item>,
    pub scenery_items: Vec<Item>,
}

/// Scenery is kept apart from the manipulable items, and every item keeps its
/// health in range.
pub open spec fn location_wf(loc: Location) -> bool {
    &&& forall|i: int| 0 <= i < loc.items@.len() ==> !(#[trigger] loc.items@[i]).is_scenery
    &&& forall|i: int|
        0 <= i < loc.scenery_items@.len() ==> (#[trigger] loc.scenery_items@[i]).is_scenery
    &&& all_items_wf(loc.items@)
    &&& all_items_wf(loc.scenery_items@)
}

pub open spec fn exit_in(loc: Location, d: DirectionType) -> ExitExists {
    match d {
        DirectionType::NORTH => loc.exits.n,
        DirectionType::SOUTH => loc.exits.s,
        DirectionType::EAST => loc.exits.e,
        DirectionType::WEST => loc.exits.w,
    }
}

/// The first item with id `id` in the location: manipulable items first, then scenery.
pub open spec fn lookup_id(loc: Location, id: u128) -> Option<Item> {
    match find_in_list(loc.items@, id, loc.items@.len()) {
        Some(x) => Some(x),
        None => find_in_list(loc.scenery_items@, id, loc.scenery_items@.len()),
    }
}

/// An exit is blocked when the item it refers to is in the location and blocking.
pub open spec fn exit_blocked(loc: Location, e: Exit) -> bool {
    match e.blocked_by {
        Some(ObjId::ITEMID(id)) => match lookup_id(loc, id) {
            Some(it) => blocking(it),
            None => false,
        },
        None => false,
    }
}

/// Where an exit in direction `d` leads, if there is one and it is not blocked.
pub open spec fn spec_find_exit(loc: Location, d: DirectionType) -> Option<usize> {
    match exit_in(loc, d) {
        ExitExists::YES(e) => if exit_blocked(loc, e) {
            None
        } else {
            Some(e.dest)
        },
        ExitExists::NO(_) => None,
    }
}

pub open spec fn direction_word(d: DirectionType) -> Seq<char> {
    match d {
        DirectionType::NORTH => "north"@,
        DirectionType::SOUTH => "south"@,
        DirectionType::EAST => "east"@,
        DirectionType::WEST => "west"@,
    }
}

/// The line describing the exit in direction `d`, empty when there is none.
pub open spec fn exit_line(loc: Location, d: DirectionType) -> Seq<char> {
    match exit_in(loc, d) {
        ExitExists::YES(e) => e.desc@ + " to the "@ + direction_word(d) + ". "@ + (if exit_blocked(
            loc,
            e,
        ) {
            e.blocked_desc@
        } else {
            Seq::<char>::empty()
        }) + "\n"@,
        ExitExists::NO(_) => Seq::<char>::empty(),
    }
}

pub open spec fn exits_text(loc: Location) -> Seq<char> {
    exit_line(loc, DirectionType::NORTH) + exit_line(loc, DirectionType::SOUTH) + exit_line(
        loc,
        DirectionType::EAST,
    ) + exit_line(loc, DirectionType::WEST)
}

/// The narration of passing in direction `d` without a travel description of its own.
pub open spec fn default_travel(d: DirectionType) -> Seq<char> {
    "You go "@ + direction_word(d) + "."@
}

pub open spec fn exiting_success_text(d: DirectionType, travel_desc: Option<String>) -> Seq<char> {
    match travel_desc {
        Some(s) => s@,
        None => default_travel(d),
    }
}

/// What the player is told on trying to leave in direction `d`.
pub open spec fn exiting_text(loc: Location, d: DirectionType) -> Seq<char> {
    match exit_in(loc, d) {
        ExitExists::YES(e) => if exit_blocked(loc, e) {
            e.blocked_desc@
        } else {
            exiting_success_text(d, e.travel_desc)
        },
        ExitExists::NO(m) => m@,
    }
}

/// The `i`-th of `n` names of a list (from 1): "a", "a and b", "a, b, and c".
pub open spec fn list_piece(i: int, n: int, name: Seq<char>, end: Seq<char>) -> Seq<char> {
    (if i == n && i != 1 {
        "and "@
    } else {
        Seq::<char>::empty()
    }) + name + (if i == n {
        end
    } else if n != 2 {
        ", "@
    } else {
        " "@
    })
}

/// The names of the first `k` items of `s` as a list closed by `end`.
pub open spec fn names_text(s: Seq<Item>, k: nat, end: Seq<char>) -> Seq<char>
    decreases k,
{
    if k == 0 || k > s.len() {
        Seq::<char>::empty()
    } else {
        names_text(s, (k - 1) as nat, end) + list_piece(k as int, s.len() as int, s[k - 1].name@, end)
    }
}

/// The line naming what is attached to `it`, empty when nothing is.
pub open spec fn attached_line(it: Item) -> Seq<char> {
    if it.attached_items@.len() > 0 {
        "\nAttached to the "@ + it.name@ + " is "@ + names_text(
            it.attached_items@,
            it.attached_items@.len(),
            "."@,
        )
    } else {
        Seq::<char>::empty()
    }
}

/// The attachment lines of the first `k` items of `s`.
pub open spec fn attached_lines(s: Seq<Item>, k: nat) -> Seq<char>
    decreases k,
{
    if k == 0 || k > s.len() {
        Seq::<char>::empty()
    } else {
        attached_lines(s, (k - 1) as nat) + attached_line(s[k - 1])
    }
}

pub open spec fn items_line(s: Seq<Item>) -> Seq<char> {
    if s.len() > 0 {
        "\nThere is "@ + names_text(s, s.len(), " here."@)
    } else {
        Seq::<char>::empty()
    }
}

pub open spec fn nothing_text() -> Seq<char> {
    "\nThere is nothing else of note that you can see here."@
}

/// What the player sees of the items of a location.
pub open spec fn items_text(loc: Location) -> Seq<char> {
    let body = attached_lines(loc.scenery_items@, loc.scenery_items@.len()) + items_line(loc.items@)
        + attached_lines(loc.items@, loc.items@.len());
    if body.len() == 0 {
        nothing_text()
    } else {
        body
    }
}

/// The full view of a location: name, description, exits and items.
pub open spec fn location_text(loc: Location) -> Seq<char> {
    loc.name@ + ":\n"@ + loc.desc@ + "\n"@ + exits_text(loc) + items_text(loc)
}

/// Appends the names of the items of `v` as a list closed by `end`.
fn push_names(out: &mut String, v: &Vec<Item>, end: &str)
    ensures
        final(out)@ == old(out)@ + names_text(v@, v@.len(), end@),
{
    let n = v.len();
    let mut j: usize = 0;
    let ghost start = out@;
    while j < n
        invariant
            n == v@.len(),
            j <= n,
            out@ == start + names_text(v@, j as nat, end@),
        decreases n - j,
    {
        let i = j + 1;
        if i == n && i != 1 {
            out.append("and ");
        }
        out.append(v[j].name.as_str());
        if i == n {
            out.append(end);
        } else if n != 2 {
            out.append(", ");
        } else {
            out.append(" ");
        }
        proof {
            assert(out@ =~= start + names_text(v@, (j + 1) as nat, end@));
        }
        j = i;
    }
}

/// Appends the attachment line of each item of `v`.
fn push_attached_lines(out: &mut String, v: &Vec<Item>)
    ensures
        final(out)@ == old(out)@ + attached_lines(v@, v@.len()),
{
    let n = v.len();
    let mut j: usize = 0;
    let ghost start = out@;
    while j < n
        invariant
            n == v@.len(),
            j <= n,
            out@ == start + attached_lines(v@, j as nat),
        decreases n - j,
    {
        let item = &v[j];
        if item.attached_items.len() > 0 {
            out.append("\nAttached to the ");
            out.append(item.name.as_str());
            out.append(" is ");
            push_names(out, &item.attached_items, ".");
        }
        proof {
            assert(out@ =~= start + attached_lines(v@, (j + 1) as nat));
        }
        j = j + 1;
    }
}

impl Location {
    /// A location with no exits and no items; every direction shows `no_exit`.
    pub fn new(n: &str, d: &str, no_exit: &str) -> (r: Location)
        ensures
            r.name@ == n@,
            r.desc@ == d@,
            r.exits.n matches ExitExists::NO(m) && m@ == no_exit@,
            r.exits.s matches ExitExists::NO(m) && m@ == no_exit@,
            r.exits.e matches ExitExists::NO(m) && m@ == no_exit@,
            r.exits.w matches ExitExists::NO(m) && m@ == no_exit@,
            r.items@.len() == 0,
            r.scenery_items@.len() == 0,
            location_wf(r),
    {
        Location {
            name: String::from_str(n),
            desc: String::from_str(d),
            exits: Exits::new(no_exit),
            items: Vec::new(),
            scenery_items: Vec::new(),
        }
    }

    /// One tick of every item of the location, manipulable items first.
    pub fn update(&mut self, display: &mut String)
        ensures
            final(self).name == old(self).name,
            final(self).desc == old(self).desc,
            final(self).exits == old(self).exits,
            final(self).items@.len() == old(self).items@.len(),
            ticked_list(old(self).items@, final(self).items@, old(self).items@.len()),
            final(self).scenery_items@.len() == old(self).scenery_items@.len(),
            ticked_list(
                old(self).scenery_items@,
                final(self).scenery_items@,
                old(self).scenery_items@.len(),
            ),
            final(display)@ == old(display)@ + tick_text_list(old(self).items@, old(self).items@.len())
                + tick_text_list(old(self).scenery_items@, old(self).scenery_items@.len()),
    {
        let ghost start = display@;
        let mut items: Vec<Item> = Vec::new();
        std::mem::swap(&mut self.items, &mut items);
        self.items = tick_children(items, display);
        let mut scenery: Vec<Item> = Vec::new();
        std::mem::swap(&mut self.scenery_items, &mut scenery);
        self.scenery_items = tick_children(scenery, display);
        assert(display@ =~= start + tick_text_list(old(self).items@, old(self).items@.len())
            + tick_text_list(old(self).scenery_items@, old(self).scenery_items@.len()));
    }

    /// Puts `exit` in direction `d`, replacing what was there.
    pub fn add_exit(&mut self, d: DirectionType, exit: Exit)
        ensures
            final(self).name == old(self).name,
            final(self).desc == old(self).desc,
            final(self).items == old(self).items,
            final(self).scenery_items == old(self).scenery_items,
            exit_in(*final(self), d) == ExitExists::YES(exit),
            forall|o: DirectionType| o != d ==> exit_in(*final(self), o) == exit_in(*old(self), o),
    {
        let new_exit = ExitExists::YES(exit);
        match d {
            DirectionType::NORTH => self.exits.n = new_exit,
            DirectionType::SOUTH => self.exits.s = new_exit,
            DirectionType::EAST => self.exits.e = new_exit,
            DirectionType::WEST => self.exits.w = new_exit,
        };
    }

    fn exit_for(&self, d: DirectionType) -> (r: &ExitExists)
        ensures
            *r == exit_in(*self, d),
    {
        match d {
            DirectionType::NORTH => &self.exits.n,
            DirectionType::SOUTH => &self.exits.s,
            DirectionType::EAST => &self.exits.e,
            DirectionType::WEST => &self.exits.w,
        }
    }

    fn push_exit_line(&self, out: &mut String, d: DirectionType)
        ensures
            final(out)@ == old(out)@ + exit_line(*self, d),
    {
        match self.exit_for(d) {
            ExitExists::YES(e) => {
                let ghost start = out@;
                out.append(e.desc.as_str());
                out.append(" to the ");
                match d {
                    DirectionType::NORTH => out.append("north"),
                    DirectionType::SOUTH => out.append("south"),
                    DirectionType::EAST => out.append("east"),
                    DirectionType::WEST => out.append("west"),
                }
                out.append(". ");
                if self.is_exit_blocked(e) {
                    out.append(e.blocked_desc.as_str());
                }
                out.append("\n");
                proof {
                    assert(out@ =~= start + exit_line(*self, d));
                }
            },
            ExitExists::NO(_) => {
                proof {
                    assert(out@ + Seq::<char>::empty() =~= out@);
                }
            },
        }
    }

    /// One line per existing exit, north, south, east, west, with the blocked
    /// description of each exit that is blocked.
    pub fn display_exits(&self) -> (r: String)
        ensures
            r@ == exits_text(*self),
    {
        let mut out = String::new();
        self.push_exit_line(&mut out, DirectionType::NORTH);
        self.push_exit_line(&mut out, DirectionType::SOUTH);
        self.push_exit_line(&mut out, DirectionType::EAST);
        self.push_exit_line(&mut out, DirectionType::WEST);
        assert(out@ =~= exits_text(*self));
        out
    }

    /// Where the exit in direction `d` leads; `None` when there is no exit or it is blocked.
    pub fn find_exit(&self, d: DirectionType) -> (r: Option<usize>)
        ensures
            r == spec_find_exit(*self, d),
    {
        match self.exit_for(d) {
            ExitExists::YES(e) => {
                if self.is_exit_blocked(e) {
                    None
                } else {
                    Some(e.dest)
                }
            },
            ExitExists::NO(_) => None,
        }
    }

    /// What the player is told on trying to leave in direction `d`.
    pub fn display_exiting(&self, d: DirectionType) -> (r: String)
        ensures
            r@ == exiting_text(*self, d),
    {
        match self.exit_for(d) {
            ExitExists::YES(e) => {
                if self.is_exit_blocked(e) {
                    e.blocked_desc.clone()
                } else {
                    Location::display_exiting_success(d, &e.travel_desc)
                }
            },
            ExitExists::NO(s) => s.clone(),
        }
    }

    /// Whether `e` is blocked by an item of this location.
    pub fn is_exit_blocked(&self, e: &Exit) -> (r: bool)
        ensures
            r == exit_blocked(*self, *e),
    {
        match e.blocked_by {
            Some(ObjId::ITEMID(id)) => match self.find_item_by_id(id) {
                Some(i) => i.is_blocking(),
                None => false,
            },
            None => false,
        }
    }

    pub fn display_exiting_success(d: DirectionType, travel_desc: &Option<String>) -> (r: String)
        ensures
            r@ == exiting_success_text(d, *travel_desc),
    {
        match travel_desc {
            Some(s) => s.clone(),
            None => {
                let mut out = String::from_str("You go ");
                match d {
                    DirectionType::NORTH => out.append("north"),
                    DirectionType::SOUTH => out.append("south"),
                    DirectionType::EAST => out.append("east"),
                    DirectionType::WEST => out.append("west"),
                }
                out.append(".");
                out
            },
        }
    }

    /// Adds an item: scenery to the scenery list, anything else to the manipulable items.
    pub fn add_item(&mut self, i: Item)
        ensures
            final(self).name == old(self).name,
            final(self).desc == old(self).desc,
            final(self).exits == old(self).exits,
            i.is_scenery ==> final(self).scenery_items@ == old(self).scenery_items@.push(i)
                && final(self).items == old(self).items,
            !i.is_scenery ==> final(self).items@ == old(self).items@.push(i)
                && final(self).scenery_items == old(self).scenery_items,
            location_wf(*old(self)) && item_wf(i) ==> location_wf(*final(self)),
    {
        if i.is_scenery {
            self.scenery_items.push(i);
        } else {
            self.items.push(i);
        }
    }

    /// The first item of the type `i_node` names: manipulable items first, then
    /// scenery, then what is attached to scenery.
    pub fn find_item(&self, i_node: &ItemNode) -> (r: Option<&Item>)
        ensures
            match r {
                Some(x) => location_find(*self, i_node.subject@) == Some(*x),
                None => location_find(*self, i_node.subject@) is None,
            },
    {
        match position_of_type(&self.items, &i_node.subject) {
            Some(k) => Some(&self.items[k]),
            None => match position_of_type(&self.scenery_items, &i_node.subject) {
                Some(k) => Some(&self.scenery_items[k]),
                None => {
                    let n = self.scenery_items.len();
                    let mut j: usize = 0;
                    while j < n
                        invariant
                            n == self.scenery_items@.len(),
                            j <= n,
                            first_of_type(self.items@, i_node.subject@, 0) is None,
                            first_of_type(self.scenery_items@, i_node.subject@, 0) is None,
                            attached_find(self.scenery_items@, i_node.subject@, 0)
                                == attached_find(self.scenery_items@, i_node.subject@, j as int),
                        decreases n - j,
                    {
                        match position_of_type(&self.scenery_items[j].attached_items, &i_node.subject) {
                            Some(k) => {
                                return Some(&self.scenery_items[j].attached_items[k]);
                            },
                            None => {},
                        }
                        j = j + 1;
                    }
                    None
                },
            },
        }
    }

    /// Takes the first manipulable item of the type `i_node` names out of the location.
    pub fn remove_item(&mut self, i_node: &ItemNode) -> (r: Option<Item>)
        ensures
            final(self).name == old(self).name,
            final(self).desc == old(self).desc,
            final(self).exits == old(self).exits,
            final(self).scenery_items == old(self).scenery_items,
            match first_of_type(old(self).items@, i_node.subject@, 0) {
                Some(k) => r == Some(old(self).items@[k]) && final(self).items@
                    == old(self).items@.remove(k),
                None => r is None && final(self).items == old(self).items,
            },
            location_wf(*old(self)) ==> location_wf(*final(self)),
    {
        proof {
            crate::search::lemma_first_of_type(self.items@, i_node.subject@, 0);
        }
        match position_of_type(&self.items, &i_node.subject) {
            Some(i) => {
                let r = self.items.remove(i);
                assert(forall|j: int|
                    0 <= j < self.items@.len() ==> self.items@[j] == old(
                        self,
                    ).items@[if j < i {
                        j
                    } else {
                        j + 1
                    }]);
                Some(r)
            },
            None => None,
        }
    }

    /// What the player sees of the items here: what is attached to scenery, the
    /// list of manipulable items, and what is attached to them.
    pub fn display_items(&self) -> (r: String)
        ensures
            r@ == items_text(*self),
    {
        let mut display = String::new();
        push_attached_lines(&mut display, &self.scenery_items);
        if self.items.len() > 0 {
            display.append("\nThere is ");
            push_names(&mut display, &self.items, " here.");
        }
        push_attached_lines(&mut display, &self.items);
        let ghost body = attached_lines(self.scenery_items@, self.scenery_items@.len()) + items_line(
            self.items@,
        ) + attached_lines(self.items@, self.items@.len());
        assert(display@ =~= body);
        if display.unicode_len() == 0 {
            display.append("\nThere is nothing else of note that you can see here.");
            assert(display@ =~= nothing_text());
        }
        display
    }

    /// The first item with id `id` here, searching manipulable items first, then
    /// scenery, each with what is attached to it.
    pub fn find_item_by_id(&self, id: u128) -> (r: Option<&Item>)
        ensures
            match r {
                Some(x) => lookup_id(*self, id) == Some(*x),
                None => lookup_id(*self, id) is None,
            },
    {
        match find_id_in(&self.items, id) {
            Some(x) => Some(x),
            None => find_id_in(&self.scenery_items, id),
        }
    }

    /// The full view of the location: name, description, exits and items.
    pub fn display(&self) -> (r: String)
        ensures
            r@ == location_text(*self),
    {
        let mut out = self.name.clone();
        out.append(":\n");
        out.append(self.desc.as_str());
        out.append("\n");
        let exits = self.display_exits();
        out.append(exits.as_str());
        let items = self.display_items();
        out.append(items.as_str());
        assert(out@ =~= location_text(*self));
        out
    }
}

/// An exit without a blocking reference is always open; one that refers to an
/// item present in the location is open exactly when that item is not blocking.
pub proof fn lemma_exit_open_iff_not_blocking(loc: Location, d: DirectionType)
    requires
        exit_in(loc, d) is YES,
    ensures
        exit_in(loc, d)->YES_0.blocked_by is None ==> spec_find_exit(loc, d) is Some,
        exit_in(loc, d)->YES_0.blocked_by matches Some(ObjId::ITEMID(id)) ==> (lookup_id(loc, id)
            matches Some(it) ==> (spec_find_exit(loc, d) is Some <==> !blocking(it))),
{
}

/// The first item at or after scenery index `j` with an attached item of type `t`:
/// the scenery index and the index within its attached items.
pub open spec fn attached_find(s: Seq<Item>, t: Seq<char>, j: int) -> Option<(int, int)>
    decreases s.len() - j,
{
    if j < 0 || j >= s.len() {
        None
    } else {
        match first_of_type(s[j].attached_items@, t, 0) {
            Some(k) => Some((j, k)),
            None => attached_find(s, t, j + 1),
        }
    }
}

/// The item that looking for type `t` in a location finds.
pub open spec fn location_find(loc: Location, t: Seq<char>) -> Option<Item> {
    match first_of_type(loc.items@, t, 0) {
        Some(k) => Some(loc.items@[k]),
        None => match first_of_type(loc.scenery_items@, t, 0) {
            Some(k) => Some(loc.scenery_items@[k]),
            None => match attached_find(loc.scenery_items@, t, 0) {
                Some((j, k)) => Some(loc.scenery_items@[j].attached_items@[k]),
                None => None,
            },
        },
    }
}

} // verus!
