use vstd::prelude::*;

verus! {

/// The kind of damage a tool inflicts, or that an item suffers from.
#[derive(Clone, Copy, PartialEq, Eq, Structural, Debug)]
pub enum DamageType {
    SMASHING,
    CUTTING,
}

/// How damaged an item is, derived from its health.
#[derive(Clone, Copy, PartialEq, Eq, Structural, Debug)]
pub enum DamageLevel {
    NODAMAGE,
    LIGHT,
    HEAVY,
    DESTROYED,
}

/// Anything the player can see, carry or act on.
///
/// A negative `max_health` marks an item that cannot be damaged.
#[derive(Debug)]
pub struct Item {
    pub id: u128,
    pub i_type: String,
    pub name: String,
    // Descriptions
    pub desc: String,
    pub is_on_desc: String,
    pub light_damage_desc: String,
    pub heavy_damage_desc: String,
    pub destroyed_desc: String,
    // Attributes
    pub is_fixed: bool,
    pub is_scenery: bool,
    pub can_turn_on: bool,
    pub is_on: bool,
    pub can_attach: bool,
    // Health and damage
    pub max_health: i32,
    pub current_health: i32,
    pub to_dmg: i32,
    pub damaged_by: Option<DamageType>,
    pub damage_type: Option<DamageType>,
    // Items attached to this one, in order of attachment
    pub attached_items: Vec<Item>,
}

/// The damage level of an item with the given maximum and current health.
pub open spec fn damage_level_of(max: int, cur: int) -> DamageLevel {
    if max == cur || max < 0 {
        DamageLevel::NODAMAGE
    } else if cur < max && cur >= (max + 1) / 2 {
        DamageLevel::LIGHT
    } else if cur <= max / 2 && cur > 0 {
        DamageLevel::HEAVY
    } else if cur == 0 && max != 0 {
        DamageLevel::DESTROYED
    } else {
        DamageLevel::NODAMAGE
    }
}

/// Whether an item currently stops passage through an exit that refers to it.
pub open spec fn blocking(it: Item) -> bool {
    (it.max_health > 0 && it.current_health > 0) || (it.can_attach && it.attached_items@.len()
        == 0) || it.is_on
}

/// What an item looks like when its health is `health`.
pub open spec fn description_at(it: Item, health: int) -> Seq<char> {
    (match damage_level_of(it.max_health as int, health) {
        DamageLevel::NODAMAGE => it.desc@,
        DamageLevel::LIGHT => it.light_damage_desc@,
        DamageLevel::HEAVY => it.heavy_damage_desc@,
        DamageLevel::DESTROYED => it.destroyed_desc@,
    }) + if it.is_on {
        " "@ + it.is_on_desc@
    } else {
        Seq::<char>::empty()
    }
}

/// The full current description of an item.
pub open spec fn item_description(it: Item) -> Seq<char> {
    description_at(it, it.current_health as int)
}

/// Health after pending damage is applied: clamped to `[0, max_health]`;
/// untouched for an item that cannot be damaged.
pub open spec fn ticked_health(it: Item) -> int {
    if it.max_health < 0 {
        it.current_health as int
    } else if it.current_health - it.to_dmg < 0 {
        0
    } else if it.current_health - it.to_dmg > it.max_health {
        it.max_health as int
    } else {
        it.current_health - it.to_dmg
    }
}

/// The line an item adds to the turn's narration when its damage level changes.
pub open spec fn own_tick_text(it: Item) -> Seq<char> {
    if damage_level_of(it.max_health as int, ticked_health(it)) != damage_level_of(
        it.max_health as int,
        it.current_health as int,
    ) {
        description_at(it, ticked_health(it)) + "\n"@
    } else {
        Seq::<char>::empty()
    }
}

/// The narration that one tick of an item and everything attached to it produces.
pub open spec fn tick_text(it: Item) -> Seq<char>
    decreases it,
{
    own_tick_text(it) + tick_text_list(it.attached_items@, it.attached_items@.len())
}

/// The narration of the first `n` items of `s`, in order.
pub open spec fn tick_text_list(s: Seq<Item>, n: nat) -> Seq<char>
    decreases s, n,
{
    if n == 0 || n > s.len() {
        Seq::<char>::empty()
    } else {
        tick_text_list(s, (n - 1) as nat) + tick_text(s[n - 1])
    }
}

/// `b` is `a` after one tick: pending damage applied and cleared, here and in
/// every attached item.
pub open spec fn ticked(a: Item, b: Item) -> bool
    decreases a,
{
    &&& b == (Item {
        current_health: ticked_health(a) as i32,
        to_dmg: 0,
        attached_items: b.attached_items,
        ..a
    })
    &&& b.attached_items@.len() == a.attached_items@.len()
    &&& ticked_list(a.attached_items@, b.attached_items@, a.attached_items@.len())
}

/// Each of the first `n` items of `t` is the ticked item of `s` at the same place.
pub open spec fn ticked_list(s: Seq<Item>, t: Seq<Item>, n: nat) -> bool
    decreases s, n,
{
    if n == 0 || n > s.len() {
        true
    } else {
        ticked_list(s, t, (n - 1) as nat) && ticked(s[n - 1], t[n - 1])
    }
}

/// The first item, in pre-order, of the tree rooted at `it` whose id is `id`.
pub open spec fn find_in_tree(it: Item, id: u128) -> Option<Item>
    decreases it,
{
    if it.id == id {
        Some(it)
    } else {
        find_in_list(it.attached_items@, id, it.attached_items@.len())
    }
}

/// The first item with id `id` among the trees rooted at the first `n` items of `s`.
pub open spec fn find_in_list(s: Seq<Item>, id: u128, n: nat) -> Option<Item>
    decreases s, n,
{
    if n == 0 || n > s.len() {
        None
    } else {
        match find_in_list(s, id, (n - 1) as nat) {
            Some(x) => Some(x),
            None => find_in_tree(s[n - 1], id),
        }
    }
}

proof fn lemma_ticked_list_frame(s: Seq<Item>, t: Seq<Item>, u: Seq<Item>, n: nat)
    requires
        ticked_list(s, t, n),
        n <= t.len(),
        n <= u.len(),
        forall|j: int| 0 <= j < n ==> t[j] == u[j],
    ensures
        ticked_list(s, u, n),
    decreases n,
{
    if n > 0 && n <= s.len() {
        lemma_ticked_list_frame(s, t, u, (n - 1) as nat);
    }
}

fn tick_owned(it: Item, display: &mut String) -> (r: Item)
    ensures
        ticked(it, r),
        final(display)@ == old(display)@ + tick_text(it),
    decreases it,
{
    let ghost start = display@;
    let mut it = it;
    let ghost orig = it;
    it.apply_pending(display);
    let mut children: Vec<Item> = Vec::new();
    std::mem::swap(&mut it.attached_items, &mut children);
    assert(decreases_to!(orig => orig.attached_items));
    let ticked_children = tick_children(children, display);
    it.attached_items = ticked_children;
    assert(display@ =~= start + tick_text(orig));
    it
}

pub(crate) fn tick_children(v: Vec<Item>, display: &mut String) -> (r: Vec<Item>)
    ensures
        r@.len() == v@.len(),
        ticked_list(v@, r@, v@.len()),
        final(display)@ == old(display)@ + tick_text_list(v@, v@.len()),
    decreases v,
{
    let ghost orig = v@;
    let ghost start = display@;
    let mut rest = v;
    let mut out: Vec<Item> = Vec::new();
    let n = rest.len();
    while out.len() < n
        invariant
            n == orig.len(),
            v@ == orig,
            out@.len() <= n,
            rest@ == orig.subrange(out@.len() as int, n as int),
            ticked_list(orig, out@, out@.len() as nat),
            display@ == start + tick_text_list(orig, out@.len() as nat),
        decreases n - out@.len(),
    {
        let k = out.len();
        let child = rest.remove(0);
        assert(child == orig[k as int]);
        assert(decreases_to!(v => v[k as int]));
        let t = tick_owned(child, display);
        let ghost before = out@;
        out.push(t);
        proof {
            lemma_ticked_list_frame(orig, before, out@, k as nat);
            assert(display@ =~= start + tick_text_list(orig, (k + 1) as nat));
        }
    }
    out
}

/// `it` after one more unit of pending damage.
pub open spec fn damaged_once(it: Item) -> Item {
    Item {
        to_dmg: if it.to_dmg + 1 > i32::MAX {
            i32::MAX
        } else {
            (it.to_dmg + 1) as i32
        },
        ..it
    }
}

/// `it` after `j` turns in each of which it takes one unit of damage and the
/// tick then applies it.
pub open spec fn after_damage_rounds(it: Item, j: nat) -> Item
    decreases j,
{
    if j == 0 {
        it
    } else {
        let d = damaged_once(after_damage_rounds(it, (j - 1) as nat));
        Item { current_health: ticked_health(d) as i32, to_dmg: 0, ..d }
    }
}

/// `it` after `j` units of pending damage, with no tick in between.
pub open spec fn damaged_times(it: Item, j: nat) -> Item
    decreases j,
{
    if j == 0 {
        it
    } else {
        damaged_once(damaged_times(it, (j - 1) as nat))
    }
}

/// Damaging an undamaged item once per turn lowers its health by one each
/// turn, never below 0; after `max_health` turns it is at 0 and destroyed.
pub proof fn lemma_damage_rounds_destroy(it: Item, j: nat)
    requires
        0 < it.max_health,
        it.current_health == it.max_health,
        it.to_dmg == 0,
    ensures
        after_damage_rounds(it, j).current_health == if j >= it.max_health {
            0
        } else {
            it.max_health - j
        },
        after_damage_rounds(it, j).max_health == it.max_health,
        after_damage_rounds(it, j).to_dmg == 0,
        j >= it.max_health ==> damage_level_of(
            it.max_health as int,
            after_damage_rounds(it, j).current_health as int,
        ) == DamageLevel::DESTROYED,
    decreases j,
{
    if j > 0 {
        lemma_damage_rounds_destroy(it, (j - 1) as nat);
    }
}

/// The tick of the turn that destroys such an item tells its destroyed
/// description, once.
pub proof fn lemma_last_round_narrates(it: Item)
    requires
        0 < it.max_health,
        it.current_health == it.max_health,
        it.to_dmg == 0,
    ensures
        own_tick_text(damaged_once(after_damage_rounds(it, (it.max_health - 1) as nat)))
            == it.destroyed_desc@ + (if it.is_on {
            " "@ + it.is_on_desc@
        } else {
            Seq::<char>::empty()
        }) + "\n"@,
        own_tick_text(damaged_once(after_damage_rounds(it, it.max_health as nat)))
            == Seq::<char>::empty(),
{
    lemma_damage_rounds_destroy(it, (it.max_health - 1) as nat);
    lemma_damage_rounds_destroy(it, it.max_health as nat);
    lemma_after_rounds_keeps(it, it.max_health as nat);
    lemma_after_rounds_keeps(it, (it.max_health - 1) as nat);
}

/// Rounds of damage change only health and pending damage.
proof fn lemma_after_rounds_keeps(it: Item, j: nat)
    ensures
        after_damage_rounds(it, j) == (Item {
            current_health: after_damage_rounds(it, j).current_health,
            to_dmg: after_damage_rounds(it, j).to_dmg,
            ..it
        }),
    decreases j,
{
    if j > 0 {
        lemma_after_rounds_keeps(it, (j - 1) as nat);
    }
}

/// Damaging an undamaged item `max_health` times before a tick leaves that
/// much damage pending; the tick then brings its health to 0, destroyed.
pub proof fn lemma_pending_damage_destroys(it: Item)
    requires
        0 < it.max_health,
        it.current_health == it.max_health,
        it.to_dmg == 0,
    ensures
        damaged_times(it, it.max_health as nat).to_dmg == it.max_health,
        ticked_health(damaged_times(it, it.max_health as nat)) == 0,
        damage_level_of(it.max_health as int, 0) == DamageLevel::DESTROYED,
{
    lemma_damaged_times(it, it.max_health as nat);
}

proof fn lemma_damaged_times(it: Item, j: nat)
    requires
        0 <= j <= it.max_health,
        it.to_dmg == 0,
    ensures
        damaged_times(it, j) == (Item { to_dmg: j as i32, ..it }),
    decreases j,
{
    if j > 0 {
        lemma_damaged_times(it, (j - 1) as nat);
    }
}

/// Health stays within `[0, max_health]` for an item that can be damaged.
pub open spec fn health_ok(it: Item) -> bool {
    it.max_health >= 0 ==> 0 <= it.current_health <= it.max_health
}

/// An item and everything attached to it keep their health in range.
pub open spec fn item_wf(it: Item) -> bool
    decreases it,
{
    health_ok(it) && items_wf_upto(it.attached_items@, it.attached_items@.len())
}

/// The first `n` items of `s` are well formed.
pub open spec fn items_wf_upto(s: Seq<Item>, n: nat) -> bool
    decreases s, n,
{
    if n == 0 || n > s.len() {
        true
    } else {
        items_wf_upto(s, (n - 1) as nat) && item_wf(s[n - 1])
    }
}

/// Every item of `s` is well formed.
pub open spec fn all_items_wf(s: Seq<Item>) -> bool {
    forall|i: int| 0 <= i < s.len() ==> item_wf(#[trigger] s[i])
}

proof fn lemma_items_wf_upto(s: Seq<Item>, n: nat)
    requires
        n <= s.len(),
    ensures
        items_wf_upto(s, n) <==> forall|i: int| 0 <= i < n ==> item_wf(#[trigger] s[i]),
    decreases n,
{
    if n > 0 {
        lemma_items_wf_upto(s, (n - 1) as nat);
    }
}

/// An item is well formed exactly when its health is in range and every
/// attached item is well formed.
pub proof fn lemma_item_wf(it: Item)
    ensures
        item_wf(it) <==> health_ok(it) && all_items_wf(it.attached_items@),
{
    lemma_items_wf_upto(it.attached_items@, it.attached_items@.len());
}

/// Attaching a well-formed item to a well-formed one keeps it well formed.
pub proof fn lemma_attach_wf(a: Item, b: Item, src: Item)
    requires
        item_wf(a),
        item_wf(src),
        b == (Item { attached_items: b.attached_items, ..a }),
        b.attached_items@ == a.attached_items@.push(src),
    ensures
        item_wf(b),
{
    lemma_item_wf(a);
    lemma_item_wf(b);
    assert forall|i: int| 0 <= i < b.attached_items@.len() implies item_wf(
        #[trigger] b.attached_items@[i],
    ) by {
        if i < a.attached_items@.len() {
            assert(b.attached_items@[i] == a.attached_items@[i]);
        }
    }
}

/// Changing neither health nor attached items keeps an item well formed.
pub proof fn lemma_same_shape_wf(a: Item, b: Item)
    requires
        item_wf(a),
        b.max_health == a.max_health,
        b.current_health == a.current_health,
        b.attached_items == a.attached_items,
    ensures
        item_wf(b),
{
    lemma_item_wf(a);
    lemma_item_wf(b);
}

/// A tick leaves every item well formed, whatever it started from.
pub proof fn lemma_ticked_wf(a: Item, b: Item)
    requires
        ticked(a, b),
    ensures
        item_wf(b),
    decreases a,
{
    lemma_item_wf(b);
    assert forall|i: int| 0 <= i < b.attached_items@.len() implies item_wf(
        #[trigger] b.attached_items@[i],
    ) by {
        lemma_ticked_list_at(a.attached_items@, b.attached_items@, a.attached_items@.len(), i);
        assert(decreases_to!(a => a.attached_items));
        assert(decreases_to!(a.attached_items => a.attached_items[i]));
        lemma_ticked_wf(a.attached_items@[i], b.attached_items@[i]);
    }
}

/// No item in the tree rooted at `it` has damage pending.
pub open spec fn no_pending(it: Item) -> bool
    decreases it,
{
    it.to_dmg == 0 && no_pending_upto(it.attached_items@, it.attached_items@.len())
}

pub open spec fn no_pending_upto(s: Seq<Item>, n: nat) -> bool
    decreases s, n,
{
    if n == 0 || n > s.len() {
        true
    } else {
        no_pending_upto(s, (n - 1) as nat) && no_pending(s[n - 1])
    }
}

/// Without pending damage a tick tells nothing and leaves every health as it was.
pub proof fn lemma_quiet_tick(a: Item, b: Item)
    requires
        item_wf(a),
        no_pending(a),
        ticked(a, b),
    ensures
        tick_text(a) == Seq::<char>::empty(),
        b.current_health == a.current_health,
    decreases a,
{
    lemma_quiet_tick_list(a.attached_items@, b.attached_items@, a.attached_items@.len());
    assert(tick_text(a) =~= Seq::<char>::empty());
}

proof fn lemma_quiet_tick_list(s: Seq<Item>, t: Seq<Item>, n: nat)
    requires
        n <= s.len(),
        items_wf_upto(s, n),
        no_pending_upto(s, n),
        ticked_list(s, t, n),
    ensures
        tick_text_list(s, n) == Seq::<char>::empty(),
    decreases s, n,
{
    if n > 0 {
        lemma_quiet_tick_list(s, t, (n - 1) as nat);
        lemma_quiet_tick(s[n - 1], t[n - 1]);
        assert(tick_text_list(s, n) =~= Seq::<char>::empty());
    }
}

/// Each item of `t` below `n` is the ticked item of `s` at the same place.
pub proof fn lemma_ticked_list_at(s: Seq<Item>, t: Seq<Item>, n: nat, i: int)
    requires
        ticked_list(s, t, n),
        n <= s.len(),
        0 <= i < n,
    ensures
        ticked(s[i], t[i]),
    decreases n,
{
    if i < n - 1 {
        lemma_ticked_list_at(s, t, (n - 1) as nat, i);
    }
}

impl Item {
    pub fn get_id(&self) -> (r: u128)
        ensures
            r == self.id,
    {
        self.id
    }

    /// Whether the item currently blocks an exit that refers to it.
    pub fn is_blocking(&self) -> (r: bool)
        ensures
            r == blocking(*self),
    {
        (self.max_health > 0 && self.current_health > 0) || (self.can_attach
            && self.attached_items.len() == 0) || self.is_on
    }

    /// Flips the on/off state of an item that supports it and returns the new state.
    pub fn toggle_on(&mut self) -> (r: Option<bool>)
        ensures
            old(self).can_turn_on ==> r == Some(!old(self).is_on) && *final(self) == (Item {
                is_on: !old(self).is_on,
                ..*old(self)
            }),
            !old(self).can_turn_on ==> r is None && *final(self) == *old(self),
    {
        if self.can_turn_on {
            self.is_on = !self.is_on;
            Some(self.is_on)
        } else {
            None
        }
    }

    /// Adds `amount` to the pending damage, which the next tick applies; the
    /// sum is held within the range of `i32`.
    pub fn damage(&mut self, amount: i32)
        ensures
            *final(self) == (Item {
                to_dmg: if old(self).to_dmg + amount > i32::MAX {
                    i32::MAX
                } else if old(self).to_dmg + amount < i32::MIN {
                    i32::MIN
                } else {
                    (old(self).to_dmg + amount) as i32
                },
                ..*old(self)
            }),
    {
        let sum: i64 = (self.to_dmg as i64) + (amount as i64);
        if sum > i32::MAX as i64 {
            self.to_dmg = i32::MAX;
        } else if sum < i32::MIN as i64 {
            self.to_dmg = i32::MIN;
        } else {
            self.to_dmg = sum as i32;
        }
    }

    pub fn damage_level(&self) -> (r: DamageLevel)
        ensures
            r == damage_level_of(self.max_health as int, self.current_health as int),
    {
        let max = self.max_health;
        let cur = self.current_health;
        if max == cur || max < 0 {
            DamageLevel::NODAMAGE
        } else {
            let half_up: i64 = ((max as i64) + 1) / 2;
            let half_down: i64 = (max as i64) / 2;
            if cur < max && (cur as i64) >= half_up {
                DamageLevel::LIGHT
            } else if (cur as i64) <= half_down && cur > 0 {
                DamageLevel::HEAVY
            } else if cur == 0 && max != 0 {
                DamageLevel::DESTROYED
            } else {
                DamageLevel::NODAMAGE
            }
        }
    }

    /// The item's current description: by damage level, with the "on" text
    /// appended while it is on.
    pub fn description(&self) -> (r: String)
        ensures
            r@ == item_description(*self),
    {
        let mut s = match self.damage_level() {
            DamageLevel::NODAMAGE => self.desc.clone(),
            DamageLevel::LIGHT => self.light_damage_desc.clone(),
            DamageLevel::HEAVY => self.heavy_damage_desc.clone(),
            DamageLevel::DESTROYED => self.destroyed_desc.clone(),
        };
        if self.is_on {
            s.append(" ");
            s.append(self.is_on_desc.as_str());
        } else {
            proof {
                assert(s@ + Seq::<char>::empty() =~= s@);
            }
        }
        s
    }

    fn ticked_health_value(&self) -> (r: i32)
        ensures
            r == ticked_health(*self),
    {
        if self.max_health < 0 {
            self.current_health
        } else {
            let h: i64 = (self.current_health as i64) - (self.to_dmg as i64);
            if h < 0 {
                0
            } else if h > self.max_health as i64 {
                self.max_health
            } else {
                h as i32
            }
        }
    }

    /// Applies this item's own pending damage and clears it, appending its
    /// description when its damage level changes.
    fn apply_pending(&mut self, display: &mut String)
        ensures
            *final(self) == (Item {
                current_health: ticked_health(*old(self)) as i32,
                to_dmg: 0,
                ..*old(self)
            }),
            final(display)@ == old(display)@ + own_tick_text(*old(self)),
    {
        let dmg_lvl = self.damage_level();
        self.current_health = self.ticked_health_value();
        if dmg_lvl != self.damage_level() {
            let d = self.description();
            display.append(d.as_str());
            display.append("\n");
        } else {
            proof {
                assert(display@ + Seq::<char>::empty() =~= display@);
            }
        }
        self.to_dmg = 0;
    }

    /// One tick: applies pending damage to this item and everything attached to
    /// it, appending the description of each item whose damage level changed.
    pub fn update(&mut self, display: &mut String)
        ensures
            ticked(*old(self), *final(self)),
            final(display)@ == old(display)@ + tick_text(*old(self)),
    {
        let ghost orig = *self;
        let ghost start = display@;
        self.apply_pending(display);
        let mut children: Vec<Item> = Vec::new();
        std::mem::swap(&mut self.attached_items, &mut children);
        let ticked_children = tick_children(children, display);
        self.attached_items = ticked_children;
        assert(display@ =~= start + tick_text(orig));
    }
    /// Whether this item and everything attached to it keep their health in range.
    pub fn is_wf(&self) -> (r: bool)
        ensures
            r == item_wf(*self),
        decreases self,
    {
        proof {
            lemma_item_wf(*self);
        }
        if self.max_health >= 0 && (self.current_health < 0 || self.current_health
            > self.max_health) {
            return false;
        }
        let n = self.attached_items.len();
        let mut i: usize = 0;
        while i < n
            invariant
                i <= n,
                n == self.attached_items@.len(),
                health_ok(*self),
                item_wf(*self) <==> health_ok(*self) && all_items_wf(self.attached_items@),
                forall|j: int| 0 <= j < i ==> item_wf(#[trigger] self.attached_items@[j]),
            decreases n - i,
        {
            assert(decreases_to!(self.attached_items => self.attached_items[i as int]));
            if !self.attached_items[i].is_wf() {
                return false;
            }
            i = i + 1;
        }
        true
    }

    /// Attaches `item` to this one, after any already attached.
    pub fn attach_item(&mut self, item: Item)
        ensures
            final(self).attached_items@ == old(self).attached_items@.push(item),
            *final(self) == (Item { attached_items: final(self).attached_items, ..*old(self) }),
    {
        self.attached_items.push(item);
    }

    /// The first item, in pre-order, of the tree rooted here whose id is `id`.
    pub fn find_item_by_id(&self, id: u128) -> (r: Option<&Item>)
        ensures
            match r {
                Some(x) => find_in_tree(*self, id) == Some(*x),
                None => find_in_tree(*self, id) is None,
            },
        decreases self,
    {
        if self.id == id {
            return Some(self);
        }
        let n = self.attached_items.len();
        let mut i: usize = 0;
        while i < n
            invariant
                0 <= i <= n,
                n == self.attached_items@.len(),
                self.id != id,
                find_in_list(self.attached_items@, id, i as nat) is None,
            decreases n - i,
        {
            assert(decreases_to!(self.attached_items => self.attached_items[i as int]));
            match self.attached_items[i].find_item_by_id(id) {
                Some(x) => {
                    proof {
                        assert(find_in_list(self.attached_items@, id, (i + 1) as nat) == find_in_tree(
                            self.attached_items@[i as int],
                            id,
                        ));
                        crate::search::lemma_find_in_list_stable(self.attached_items@, id, (i + 1) as nat, n as nat);
                    }
                    return Some(x);
                },
                None => {},
            }
            i = i + 1;
        }
        None
    }
}

/// Relies on uuid::Uuid::new_v4, which draws a random version-4 UUID, and on
/// Uuid::as_u128, which gives its 128 bits. Nothing is promised of the value.
#[verifier::external_body]
fn new_item_id() -> u128 {
    uuid::Uuid::new_v4().as_u128()
}

/// Builds an `Item`; every description starts as the main one.
#[derive(Debug)]
pub struct ItemBuilder {
    pub i_type: String,
    pub name: String,
    pub desc: String,
    pub is_on_desc: String,
    pub light_damage_desc: String,
    pub heavy_damage_desc: String,
    pub destroyed_desc: String,
    pub is_fixed: bool,
    pub is_scenery: bool,
    pub can_turn_on: bool,
    pub is_on: bool,
    pub can_attach: bool,
    pub max_health: i32,
    pub current_health: i32,
    pub damaged_by: Option<DamageType>,
    pub damage_type: Option<DamageType>,
}

impl ItemBuilder {
    /// An item of type `it`, named `n`, described by `d`: movable, not
    /// scenery, off, and not damageable. The type `"UNKNOWN"` is kept for words
    /// that name no item.
    pub fn new(it: &str, n: &str, d: &str) -> (r: ItemBuilder)
        requires
            it@ != "UNKNOWN"@,
        ensures
            r.i_type@ == it@,
            r.name@ == n@,
            r.desc@ == d@,
            r.is_on_desc@ == d@,
            r.light_damage_desc@ == d@,
            r.heavy_damage_desc@ == d@,
            r.destroyed_desc@ == d@,
            !r.is_fixed,
            !r.is_scenery,
            !r.can_turn_on,
            !r.is_on,
            !r.can_attach,
            r.max_health == -1,
            r.current_health == -1,
            r.damaged_by is None,
            r.damage_type is None,
    {
        ItemBuilder {
            i_type: String::from_str(it),
            name: String::from_str(n),
            desc: String::from_str(d),
            is_on_desc: String::from_str(d),
            light_damage_desc: String::from_str(d),
            heavy_damage_desc: String::from_str(d),
            destroyed_desc: String::from_str(d),
            is_fixed: false,
            is_scenery: false,
            can_turn_on: false,
            is_on: false,
            can_attach: false,
            max_health: -1,
            current_health: -1,
            damaged_by: None,
            damage_type: None,
        }
    }

    pub fn set_is_on_desc(self, s: &str) -> (r: ItemBuilder)
        ensures
            r == (ItemBuilder { is_on_desc: r.is_on_desc, ..self }),
            r.is_on_desc@ == s@,
    {
        ItemBuilder { is_on_desc: String::from_str(s), ..self }
    }

    pub fn set_light_damage_desc(self, s: &str) -> (r: ItemBuilder)
        ensures
            r == (ItemBuilder { light_damage_desc: r.light_damage_desc, ..self }),
            r.light_damage_desc@ == s@,
    {
        ItemBuilder { light_damage_desc: String::from_str(s), ..self }
    }

    pub fn set_heavy_damage_desc(self, s: &str) -> (r: ItemBuilder)
        ensures
            r == (ItemBuilder { heavy_damage_desc: r.heavy_damage_desc, ..self }),
            r.heavy_damage_desc@ == s@,
    {
        ItemBuilder { heavy_damage_desc: String::from_str(s), ..self }
    }

    pub fn set_destroyed_desc(self, s: &str) -> (r: ItemBuilder)
        ensures
            r == (ItemBuilder { destroyed_desc: r.destroyed_desc, ..self }),
            r.destroyed_desc@ == s@,
    {
        ItemBuilder { destroyed_desc: String::from_str(s), ..self }
    }

    pub fn set_fixed(self, b: bool) -> (r: ItemBuilder)
        ensures
            r == (ItemBuilder { is_fixed: b, ..self }),
    {
        ItemBuilder { is_fixed: b, ..self }
    }

    pub fn set_scenery(self, b: bool) -> (r: ItemBuilder)
        ensures
            r == (ItemBuilder { is_scenery: b, ..self }),
    {
        ItemBuilder { is_scenery: b, ..self }
    }

    pub fn set_can_turn_on(self, b: bool) -> (r: ItemBuilder)
        ensures
            r == (ItemBuilder { can_turn_on: b, ..self }),
    {
        ItemBuilder { can_turn_on: b, ..self }
    }

    pub fn set_is_on(self, b: bool) -> (r: ItemBuilder)
        ensures
            r == (ItemBuilder { is_on: b, ..self }),
    {
        ItemBuilder { is_on: b, ..self }
    }

    pub fn set_can_attach(self, b: bool) -> (r: ItemBuilder)
        ensures
            r == (ItemBuilder { can_attach: b, ..self }),
    {
        ItemBuilder { can_attach: b, ..self }
    }

    pub fn set_max_health(self, hp: i32) -> (r: ItemBuilder)
        ensures
            r == (ItemBuilder { max_health: hp, ..self }),
    {
        ItemBuilder { max_health: hp, ..self }
    }

    pub fn set_current_health(self, hp: i32) -> (r: ItemBuilder)
        ensures
            r == (ItemBuilder { current_health: hp, ..self }),
    {
        ItemBuilder { current_health: hp, ..self }
    }

    /// Sets both the maximum and the current health.
    pub fn set_health(self, hp: i32) -> (r: ItemBuilder)
        ensures
            r == (ItemBuilder { max_health: hp, current_health: hp, ..self }),
    {
        ItemBuilder { max_health: hp, current_health: hp, ..self }
    }

    pub fn set_damaged_by(self, d: DamageType) -> (r: ItemBuilder)
        ensures
            r == (ItemBuilder { damaged_by: Some(d), ..self }),
    {
        ItemBuilder { damaged_by: Some(d), ..self }
    }

    pub fn set_damage_type(self, d: DamageType) -> (r: ItemBuilder)
        ensures
            r == (ItemBuilder { damage_type: Some(d), ..self }),
    {
        ItemBuilder { damage_type: Some(d), ..self }
    }

    /// The item, with a fresh id, no pending damage and nothing attached.
    pub fn finalize(&self) -> (r: Item)
        ensures
            r.i_type == self.i_type,
            r.name == self.name,
            r.desc == self.desc,
            r.is_on_desc == self.is_on_desc,
            r.light_damage_desc == self.light_damage_desc,
            r.heavy_damage_desc == self.heavy_damage_desc,
            r.destroyed_desc == self.destroyed_desc,
            r.is_fixed == self.is_fixed,
            r.is_scenery == self.is_scenery,
            r.can_turn_on == self.can_turn_on,
            r.is_on == self.is_on,
            r.can_attach == self.can_attach,
            r.max_health == self.max_health,
            r.current_health == self.current_health,
            r.to_dmg == 0,
            r.damaged_by == self.damaged_by,
            r.damage_type == self.damage_type,
            r.attached_items@.len() == 0,
            (self.max_health >= 0 ==> 0 <= self.current_health <= self.max_health) ==> item_wf(r),
    {
        let r = Item {
            id: new_item_id(),
            i_type: self.i_type.clone(),
            name: self.name.clone(),
            desc: self.desc.clone(),
            is_on_desc: self.is_on_desc.clone(),
            light_damage_desc: self.light_damage_desc.clone(),
            heavy_damage_desc: self.heavy_damage_desc.clone(),
            destroyed_desc: self.destroyed_desc.clone(),
            is_fixed: self.is_fixed,
            is_scenery: self.is_scenery,
            can_turn_on: self.can_turn_on,
            is_on: self.is_on,
            can_attach: self.can_attach,
            max_health: self.max_health,
            current_health: self.current_health,
            to_dmg: 0,
            damaged_by: self.damaged_by,
            damage_type: self.damage_type,
            attached_items: Vec::new(),
        };
        proof {
            lemma_item_wf(r);
        }
        r
    }
}

} // verus!
