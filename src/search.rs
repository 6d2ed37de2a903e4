use vstd::prelude::*;

use crate::item::{find_in_list, DamageType, Item};

verus! {

/// Index of the first item at or after `i` whose type is `t`.
pub open spec fn first_of_type(s: Seq<Item>, t: Seq<char>, i: int) -> Option<int>
    decreases s.len() - i,
{
    if i < 0 || i >= s.len() {
        None
    } else if s[i].i_type@ == t {
        Some(i)
    } else {
        first_of_type(s, t, i + 1)
    }
}

/// Whether `it` suffers from damage of kind `dt`.
pub open spec fn damage_target(it: Item, dt: DamageType) -> bool {
    it.damaged_by == Some(dt)
}

/// Index of the first item at or after `i` that suffers from damage of kind `dt`.
pub open spec fn first_damage_target(s: Seq<Item>, dt: DamageType, i: int) -> Option<int>
    decreases s.len() - i,
{
    if i < 0 || i >= s.len() {
        None
    } else if damage_target(s[i], dt) {
        Some(i)
    } else {
        first_damage_target(s, dt, i + 1)
    }
}

/// Index of the first item at or after `i` that something can be attached to.
pub open spec fn first_attachable(s: Seq<Item>, i: int) -> Option<int>
    decreases s.len() - i,
{
    if i < 0 || i >= s.len() {
        None
    } else if s[i].can_attach {
        Some(i)
    } else {
        first_attachable(s, i + 1)
    }
}

/// What `first_of_type` finds is in range, of the type, and no earlier item is.
pub proof fn lemma_first_of_type(s: Seq<Item>, t: Seq<char>, i: int)
    requires
        0 <= i,
    ensures
        match first_of_type(s, t, i) {
            Some(k) => i <= k < s.len() && s[k].i_type@ == t && forall|j: int|
                i <= j < k ==> s[j].i_type@ != t,
            None => forall|j: int| i <= j < s.len() ==> s[j].i_type@ != t,
        },
    decreases s.len() - i,
{
    if i < s.len() && s[i].i_type@ != t {
        lemma_first_of_type(s, t, i + 1);
    }
}

/// What `first_damage_target` finds is in range, a target, and no earlier item is.
pub proof fn lemma_first_damage_target(s: Seq<Item>, dt: DamageType, i: int)
    requires
        0 <= i,
    ensures
        match first_damage_target(s, dt, i) {
            Some(k) => i <= k < s.len() && damage_target(s[k], dt) && forall|j: int|
                i <= j < k ==> !damage_target(s[j], dt),
            None => forall|j: int| i <= j < s.len() ==> !damage_target(s[j], dt),
        },
    decreases s.len() - i,
{
    if i < s.len() && !damage_target(s[i], dt) {
        lemma_first_damage_target(s, dt, i + 1);
    }
}

/// What `first_attachable` finds is in range, attachable, and no earlier item is.
pub proof fn lemma_first_attachable(s: Seq<Item>, i: int)
    requires
        0 <= i,
    ensures
        match first_attachable(s, i) {
            Some(k) => i <= k < s.len() && s[k].can_attach && forall|j: int|
                i <= j < k ==> !s[j].can_attach,
            None => forall|j: int| i <= j < s.len() ==> !s[j].can_attach,
        },
    decreases s.len() - i,
{
    if i < s.len() && !s[i].can_attach {
        lemma_first_attachable(s, i + 1);
    }
}

/// The first index of an item of type `t`.
pub fn position_of_type(v: &Vec<Item>, t: &String) -> (r: Option<usize>)
    ensures
        match r {
            Some(k) => first_of_type(v@, t@, 0) == Some(k as int) && k < v@.len(),
            None => first_of_type(v@, t@, 0) is None,
        },
{
    proof {
        lemma_first_of_type(v@, t@, 0);
    }
    let n = v.len();
    let mut i: usize = 0;
    while i < n
        invariant
            n == v@.len(),
            i <= n,
            first_of_type(v@, t@, 0) == first_of_type(v@, t@, i as int),
        decreases n - i,
    {
        if v[i].i_type == *t {
            return Some(i);
        }
        i = i + 1;
    }
    None
}

/// The first index of an item that suffers from damage of kind `dt`.
pub fn position_of_damage_target(v: &Vec<Item>, dt: DamageType) -> (r: Option<usize>)
    ensures
        match r {
            Some(k) => first_damage_target(v@, dt, 0) == Some(k as int) && k < v@.len(),
            None => first_damage_target(v@, dt, 0) is None,
        },
{
    proof {
        lemma_first_damage_target(v@, dt, 0);
    }
    let n = v.len();
    let mut i: usize = 0;
    while i < n
        invariant
            n == v@.len(),
            i <= n,
            first_damage_target(v@, dt, 0) == first_damage_target(v@, dt, i as int),
        decreases n - i,
    {
        let hit = match v[i].damaged_by {
            Some(d) => d == dt,
            None => false,
        };
        if hit {
            return Some(i);
        }
        i = i + 1;
    }
    None
}

/// The first index of an item that something can be attached to.
pub fn position_of_attachable(v: &Vec<Item>) -> (r: Option<usize>)
    ensures
        match r {
            Some(k) => first_attachable(v@, 0) == Some(k as int) && k < v@.len(),
            None => first_attachable(v@, 0) is None,
        },
{
    proof {
        lemma_first_attachable(v@, 0);
    }
    let n = v.len();
    let mut i: usize = 0;
    while i < n
        invariant
            n == v@.len(),
            i <= n,
            first_attachable(v@, 0) == first_attachable(v@, i as int),
        decreases n - i,
    {
        if v[i].can_attach {
            return Some(i);
        }
        i = i + 1;
    }
    None
}

pub proof fn lemma_find_in_list_stable(s: Seq<Item>, id: u128, m: nat, n: nat)
    requires
        find_in_list(s, id, m) is Some,
        m <= n <= s.len(),
    ensures
        find_in_list(s, id, n) == find_in_list(s, id, m),
    decreases n - m,
{
    if n > m {
        lemma_find_in_list_stable(s, id, m, (n - 1) as nat);
    }
}

/// The first item with id `id` among the trees rooted at the items of `v`.
pub fn find_id_in(v: &Vec<Item>, id: u128) -> (r: Option<&Item>)
    ensures
        match r {
            Some(x) => find_in_list(v@, id, v@.len()) == Some(*x),
            None => find_in_list(v@, id, v@.len()) is None,
        },
{
    let n = v.len();
    let mut i: usize = 0;
    while i < n
        invariant
            0 <= i <= n,
            n == v@.len(),
            find_in_list(v@, id, i as nat) is None,
        decreases n - i,
    {
        match v[i].find_item_by_id(id) {
            Some(x) => {
                proof {
                    assert(find_in_list(v@, id, (i + 1) as nat) == crate::item::find_in_tree(
                        v@[i as int],
                        id,
                    ));
                    lemma_find_in_list_stable(v@, id, (i + 1) as nat, n as nat);
                }
                return Some(x);
            },
            None => {},
        }
        i = i + 1;
    }
    None
}

} // verus!
