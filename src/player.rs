use vstd::prelude::*;

use crate::grammar::ItemNode;
use crate::item::Item;
use crate::search::{first_of_type, lemma_first_of_type, position_of_type};

verus! {

/// The player: where they stand, and what they carry.
#[derive(Debug)]
pub struct Player {
    pub inventory: Vec<Item>,
    pub location: usize,
}

/// The names of the first `k` items carried, one per line.
pub open spec fn inventory_lines(s: Seq<Item>, k: nat) -> Seq<char>
    decreases k,
{
    if k == 0 || k > s.len() {
        Seq::<char>::empty()
    } else {
        inventory_lines(s, (k - 1) as nat) + "\n\t"@ + s[k - 1].name@
    }
}

/// What the player is told on asking for the inventory.
pub open spec fn inventory_text(s: Seq<Item>) -> Seq<char> {
    if s.len() == 0 {
        "You are carrying nothing."@
    } else {
        "You are carrying:"@ + inventory_lines(s, s.len())
    }
}

impl Player {
    /// A player at location `l`, carrying nothing.
    pub fn new(l: usize) -> (r: Player)
        ensures
            r.location == l,
            r.inventory@.len() == 0,
    {
        Player { inventory: Vec::new(), location: l }
    }

    pub fn display_inventory(&self) -> (r: String)
        ensures
            r@ == inventory_text(self.inventory@),
    {
        if self.inventory.len() == 0 {
            String::from_str("You are carrying nothing.")
        } else {
            let mut inventory = String::from_str("You are carrying:");
            let n = self.inventory.len();
            let mut j: usize = 0;
            while j < n
                invariant
                    n == self.inventory@.len(),
                    j <= n,
                    inventory@ == "You are carrying:"@ + inventory_lines(self.inventory@, j as nat),
                decreases n - j,
            {
                inventory.append("\n\t");
                inventory.append(self.inventory[j].name.as_str());
                proof {
                    assert(inventory@ =~= "You are carrying:"@ + inventory_lines(
                        self.inventory@,
                        (j + 1) as nat,
                    ));
                }
                j = j + 1;
            }
            inventory
        }
    }

    /// The first carried item of the type `i_node` names.
    pub fn find_item(&self, i_node: &ItemNode) -> (r: Option<&Item>)
        ensures
            match first_of_type(self.inventory@, i_node.subject@, 0) {
                Some(k) => r == Some(&self.inventory@[k]),
                None => r is None,
            },
    {
        match position_of_type(&self.inventory, &i_node.subject) {
            Some(i) => Some(&self.inventory[i]),
            None => None,
        }
    }

    /// Takes the first carried item of the type `i_node` names out of the inventory.
    pub fn remove_item(&mut self, i_node: &ItemNode) -> (r: Option<Item>)
        ensures
            final(self).location == old(self).location,
            match first_of_type(old(self).inventory@, i_node.subject@, 0) {
                Some(k) => r == Some(old(self).inventory@[k]) && final(self).inventory@ == old(
                    self,
                ).inventory@.remove(k),
                None => r is None && final(self).inventory == old(self).inventory,
            },
    {
        proof {
            lemma_first_of_type(self.inventory@, i_node.subject@, 0);
        }
        match position_of_type(&self.inventory, &i_node.subject) {
            Some(i) => Some(self.inventory.remove(i)),
            None => None,
        }
    }

    pub fn add_item(&mut self, item: Item)
        ensures
            final(self).location == old(self).location,
            final(self).inventory@ == old(self).inventory@.push(item),
    {
        self.inventory.push(item);
    }
}

} // verus!
