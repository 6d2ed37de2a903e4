use vstd::prelude::*;

use crate::token::{DirectionType, GameStateType, OtherType, PrepositionType};

verus! {

/// An item named in a command: the item type it resolves to, and the word typed.
#[derive(Clone, Debug)]
pub struct ItemNode {
    pub subject: String,
    pub subject_lexeme: String,
}

/// Mathematical value of an `ItemNode`: (item type, word typed).
pub type ItemNodeSpec = (Seq<char>, Seq<char>);

impl View for ItemNode {
    type V = ItemNodeSpec;

    open spec fn view(&self) -> ItemNodeSpec {
        (self.subject@, self.subject_lexeme@)
    }
}

impl ItemNode {
    pub fn new(item_type: &str, item_lexeme: &str) -> (r: ItemNode)
        ensures
            r.subject@ == item_type@,
            r.subject_lexeme@ == item_lexeme@,
    {
        ItemNode { subject: String::from_str(item_type), subject_lexeme: String::from_str(item_lexeme) }
    }
}

/// A preposition followed by the item it governs ("at the seal").
#[derive(Clone, Debug)]
pub struct PrepositionNode {
    pub prep: PrepositionType,
    pub item: ItemNode,
}

impl PrepositionNode {
    pub fn new(p: PrepositionType, i: ItemNode) -> (r: PrepositionNode)
        ensures
            r.prep == p,
            r.item == i,
    {
        PrepositionNode { prep: p, item: i }
    }
}

/// A fully parsed player command.
#[derive(Clone, Debug)]
pub enum CommandNode {
    LOOK(Option<PrepositionNode>),
    INVENTORY,
    GO(DirectionType),
    TAKE(ItemNode),
    DROP(ItemNode),
    EXAMINE(ItemNode),
    USE(ItemNode),
    GAMESTATE(GameStateType),
    OTHER(OtherType),
}

/// Mathematical value of a `CommandNode`.
pub enum CommandSpec {
    Look(Option<(PrepositionType, ItemNodeSpec)>),
    Inventory,
    Go(DirectionType),
    Take(ItemNodeSpec),
    Drop(ItemNodeSpec),
    Examine(ItemNodeSpec),
    Use(ItemNodeSpec),
    GameState(GameStateType),
    Other(OtherType),
}

impl View for CommandNode {
    type V = CommandSpec;

    open spec fn view(&self) -> CommandSpec {
        match self {
            CommandNode::LOOK(None) => CommandSpec::Look(None),
            CommandNode::LOOK(Some(p)) => CommandSpec::Look(Some((p.prep, p.item@))),
            CommandNode::INVENTORY => CommandSpec::Inventory,
            CommandNode::GO(d) => CommandSpec::Go(*d),
            CommandNode::TAKE(i) => CommandSpec::Take(i@),
            CommandNode::DROP(i) => CommandSpec::Drop(i@),
            CommandNode::EXAMINE(i) => CommandSpec::Examine(i@),
            CommandNode::USE(i) => CommandSpec::Use(i@),
            CommandNode::GAMESTATE(s) => CommandSpec::GameState(*s),
            CommandNode::OTHER(o) => CommandSpec::Other(*o),
        }
    }
}

} // verus!
