use vstd::prelude::*;

use crate::text::{is_alpha_word, same_text};

verus! {

/// Commands that act on the game session itself.
#[derive(Clone, Copy, PartialEq, Eq, Structural, Debug)]
pub enum GameStateType {
    QUIT,
}

#[derive(Clone, Copy, PartialEq, Eq, Structural, Debug)]
pub enum VerbType {
    // Location
    GO,
    LOOK,
    // Inventory
    INVENTORY,
    TAKE,
    DROP,
    EXAMINE,
    // Basic item
    USE,
    // Item to item
    CUT,
    HIT,
    TIE,
}

#[derive(Clone, Copy, PartialEq, Eq, Structural, Debug)]
pub enum PrepositionType {
    AT,
    ON,
    IN,
    WITH,
    UNDER,
    BEHIND,
    TO,
}

#[derive(Clone, Copy, PartialEq, Eq, Structural, Debug)]
pub enum DirectionType {
    NORTH,
    SOUTH,
    EAST,
    WEST,
}

/// Answers inside the quit dialog.
#[derive(Clone, Copy, PartialEq, Eq, Structural, Debug)]
pub enum OtherType {
    YES,
    NO,
}

/// The class of one word of input.
#[derive(Clone, PartialEq, Eq, Debug)]
pub enum TokenType {
    GAMESTATE(GameStateType),
    VERB(VerbType),
    PREPOSITION(PrepositionType),
    DIRECTION(DirectionType),
    /// A known item, carrying the item type it names.
    ITEM(String),
    OTHER(OtherType),
    /// A word of letters that is not reserved.
    WORD,
    /// Anything else.
    BAD,
}

/// Mathematical value of a `TokenType`.
pub enum TokenSpec {
    GameState(GameStateType),
    Verb(VerbType),
    Preposition(PrepositionType),
    Direction(DirectionType),
    Item(Seq<char>),
    Other(OtherType),
    Word,
    Bad,
}

impl View for TokenType {
    type V = TokenSpec;

    open spec fn view(&self) -> TokenSpec {
        match self {
            TokenType::GAMESTATE(s) => TokenSpec::GameState(*s),
            TokenType::VERB(v) => TokenSpec::Verb(*v),
            TokenType::PREPOSITION(p) => TokenSpec::Preposition(*p),
            TokenType::DIRECTION(d) => TokenSpec::Direction(*d),
            TokenType::ITEM(s) => TokenSpec::Item(s@),
            TokenType::OTHER(o) => TokenSpec::Other(*o),
            TokenType::WORD => TokenSpec::Word,
            TokenType::BAD => TokenSpec::Bad,
        }
    }
}

/// The reserved-word table: exact lower-case matches only, synonyms share a token.
pub open spec fn reserved(w: Seq<char>) -> Option<TokenSpec> {
    if w == "quit"@ {
        Some(TokenSpec::GameState(GameStateType::QUIT))
    } else if w == "look"@ || w == "l"@ {
        Some(TokenSpec::Verb(VerbType::LOOK))
    } else if w == "inventory"@ || w == "i"@ {
        Some(TokenSpec::Verb(VerbType::INVENTORY))
    } else if w == "go"@ {
        Some(TokenSpec::Verb(VerbType::GO))
    } else if w == "get"@ || w == "take"@ {
        Some(TokenSpec::Verb(VerbType::TAKE))
    } else if w == "drop"@ {
        Some(TokenSpec::Verb(VerbType::DROP))
    } else if w == "examine"@ || w == "x"@ {
        Some(TokenSpec::Verb(VerbType::EXAMINE))
    } else if w == "use"@ {
        Some(TokenSpec::Verb(VerbType::USE))
    } else if w == "hit"@ || w == "break"@ || w == "smash"@ {
        Some(TokenSpec::Verb(VerbType::HIT))
    } else if w == "cut"@ {
        Some(TokenSpec::Verb(VerbType::CUT))
    } else if w == "tie"@ {
        Some(TokenSpec::Verb(VerbType::TIE))
    } else if w == "at"@ {
        Some(TokenSpec::Preposition(PrepositionType::AT))
    } else if w == "to"@ {
        Some(TokenSpec::Preposition(PrepositionType::TO))
    } else if w == "in"@ || w == "into"@ {
        Some(TokenSpec::Preposition(PrepositionType::IN))
    } else if w == "on"@ {
        Some(TokenSpec::Preposition(PrepositionType::ON))
    } else if w == "under"@ {
        Some(TokenSpec::Preposition(PrepositionType::UNDER))
    } else if w == "behind"@ {
        Some(TokenSpec::Preposition(PrepositionType::BEHIND))
    } else if w == "with"@ {
        Some(TokenSpec::Preposition(PrepositionType::WITH))
    } else if w == "north"@ || w == "n"@ {
        Some(TokenSpec::Direction(DirectionType::NORTH))
    } else if w == "south"@ || w == "s"@ {
        Some(TokenSpec::Direction(DirectionType::SOUTH))
    } else if w == "east"@ || w == "e"@ {
        Some(TokenSpec::Direction(DirectionType::EAST))
    } else if w == "west"@ || w == "w"@ {
        Some(TokenSpec::Direction(DirectionType::WEST))
    } else if w == "yes"@ {
        Some(TokenSpec::Other(OtherType::YES))
    } else if w == "no"@ {
        Some(TokenSpec::Other(OtherType::NO))
    } else {
        match reserved_item(w) {
            Some(t) => Some(TokenSpec::Item(t)),
            None => None,
        }
    }
}

/// The item words of the reserved table, with the item type each one names.
pub open spec fn reserved_item(w: Seq<char>) -> Option<Seq<char>> {
    if w == "key"@ {
        Some("key"@)
    } else if w == "pick"@ || w == "pickaxe"@ {
        Some("pickaxe"@)
    } else if w == "rope"@ {
        Some("rope"@)
    } else if w == "hammer"@ {
        Some("hammer"@)
    } else if w == "idol"@ {
        Some("idol"@)
    } else if w == "trees"@ {
        Some("trees"@)
    } else if w == "altar"@ {
        Some("altar"@)
    } else if w == "seal"@ || w == "stones"@ {
        Some("seal"@)
    } else if w == "pit"@ {
        Some("pit"@)
    } else if w == "root"@ {
        Some("root"@)
    } else if w == "lantern"@ || w == "lamp"@ {
        Some("lantern"@)
    } else if w == "machete"@ {
        Some("machete"@)
    } else if w == "cobwebs"@ {
        Some("cobwebs"@)
    } else if w == "ceiling"@ {
        Some("ceiling"@)
    } else {
        None
    }
}

/// The token that one word of input yields.
pub open spec fn lex(w: Seq<char>) -> TokenSpec {
    match reserved(w) {
        Some(t) => t,
        None => if is_alpha_word(w) {
            TokenSpec::Word
        } else {
            TokenSpec::Bad
        },
    }
}

pub open spec fn verb_name(v: VerbType) -> Seq<char> {
    match v {
        VerbType::LOOK => "LOOK"@,
        VerbType::INVENTORY => "INVENTORY"@,
        VerbType::GO => "GO"@,
        VerbType::TAKE => "TAKE"@,
        VerbType::DROP => "DROP"@,
        VerbType::EXAMINE => "EXAMINE"@,
        VerbType::USE => "USE"@,
        VerbType::CUT => "CUT"@,
        VerbType::HIT => "HIT"@,
        VerbType::TIE => "TIE"@,
    }
}

pub open spec fn direction_name(d: DirectionType) -> Seq<char> {
    match d {
        DirectionType::NORTH => "NORTH"@,
        DirectionType::SOUTH => "SOUTH"@,
        DirectionType::EAST => "EAST"@,
        DirectionType::WEST => "WEST"@,
    }
}

/// A short descriptor of a token class: `TOKENTYPE[:SUBTYPE]`.
pub open spec fn token_type_name(t: TokenSpec) -> Seq<char> {
    match t {
        TokenSpec::GameState(_) => "QUIT"@,
        TokenSpec::Verb(v) => "VERB:"@ + verb_name(v),
        TokenSpec::Preposition(_) => "PREPOSITION"@,
        TokenSpec::Direction(d) => "DIRECTION:"@ + direction_name(d),
        TokenSpec::Item(_) => "ITEM"@,
        TokenSpec::Other(OtherType::YES) => "YES"@,
        TokenSpec::Other(OtherType::NO) => "NO"@,
        TokenSpec::Word => "WORD"@,
        TokenSpec::Bad => "BAD"@,
    }
}

/// Relies on regex::Regex::new and regex::Regex::is_match: the pattern
/// `^[a-zA-Z]+$` compiles, and it matches exactly the non-empty haystacks
/// that hold ASCII letters alone.
#[verifier::external_body]
fn is_alpha_string(word: &str) -> (r: bool)
    ensures
        r == is_alpha_word(word@),
{
    regex::Regex::new(r"^[a-zA-Z]+$").unwrap().is_match(word)
}

fn item_token(name: &str) -> (r: Option<TokenType>)
    ensures
        r matches Some(TokenType::ITEM(s)) && s@ == name@,
{
    Some(TokenType::ITEM(String::from_str(name)))
}

/// Looks a word up in the reserved-word table.
fn reserved_token(w: &str) -> (r: Option<TokenType>)
    ensures
        match r {
            Some(t) => reserved(w@) == Some(t@),
            None => reserved(w@) is None,
        },
{
    if same_text(w, "quit") {
        Some(TokenType::GAMESTATE(GameStateType::QUIT))
    } else if same_text(w, "look") || same_text(w, "l") {
        Some(TokenType::VERB(VerbType::LOOK))
    } else if same_text(w, "inventory") || same_text(w, "i") {
        Some(TokenType::VERB(VerbType::INVENTORY))
    } else if same_text(w, "go") {
        Some(TokenType::VERB(VerbType::GO))
    } else if same_text(w, "get") || same_text(w, "take") {
        Some(TokenType::VERB(VerbType::TAKE))
    } else if same_text(w, "drop") {
        Some(TokenType::VERB(VerbType::DROP))
    } else if same_text(w, "examine") || same_text(w, "x") {
        Some(TokenType::VERB(VerbType::EXAMINE))
    } else if same_text(w, "use") {
        Some(TokenType::VERB(VerbType::USE))
    } else if same_text(w, "hit") || same_text(w, "break") || same_text(w, "smash") {
        Some(TokenType::VERB(VerbType::HIT))
    } else if same_text(w, "cut") {
        Some(TokenType::VERB(VerbType::CUT))
    } else if same_text(w, "tie") {
        Some(TokenType::VERB(VerbType::TIE))
    } else if same_text(w, "at") {
        Some(TokenType::PREPOSITION(PrepositionType::AT))
    } else if same_text(w, "to") {
        Some(TokenType::PREPOSITION(PrepositionType::TO))
    } else if same_text(w, "in") || same_text(w, "into") {
        Some(TokenType::PREPOSITION(PrepositionType::IN))
    } else if same_text(w, "on") {
        Some(TokenType::PREPOSITION(PrepositionType::ON))
    } else if same_text(w, "under") {
        Some(TokenType::PREPOSITION(PrepositionType::UNDER))
    } else if same_text(w, "behind") {
        Some(TokenType::PREPOSITION(PrepositionType::BEHIND))
    } else if same_text(w, "with") {
        Some(TokenType::PREPOSITION(PrepositionType::WITH))
    } else if same_text(w, "north") || same_text(w, "n") {
        Some(TokenType::DIRECTION(DirectionType::NORTH))
    } else if same_text(w, "south") || same_text(w, "s") {
        Some(TokenType::DIRECTION(DirectionType::SOUTH))
    } else if same_text(w, "east") || same_text(w, "e") {
        Some(TokenType::DIRECTION(DirectionType::EAST))
    } else if same_text(w, "west") || same_text(w, "w") {
        Some(TokenType::DIRECTION(DirectionType::WEST))
    } else if same_text(w, "yes") {
        Some(TokenType::OTHER(OtherType::YES))
    } else if same_text(w, "no") {
        Some(TokenType::OTHER(OtherType::NO))
    } else {
        reserved_item_token(w)
    }
}

fn reserved_item_token(w: &str) -> (r: Option<TokenType>)
    ensures
        match r {
            Some(t) => reserved_item(w@) is Some && t@ == TokenSpec::Item(reserved_item(w@)->0),
            None => reserved_item(w@) is None,
        },
{
    if same_text(w, "key") {
        item_token("key")
    } else if same_text(w, "pick") || same_text(w, "pickaxe") {
        item_token("pickaxe")
    } else if same_text(w, "rope") {
        item_token("rope")
    } else if same_text(w, "hammer") {
        item_token("hammer")
    } else if same_text(w, "idol") {
        item_token("idol")
    } else if same_text(w, "trees") {
        item_token("trees")
    } else if same_text(w, "altar") {
        item_token("altar")
    } else if same_text(w, "seal") || same_text(w, "stones") {
        item_token("seal")
    } else if same_text(w, "pit") {
        item_token("pit")
    } else if same_text(w, "root") {
        item_token("root")
    } else if same_text(w, "lantern") || same_text(w, "lamp") {
        item_token("lantern")
    } else if same_text(w, "machete") {
        item_token("machete")
    } else if same_text(w, "cobwebs") {
        item_token("cobwebs")
    } else if same_text(w, "ceiling") {
        item_token("ceiling")
    } else {
        None
    }
}

/// One word of input together with its class.
#[derive(Clone, Debug)]
pub struct Token {
    pub t_type: TokenType,
    pub lexeme: String,
}

impl Token {
    /// Classifies a word. Total: every word yields exactly one token.
    pub fn new(word: &str) -> (r: Token)
        ensures
            r.t_type@ == lex(word@),
            r.lexeme@ == word@,
    {
        let token_type = if is_alpha_string(word) {
            TokenType::WORD
        } else {
            TokenType::BAD
        };
        let mut token = Token { t_type: token_type, lexeme: String::from_str(word) };
        token.check_reserved();
        token
    }

    /// A short descriptor of the token's class, for debugging.
    pub fn get_token_type_name(&self) -> (r: String)
        ensures
            r@ == token_type_name(self.t_type@),
    {
        match &self.t_type {
            TokenType::GAMESTATE(_) => String::from_str("QUIT"),
            TokenType::VERB(v) => {
                let mut s = String::from_str("VERB:");
                match v {
                    VerbType::LOOK => s.append("LOOK"),
                    VerbType::INVENTORY => s.append("INVENTORY"),
                    VerbType::GO => s.append("GO"),
                    VerbType::TAKE => s.append("TAKE"),
                    VerbType::DROP => s.append("DROP"),
                    VerbType::EXAMINE => s.append("EXAMINE"),
                    VerbType::USE => s.append("USE"),
                    VerbType::CUT => s.append("CUT"),
                    VerbType::HIT => s.append("HIT"),
                    VerbType::TIE => s.append("TIE"),
                }
                s
            },
            TokenType::PREPOSITION(_) => String::from_str("PREPOSITION"),
            TokenType::DIRECTION(d) => {
                let mut s = String::from_str("DIRECTION:");
                match d {
                    DirectionType::NORTH => s.append("NORTH"),
                    DirectionType::SOUTH => s.append("SOUTH"),
                    DirectionType::EAST => s.append("EAST"),
                    DirectionType::WEST => s.append("WEST"),
                }
                s
            },
            TokenType::ITEM(_) => String::from_str("ITEM"),
            TokenType::OTHER(OtherType::YES) => String::from_str("YES"),
            TokenType::OTHER(OtherType::NO) => String::from_str("NO"),
            TokenType::WORD => String::from_str("WORD"),
            TokenType::BAD => String::from_str("BAD"),
        }
    }

    /// Replaces the class by the reserved one when the lexeme is a reserved word.
    pub fn check_reserved(&mut self)
        ensures
            final(self).lexeme == old(self).lexeme,
            final(self).t_type@ == match reserved(old(self).lexeme@) {
                Some(t) => t,
                None => old(self).t_type@,
            },
    {
        match reserved_token(self.lexeme.as_str()) {
            Some(t) => {
                self.t_type = t;
            },
            None => {},
        }
    }
}

} // verus!
