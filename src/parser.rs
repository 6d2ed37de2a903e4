use vstd::prelude::*;

use crate::grammar::{CommandNode, CommandSpec, ItemNode, ItemNodeSpec, PrepositionNode};
use crate::token::{lex, GameStateType, OtherType, Token, TokenSpec, TokenType, VerbType};

verus! {

/// The characters of each word of a line.
pub open spec fn words_view(ws: Seq<String>) -> Seq<Seq<char>> {
    ws.map_values(|s: String| s@)
}

/// What a word stands for where the grammar expects an item: a known item,
/// or an unknown one that carries the word typed.
pub open spec fn item_arg(w: Seq<char>) -> Option<ItemNodeSpec> {
    match lex(w) {
        TokenSpec::Item(t) => Some((t, w)),
        TokenSpec::Word => Some(("UNKNOWN"@, w)),
        _ => None,
    }
}

/// The command a verb and the words after it form, if any.
pub open spec fn verb_command(v: VerbType, ws: Seq<Seq<char>>) -> Option<CommandSpec> {
    match v {
        VerbType::LOOK => if ws.len() == 1 {
            Some(CommandSpec::Look(None))
        } else if ws.len() == 3 {
            match (lex(ws[1]), item_arg(ws[2])) {
                (TokenSpec::Preposition(p), Some(i)) => Some(CommandSpec::Look(Some((p, i)))),
                _ => None,
            }
        } else {
            None
        },
        VerbType::INVENTORY => if ws.len() == 1 {
            Some(CommandSpec::Inventory)
        } else {
            None
        },
        VerbType::GO => if ws.len() == 2 {
            match lex(ws[1]) {
                TokenSpec::Direction(d) => Some(CommandSpec::Go(d)),
                _ => None,
            }
        } else {
            None
        },
        VerbType::TAKE => if ws.len() == 2 && item_arg(ws[1]) is Some {
            Some(CommandSpec::Take(item_arg(ws[1])->0))
        } else {
            None
        },
        VerbType::DROP => if ws.len() == 2 && item_arg(ws[1]) is Some {
            Some(CommandSpec::Drop(item_arg(ws[1])->0))
        } else {
            None
        },
        VerbType::EXAMINE => if ws.len() == 2 && item_arg(ws[1]) is Some {
            Some(CommandSpec::Examine(item_arg(ws[1])->0))
        } else {
            None
        },
        VerbType::USE => if ws.len() == 2 && item_arg(ws[1]) is Some {
            Some(CommandSpec::Use(item_arg(ws[1])->0))
        } else {
            None
        },
        _ => None,
    }
}

/// The grammar: the command that one line of words forms, or `None` when the
/// line is not a command. Every word must be consumed.
pub open spec fn parse_words(ws: Seq<Seq<char>>) -> Option<CommandSpec> {
    if ws.len() == 0 {
        None
    } else {
        match lex(ws[0]) {
            TokenSpec::GameState(s) => if ws.len() == 1 {
                Some(CommandSpec::GameState(s))
            } else {
                None
            },
            TokenSpec::Other(o) => if ws.len() == 1 {
                Some(CommandSpec::Other(o))
            } else {
                None
            },
            TokenSpec::Verb(v) => verb_command(v, ws),
            _ => None,
        }
    }
}

/// The token of the word at `pos`, if there is one.
fn get_token(input: &Vec<String>, pos: usize) -> (r: Option<Token>)
    ensures
        pos < input@.len() ==> (r matches Some(t) && t.t_type@ == lex(input@[pos as int]@)
            && t.lexeme@ == input@[pos as int]@),
        pos >= input@.len() ==> r is None,
{
    if pos < input.len() {
        Some(Token::new(input[pos].as_str()))
    } else {
        None
    }
}

/// The word at `pos`, or the empty word past the end.
fn peek_lexeme(input: &Vec<String>, pos: usize) -> (r: &str)
    ensures
        pos < input@.len() ==> r@ == input@[pos as int]@,
        pos >= input@.len() ==> r@ == Seq::<char>::empty(),
{
    if pos < input.len() {
        input[pos].as_str()
    } else {
        proof {
            reveal_strlit("");
        }
        ""
    }
}

/// The item named by the word at `pos`.
fn item(input: &Vec<String>, pos: usize) -> (r: Option<ItemNode>)
    requires
        pos < input@.len(),
    ensures
        match r {
            Some(i) => item_arg(input@[pos as int]@) == Some(i@),
            None => item_arg(input@[pos as int]@) is None,
        },
{
    let lexeme = peek_lexeme(input, pos);
    match get_token(input, pos) {
        Some(next_token) => match next_token.t_type {
            TokenType::ITEM(i) => Some(ItemNode::new(i.as_str(), lexeme)),
            TokenType::WORD => Some(ItemNode::new("UNKNOWN", lexeme)),
            _ => None,
        },
        None => None,
    }
}

/// A preposition at `pos` followed by an item at `pos + 1`.
fn preposition(input: &Vec<String>, pos: usize) -> (r: Option<PrepositionNode>)
    requires
        pos + 1 < input@.len(),
    ensures
        match r {
            Some(p) => lex(input@[pos as int]@) == TokenSpec::Preposition(p.prep) && item_arg(
                input@[pos + 1]@,
            ) == Some(p.item@),
            None => !(lex(input@[pos as int]@) is Preposition) || item_arg(
                input@[pos + 1]@,
            ) is None,
        },
{
    assert(input.len() == input@.len());
    match get_token(input, pos) {
        Some(next_token) => match next_token.t_type {
            TokenType::PREPOSITION(p) => match item(input, pos + 1) {
                Some(i) => Some(PrepositionNode::new(p, i)),
                None => None,
            },
            _ => None,
        },
        None => None,
    }
}

/// GO followed by exactly one direction.
fn go(input: &Vec<String>) -> (r: Option<CommandNode>)
    requires
        input@.len() >= 1,
    ensures
        match r {
            Some(c) => verb_command(VerbType::GO, words_view(input@)) == Some(c@),
            None => verb_command(VerbType::GO, words_view(input@)) is None,
        },
{
    if input.len() != 2 {
        return None;
    }
    match get_token(input, 1) {
        Some(next_token) => match next_token.t_type {
            TokenType::DIRECTION(d) => Some(CommandNode::GO(d)),
            _ => None,
        },
        None => None,
    }
}

/// A verb and the words after it.
fn verb(v: VerbType, input: &Vec<String>) -> (r: Option<CommandNode>)
    requires
        input@.len() >= 1,
    ensures
        match r {
            Some(c) => verb_command(v, words_view(input@)) == Some(c@),
            None => verb_command(v, words_view(input@)) is None,
        },
{
    let n = input.len();
    let ghost ws = words_view(input@);
    assert(ws.len() == n);
    match v {
        VerbType::LOOK => {
            if n == 1 {
                Some(CommandNode::LOOK(None))
            } else if n == 3 {
                match preposition(input, 1) {
                    Some(p) => Some(CommandNode::LOOK(Some(p))),
                    None => None,
                }
            } else {
                None
            }
        },
        VerbType::INVENTORY => if n == 1 {
            Some(CommandNode::INVENTORY)
        } else {
            None
        },
        VerbType::GO => go(input),
        VerbType::TAKE => if n == 2 {
            match item(input, 1) {
                Some(i) => Some(CommandNode::TAKE(i)),
                None => None,
            }
        } else {
            None
        },
        VerbType::DROP => if n == 2 {
            match item(input, 1) {
                Some(i) => Some(CommandNode::DROP(i)),
                None => None,
            }
        } else {
            None
        },
        VerbType::EXAMINE => if n == 2 {
            match item(input, 1) {
                Some(i) => Some(CommandNode::EXAMINE(i)),
                None => None,
            }
        } else {
            None
        },
        VerbType::USE => if n == 2 {
            match item(input, 1) {
                Some(i) => Some(CommandNode::USE(i)),
                None => None,
            }
        } else {
            None
        },
        _ => None,
    }
}

/// A game-state word must stand alone.
fn gamestate(s: GameStateType, input: &Vec<String>) -> (r: Option<CommandNode>)
    ensures
        input@.len() == 1 ==> (r matches Some(CommandNode::GAMESTATE(t)) && t == s),
        input@.len() != 1 ==> r is None,
{
    if input.len() == 1 {
        Some(CommandNode::GAMESTATE(s))
    } else {
        None
    }
}

/// A yes or no answer must stand alone.
fn other(o: OtherType, input: &Vec<String>) -> (r: Option<CommandNode>)
    ensures
        input@.len() == 1 ==> (r matches Some(CommandNode::OTHER(t)) && t == o),
        input@.len() != 1 ==> r is None,
{
    if input.len() == 1 {
        Some(CommandNode::OTHER(o))
    } else {
        None
    }
}

/// Parses one line of words into a command; `None` when the line is not one.
pub fn parse(input: &Vec<String>) -> (r: Option<CommandNode>)
    ensures
        match r {
            Some(c) => parse_words(words_view(input@)) == Some(c@),
            None => parse_words(words_view(input@)) is None,
        },
{
    let ghost ws = words_view(input@);
    match get_token(input, 0) {
        Some(next_token) => {
            assert(ws[0] == input@[0]@);
            match next_token.t_type {
                TokenType::GAMESTATE(s) => gamestate(s, input),
                TokenType::VERB(v) => verb(v, input),
                TokenType::OTHER(o) => other(o, input),
                _ => None,
            }
        },
        None => None,
    }
}

/// The characters that separate words: those with the Unicode White_Space property.
pub open spec fn is_space(c: char) -> bool {
    ('\u{9}' <= c && c <= '\u{d}') || c == ' ' || c == '\u{85}' || c == '\u{a0}' || c
        == '\u{1680}' || ('\u{2000}' <= c && c <= '\u{200a}') || c == '\u{2028}' || c
        == '\u{2029}' || c == '\u{202f}' || c == '\u{205f}' || c == '\u{3000}'
}

/// The words found in the first `n` characters of `s`, with the index where
/// the word being read starts.
pub open spec fn scan_words(s: Seq<char>, n: nat) -> (Seq<Seq<char>>, int)
    decreases n,
{
    if n == 0 || n > s.len() {
        (Seq::empty(), 0)
    } else {
        let (acc, start) = scan_words(s, (n - 1) as nat);
        if is_space(s[n - 1]) {
            if start < n - 1 {
                (acc.push(s.subrange(start, n - 1)), n as int)
            } else {
                (acc, n as int)
            }
        } else {
            (acc, start)
        }
    }
}

/// The words of a line: the maximal runs of characters that are not spaces.
pub open spec fn words_of(s: Seq<char>) -> Seq<Seq<char>> {
    let (acc, start) = scan_words(s, s.len());
    if start < s.len() {
        acc.push(s.subrange(start, s.len() as int))
    } else {
        acc
    }
}

proof fn lemma_scan_start(s: Seq<char>, n: nat)
    requires
        n <= s.len(),
    ensures
        0 <= scan_words(s, n).1 <= n,
    decreases n,
{
    if n > 0 {
        lemma_scan_start(s, (n - 1) as nat);
    }
}

fn is_space_char(c: char) -> (r: bool)
    ensures
        r == is_space(c),
{
    ('\u{9}' <= c && c <= '\u{d}') || c == ' ' || c == '\u{85}' || c == '\u{a0}' || c
        == '\u{1680}' || ('\u{2000}' <= c && c <= '\u{200a}') || c == '\u{2028}' || c
        == '\u{2029}' || c == '\u{202f}' || c == '\u{205f}' || c == '\u{3000}'
}

/// Splits a line into its words.
pub fn split_words(line: &str) -> (r: Vec<String>)
    ensures
        words_view(r@) == words_of(line@),
{
    let n = line.unicode_len();
    let mut words: Vec<String> = Vec::new();
    let mut start: usize = 0;
    let mut i: usize = 0;
    while i < n
        invariant
            n == line@.len(),
            i <= n,
            start <= i,
            scan_words(line@, i as nat) == (words_view(words@), start as int),
        decreases n - i,
    {
        proof {
            lemma_scan_start(line@, i as nat);
        }
        let c = line.get_char(i);
        if is_space_char(c) {
            if start < i {
                let w = line.substring_char(start, i);
                words.push(String::from_str(w));
            }
            start = i + 1;
        }
        i = i + 1;
        proof {
            assert(words_view(words@) =~= scan_words(line@, i as nat).0);
        }
    }
    if start < n {
        let w = line.substring_char(start, n);
        words.push(String::from_str(w));
    }
    assert(words_view(words@) =~= words_of(line@));
    words
}

/// Reads a line as a command; `None` when it is not one.
pub fn parse_line(line: &str) -> (r: Option<CommandNode>)
    ensures
        match r {
            Some(c) => parse_words(words_of(line@)) == Some(c@),
            None => parse_words(words_of(line@)) is None,
        },
{
    let words = split_words(line);
    parse(&words)
}

} // verus!
