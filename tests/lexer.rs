use temple_adventure::parser::{parse_line, split_words};
use temple_adventure::grammar::CommandNode;
use temple_adventure::token::{
    DirectionType, GameStateType, OtherType, PrepositionType, Token, TokenType, VerbType,
};

#[test]
fn reserved_verbs_and_synonyms() {
    assert_eq!(Token::new("take").t_type, TokenType::VERB(VerbType::TAKE));
    assert_eq!(Token::new("get").t_type, TokenType::VERB(VerbType::TAKE));
    assert_eq!(Token::new("l").t_type, TokenType::VERB(VerbType::LOOK));
    assert_eq!(Token::new("x").t_type, TokenType::VERB(VerbType::EXAMINE));
    assert_eq!(Token::new("smash").t_type, TokenType::VERB(VerbType::HIT));
    assert_eq!(Token::new("quit").t_type, TokenType::GAMESTATE(GameStateType::QUIT));
    assert_eq!(Token::new("no").t_type, TokenType::OTHER(OtherType::NO));
    assert_eq!(Token::new("into").t_type, TokenType::PREPOSITION(PrepositionType::IN));
}

#[test]
fn reserved_directions_and_items() {
    assert_eq!(Token::new("n").t_type, TokenType::DIRECTION(DirectionType::NORTH));
    assert_eq!(Token::new("west").t_type, TokenType::DIRECTION(DirectionType::WEST));
    assert_eq!(Token::new("lamp").t_type, TokenType::ITEM("lantern".to_string()));
    assert_eq!(Token::new("stones").t_type, TokenType::ITEM("seal".to_string()));
    assert_eq!(Token::new("pick").t_type, TokenType::ITEM("pickaxe".to_string()));
}

#[test]
fn unreserved_letters_make_a_word() {
    let t = Token::new("banana");
    assert_eq!(t.t_type, TokenType::WORD);
    assert_eq!(t.lexeme, "banana");
    // Lookup is exact and lower-case only.
    assert_eq!(Token::new("Take").t_type, TokenType::WORD);
}

#[test]
fn anything_else_is_bad() {
    assert_eq!(Token::new("123").t_type, TokenType::BAD);
    assert_eq!(Token::new("key1").t_type, TokenType::BAD);
    assert_eq!(Token::new("").t_type, TokenType::BAD);
    assert_eq!(Token::new("a-b").t_type, TokenType::BAD);
}

#[test]
fn lexing_is_deterministic() {
    for w in ["take", "banana", "123", "lamp", ""] {
        assert_eq!(Token::new(w).t_type, Token::new(w).t_type);
    }
}

#[test]
fn token_type_names() {
    assert_eq!(Token::new("look").get_token_type_name(), "VERB:LOOK");
    assert_eq!(Token::new("w").get_token_type_name(), "DIRECTION:WEST");
    assert_eq!(Token::new("rope").get_token_type_name(), "ITEM");
    assert_eq!(Token::new("at").get_token_type_name(), "PREPOSITION");
    assert_eq!(Token::new("quit").get_token_type_name(), "QUIT");
    assert_eq!(Token::new("yes").get_token_type_name(), "YES");
    assert_eq!(Token::new("zebra").get_token_type_name(), "WORD");
    assert_eq!(Token::new("9").get_token_type_name(), "BAD");
}

#[test]
fn check_reserved_keeps_unreserved_class() {
    let mut t = Token { t_type: TokenType::BAD, lexeme: "zebra".to_string() };
    t.check_reserved();
    assert_eq!(t.t_type, TokenType::BAD);
    let mut t = Token { t_type: TokenType::BAD, lexeme: "drop".to_string() };
    t.check_reserved();
    assert_eq!(t.t_type, TokenType::VERB(VerbType::DROP));
}

#[test]
fn splitting_words() {
    assert_eq!(split_words("  take   the\tkey\n"), vec!["take", "the", "key"]);
    assert!(split_words("").is_empty());
    assert!(split_words(" \t ").is_empty());
    assert_eq!(split_words("go"), vec!["go"]);
    assert_eq!(split_words("take\u{a0}key\u{3000}now\u{85}"), vec!["take", "key", "now"]);
}

#[test]
fn parse_item_commands() {
    match parse_line("take key") {
        Some(CommandNode::TAKE(i)) => {
            assert_eq!(i.subject, "key");
            assert_eq!(i.subject_lexeme, "key");
        },
        other => panic!("unexpected {:?}", other),
    }
    match parse_line("get stones") {
        Some(CommandNode::TAKE(i)) => {
            assert_eq!(i.subject, "seal");
            assert_eq!(i.subject_lexeme, "stones");
        },
        other => panic!("unexpected {:?}", other),
    }
    match parse_line("use banana") {
        Some(CommandNode::USE(i)) => {
            assert_eq!(i.subject, "UNKNOWN");
            assert_eq!(i.subject_lexeme, "banana");
        },
        other => panic!("unexpected {:?}", other),
    }
    assert!(matches!(parse_line("drop rope"), Some(CommandNode::DROP(_))));
    assert!(matches!(parse_line("x idol"), Some(CommandNode::EXAMINE(_))));
    assert!(parse_line("take 123").is_none());
    assert!(parse_line("take").is_none());
    assert!(parse_line("take key rope").is_none());
}

#[test]
fn parse_look_go_and_single_words() {
    assert!(matches!(parse_line("look"), Some(CommandNode::LOOK(None))));
    match parse_line("look at seal") {
        Some(CommandNode::LOOK(Some(p))) => {
            assert_eq!(p.prep, PrepositionType::AT);
            assert_eq!(p.item.subject, "seal");
        },
        other => panic!("unexpected {:?}", other),
    }
    assert!(parse_line("look seal").is_none());
    assert!(parse_line("look at").is_none());
    assert!(matches!(parse_line("go n"), Some(CommandNode::GO(DirectionType::NORTH))));
    assert!(parse_line("go").is_none());
    assert!(parse_line("go key").is_none());
    assert!(parse_line("north").is_none());
    assert!(matches!(parse_line("i"), Some(CommandNode::INVENTORY)));
    assert!(parse_line("inventory please").is_none());
    assert!(matches!(parse_line("quit"), Some(CommandNode::GAMESTATE(GameStateType::QUIT))));
    assert!(parse_line("quit now").is_none());
    assert!(matches!(parse_line("yes"), Some(CommandNode::OTHER(OtherType::YES))));
    assert!(parse_line("hit seal").is_none());
    assert!(parse_line("").is_none());
    assert!(parse_line("banana").is_none());
}
