use token_classifier::errors::TokenParseError;
use token_classifier::tokens::{
    Identifier, Keyword, NumberLiteral, Operator, StringLiteral, Token,
};

fn all_operators() -> Vec<(&'static str, Operator)> {
    vec![
        ("(", Operator::ParenLeft),
        (")", Operator::ParenRight),
        ("{", Operator::BraceLeft),
        ("}", Operator::BraceRight),
        (",", Operator::Comma),
        (".", Operator::Dot),
        ("-", Operator::Minus),
        ("+", Operator::Plus),
        ("/", Operator::Div),
        ("*", Operator::Mul),
        (";", Operator::Semicolon),
        ("!", Operator::Not),
        ("!=", Operator::NotEqual),
        ("=", Operator::Equal),
        ("==", Operator::EqualEqual),
        (">", Operator::Greater),
        (">=", Operator::GreaterEq),
        ("<", Operator::Smaller),
        ("<=", Operator::SmallerEq),
    ]
}

fn all_keywords() -> Vec<(&'static str, Keyword)> {
    vec![
        ("and", Keyword::And),
        ("class", Keyword::Class),
        ("else", Keyword::Else),
        ("false", Keyword::False),
        ("for", Keyword::For),
        ("if", Keyword::If),
        ("null", Keyword::Null),
        ("or", Keyword::Or),
        ("return", Keyword::Return),
        ("true", Keyword::True),
        ("let", Keyword::Let),
        ("while", Keyword::While),
        ("fn", Keyword::Fn),
    ]
}

#[test]
fn operator_table_round_trip() {
    for (text, op) in all_operators() {
        assert_eq!(Token::try_from(text), Ok(Token::Operator(op)));
        assert_eq!(Operator::try_from(text), Ok(op));
        assert_eq!(op.render(), text);
        assert_eq!(Token::Operator(op).render(), text);
        assert_eq!(Token::try_from(&op.render()), Ok(Token::Operator(op)));
    }
}

#[test]
fn keyword_table_round_trip() {
    for (text, k) in all_keywords() {
        assert_eq!(Token::try_from(text), Ok(Token::Keyword(k)));
        assert_eq!(Keyword::try_from(text), Ok(k));
        assert_eq!(k.render(), text);
        assert_eq!(Token::Keyword(k).render(), text);
        assert_eq!(Token::try_from(&k.render()), Ok(Token::Keyword(k)));
    }
}

#[test]
fn keyword_shadows_identifier() {
    for (text, k) in all_keywords() {
        // each reserved word satisfies the identifier rule on its own ...
        assert_eq!(
            Identifier::try_from(text),
            Ok(Identifier::new(text.to_string()))
        );
        // ... yet classification always yields the keyword
        assert_eq!(Token::try_from(text), Ok(Token::Keyword(k)));
    }
}

#[test]
fn plain_names_are_identifiers() {
    for text in ["abc", "a", "x1y2", "Returned", "classes", "iff", "orchid"] {
        assert_eq!(
            Token::try_from(text),
            Ok(Token::Identifier(Identifier::new(text.to_string())))
        );
    }
}

#[test]
fn unicode_names_are_identifiers() {
    let text = "héllo";
    assert_eq!(
        Token::try_from(text),
        Ok(Token::Identifier(Identifier::new(text.to_string())))
    );
}

#[test]
fn name_shapes_rejected() {
    for text in ["a b", "a-b", "_abc", "ab!", "x.y"] {
        assert_eq!(Token::try_from(text), Err(TokenParseError::NotValidToken));
    }
}

#[test]
fn empty_lexeme_is_unrecognized() {
    assert_eq!(Token::try_from(""), Err(TokenParseError::NotValidToken));
}

#[test]
fn number_literals_kept_verbatim() {
    assert_eq!(
        Token::try_from("123"),
        Ok(Token::NumberLiteral(NumberLiteral::new("123".to_string())))
    );
    assert_eq!(
        Token::try_from("12.5"),
        Ok(Token::NumberLiteral(NumberLiteral::new("12.5".to_string())))
    );
    assert_eq!(
        Token::try_from("0"),
        Ok(Token::NumberLiteral(NumberLiteral::new("0".to_string())))
    );
}

#[test]
fn number_renders_as_its_text() {
    let t = Token::try_from("12.5").unwrap();
    assert_eq!(t.render(), "12.5");
}

#[test]
fn malformed_number_shapes_are_unrecognized() {
    for text in ["12.", ".5", "1.2.3", "12a", "9abc", "1-2"] {
        assert_eq!(Token::try_from(text), Err(TokenParseError::NotValidToken));
    }
}

#[test]
fn string_literal_strips_delimiters() {
    assert_eq!(
        Token::try_from("\"hello\""),
        Ok(Token::StringLiteral(StringLiteral::new("hello".to_string())))
    );
    assert_eq!(
        Token::try_from("\"\""),
        Ok(Token::StringLiteral(StringLiteral::new(String::new())))
    );
}

#[test]
fn string_literal_renders_inner_text() {
    let t = Token::try_from("\"hello\"").unwrap();
    assert_eq!(t.render(), "hello");
}

#[test]
fn unterminated_string_is_malformed_not_unrecognized() {
    assert_eq!(
        Token::try_from("\"unterminated"),
        Err(TokenParseError::UnterminatedString)
    );
    assert_eq!(
        Token::try_from("\""),
        Err(TokenParseError::UnterminatedString)
    );
}

#[test]
fn multi_char_operators_are_atomic() {
    assert_eq!(Token::try_from("!="), Ok(Token::Operator(Operator::NotEqual)));
    // the same two characters classified one by one give two other tokens
    assert_eq!(Token::try_from("!"), Ok(Token::Operator(Operator::Not)));
    assert_eq!(Token::try_from("="), Ok(Token::Operator(Operator::Equal)));
    assert_eq!(Token::try_from("=="), Ok(Token::Operator(Operator::EqualEqual)));
    assert_eq!(Token::try_from(">="), Ok(Token::Operator(Operator::GreaterEq)));
    assert_eq!(Token::try_from("<="), Ok(Token::Operator(Operator::SmallerEq)));
}

#[test]
fn constructors_keep_their_payload() {
    assert_eq!(Identifier::new("abc".to_string()).name, "abc");
    assert_eq!(NumberLiteral::new("12.5".to_string()).num, "12.5");
    assert_eq!(StringLiteral::new("hello".to_string()).inner, "hello");
}

#[test]
fn digit_led_names_fail_both_boundary_rules() {
    // neither an identifier (first character not alphabetic) nor a number
    assert_eq!(Identifier::try_from("9abc"), Err(TokenParseError::NotValidToken));
    assert_eq!(
        NumberLiteral::try_from("9abc"),
        Err(TokenParseError::NotValidToken)
    );
    assert_eq!(Token::try_from("9abc"), Err(TokenParseError::NotValidToken));
}
