//! The token classifier: category data, recognition rules, dispatch and
//! rendering.

use vstd::prelude::*;

use crate::errors::TokenParseError;
use crate::text::{
    char_is_alphabetic, char_is_alphanumeric, is_alnum_char, is_alpha_char, is_digit_char, str_eq,
};

verus! {

/// The closed set of punctuation and symbol tokens.
#[derive(Debug, Clone, Copy, PartialEq, Eq, Structural)]
pub enum Operator {
    ParenLeft,
    ParenRight,
    BraceLeft,
    BraceRight,
    Comma,
    Dot,
    Minus,
    Plus,
    Div,
    Mul,
    Semicolon,
    Not,
    NotEqual,
    Equal,
    EqualEqual,
    Greater,
    GreaterEq,
    Smaller,
    SmallerEq,
}

/// The closed set of reserved words.
#[derive(Debug, Clone, Copy, PartialEq, Eq, Structural)]
pub enum Keyword {
    And,
    Class,
    Else,
    False,
    For,
    If,
    Null,
    Or,
    Return,
    True,
    Let,
    While,
    Fn,
}

/// The canonical text of each operator: the table entry it is recognized
/// from, and the text it renders back to.
pub open spec fn op_text(op: Operator) -> Seq<char> {
    match op {
        Operator::ParenLeft => seq!['('],
        Operator::ParenRight => seq![')'],
        Operator::BraceLeft => seq!['{'],
        Operator::BraceRight => seq!['}'],
        Operator::Comma => seq![','],
        Operator::Dot => seq!['.'],
        Operator::Minus => seq!['-'],
        Operator::Plus => seq!['+'],
        Operator::Div => seq!['/'],
        Operator::Mul => seq!['*'],
        Operator::Semicolon => seq![';'],
        Operator::Not => seq!['!'],
        Operator::NotEqual => seq!['!', '='],
        Operator::Equal => seq!['='],
        Operator::EqualEqual => seq!['=', '='],
        Operator::Greater => seq!['>'],
        Operator::GreaterEq => seq!['>', '='],
        Operator::Smaller => seq!['<'],
        Operator::SmallerEq => seq!['<', '='],
    }
}

/// The canonical text of each keyword.
pub open spec fn kw_text(k: Keyword) -> Seq<char> {
    match k {
        Keyword::And => seq!['a', 'n', 'd'],
        Keyword::Class => seq!['c', 'l', 'a', 's', 's'],
        Keyword::Else => seq!['e', 'l', 's', 'e'],
        Keyword::False => seq!['f', 'a', 'l', 's', 'e'],
        Keyword::For => seq!['f', 'o', 'r'],
        Keyword::If => seq!['i', 'f'],
        Keyword::Null => seq!['n', 'u', 'l', 'l'],
        Keyword::Or => seq!['o', 'r'],
        Keyword::Return => seq!['r', 'e', 't', 'u', 'r', 'n'],
        Keyword::True => seq!['t', 'r', 'u', 'e'],
        Keyword::Let => seq!['l', 'e', 't'],
        Keyword::While => seq!['w', 'h', 'i', 'l', 'e'],
        Keyword::Fn => seq!['f', 'n'],
    }
}

/// Exact lookup in the operator table, tried in the table's fixed order.
pub open spec fn spec_operator_of(s: Seq<char>) -> Option<Operator> {
    if s == op_text(Operator::ParenLeft) {
        Some(Operator::ParenLeft)
    } else if s == op_text(Operator::ParenRight) {
        Some(Operator::ParenRight)
    } else if s == op_text(Operator::BraceLeft) {
        Some(Operator::BraceLeft)
    } else if s == op_text(Operator::BraceRight) {
        Some(Operator::BraceRight)
    } else if s == op_text(Operator::Comma) {
        Some(Operator::Comma)
    } else if s == op_text(Operator::Dot) {
        Some(Operator::Dot)
    } else if s == op_text(Operator::Minus) {
        Some(Operator::Minus)
    } else if s == op_text(Operator::Plus) {
        Some(Operator::Plus)
    } else if s == op_text(Operator::Div) {
        Some(Operator::Div)
    } else if s == op_text(Operator::Mul) {
        Some(Operator::Mul)
    } else if s == op_text(Operator::Semicolon) {
        Some(Operator::Semicolon)
    } else if s == op_text(Operator::Not) {
        Some(Operator::Not)
    } else if s == op_text(Operator::NotEqual) {
        Some(Operator::NotEqual)
    } else if s == op_text(Operator::Equal) {
        Some(Operator::Equal)
    } else if s == op_text(Operator::EqualEqual) {
        Some(Operator::EqualEqual)
    } else if s == op_text(Operator::Greater) {
        Some(Operator::Greater)
    } else if s == op_text(Operator::GreaterEq) {
        Some(Operator::GreaterEq)
    } else if s == op_text(Operator::Smaller) {
        Some(Operator::Smaller)
    } else if s == op_text(Operator::SmallerEq) {
        Some(Operator::SmallerEq)
    } else {
        None
    }
}

/// Exact lookup in the keyword table, tried in the table's fixed order.
pub open spec fn spec_keyword_of(s: Seq<char>) -> Option<Keyword> {
    if s == kw_text(Keyword::And) {
        Some(Keyword::And)
    } else if s == kw_text(Keyword::Class) {
        Some(Keyword::Class)
    } else if s == kw_text(Keyword::Else) {
        Some(Keyword::Else)
    } else if s == kw_text(Keyword::False) {
        Some(Keyword::False)
    } else if s == kw_text(Keyword::For) {
        Some(Keyword::For)
    } else if s == kw_text(Keyword::If) {
        Some(Keyword::If)
    } else if s == kw_text(Keyword::Null) {
        Some(Keyword::Null)
    } else if s == kw_text(Keyword::Or) {
        Some(Keyword::Or)
    } else if s == kw_text(Keyword::Return) {
        Some(Keyword::Return)
    } else if s == kw_text(Keyword::True) {
        Some(Keyword::True)
    } else if s == kw_text(Keyword::Let) {
        Some(Keyword::Let)
    } else if s == kw_text(Keyword::While) {
        Some(Keyword::While)
    } else if s == kw_text(Keyword::Fn) {
        Some(Keyword::Fn)
    } else {
        None
    }
}

impl Operator {
    /// Classify one lexeme against the operator table: the exact table entry,
    /// or "not this category".
    pub fn try_from(value: &str) -> (r: Result<Operator, TokenParseError>)
        ensures
            r matches Ok(op) ==> spec_operator_of(value@) == Some(op),
            r matches Err(e) ==> spec_operator_of(value@) is None && e
                == TokenParseError::NotValidToken,
    {
        proof {
            reveal_strlit("(");
            reveal_strlit(")");
            reveal_strlit("{");
            reveal_strlit("}");
            reveal_strlit(",");
            reveal_strlit(".");
            reveal_strlit("-");
            reveal_strlit("+");
            reveal_strlit("/");
            reveal_strlit("*");
            reveal_strlit(";");
            reveal_strlit("!");
            reveal_strlit("!=");
            reveal_strlit("=");
            reveal_strlit("==");
            reveal_strlit(">");
            reveal_strlit(">=");
            reveal_strlit("<");
            reveal_strlit("<=");
            assert("("@ =~= op_text(Operator::ParenLeft));
            assert(")"@ =~= op_text(Operator::ParenRight));
            assert("{"@ =~= op_text(Operator::BraceLeft));
            assert("}"@ =~= op_text(Operator::BraceRight));
            assert(","@ =~= op_text(Operator::Comma));
            assert("."@ =~= op_text(Operator::Dot));
            assert("-"@ =~= op_text(Operator::Minus));
            assert("+"@ =~= op_text(Operator::Plus));
            assert("/"@ =~= op_text(Operator::Div));
            assert("*"@ =~= op_text(Operator::Mul));
            assert(";"@ =~= op_text(Operator::Semicolon));
            assert("!"@ =~= op_text(Operator::Not));
            assert("!="@ =~= op_text(Operator::NotEqual));
            assert("="@ =~= op_text(Operator::Equal));
            assert("=="@ =~= op_text(Operator::EqualEqual));
            assert(">"@ =~= op_text(Operator::Greater));
            assert(">="@ =~= op_text(Operator::GreaterEq));
            assert("<"@ =~= op_text(Operator::Smaller));
            assert("<="@ =~= op_text(Operator::SmallerEq));
        }
        if str_eq(value, "(") {
            Ok(Operator::ParenLeft)
        } else if str_eq(value, ")") {
            Ok(Operator::ParenRight)
        } else if str_eq(value, "{") {
            Ok(Operator::BraceLeft)
        } else if str_eq(value, "}") {
            Ok(Operator::BraceRight)
        } else if str_eq(value, ",") {
            Ok(Operator::Comma)
        } else if str_eq(value, ".") {
            Ok(Operator::Dot)
        } else if str_eq(value, "-") {
            Ok(Operator::Minus)
        } else if str_eq(value, "+") {
            Ok(Operator::Plus)
        } else if str_eq(value, "/") {
            Ok(Operator::Div)
        } else if str_eq(value, "*") {
            Ok(Operator::Mul)
        } else if str_eq(value, ";") {
            Ok(Operator::Semicolon)
        } else if str_eq(value, "!") {
            Ok(Operator::Not)
        } else if str_eq(value, "!=") {
            Ok(Operator::NotEqual)
        } else if str_eq(value, "=") {
            Ok(Operator::Equal)
        } else if str_eq(value, "==") {
            Ok(Operator::EqualEqual)
        } else if str_eq(value, ">") {
            Ok(Operator::Greater)
        } else if str_eq(value, ">=") {
            Ok(Operator::GreaterEq)
        } else if str_eq(value, "<") {
            Ok(Operator::Smaller)
        } else if str_eq(value, "<=") {
            Ok(Operator::SmallerEq)
        } else {
            Err(TokenParseError::NotValidToken)
        }
    }
}

impl Keyword {
    /// Classify one lexeme against the reserved-word table: the exact table
    /// entry, or "not this category".
    pub fn try_from(value: &str) -> (r: Result<Keyword, TokenParseError>)
        ensures
            r matches Ok(k) ==> spec_keyword_of(value@) == Some(k),
            r matches Err(e) ==> spec_keyword_of(value@) is None && e
                == TokenParseError::NotValidToken,
    {
        proof {
            reveal_strlit("and");
            reveal_strlit("class");
            reveal_strlit("else");
            reveal_strlit("false");
            reveal_strlit("for");
            reveal_strlit("if");
            reveal_strlit("null");
            reveal_strlit("or");
            reveal_strlit("return");
            reveal_strlit("true");
            reveal_strlit("let");
            reveal_strlit("while");
            reveal_strlit("fn");
            assert("and"@ =~= kw_text(Keyword::And));
            assert("class"@ =~= kw_text(Keyword::Class));
            assert("else"@ =~= kw_text(Keyword::Else));
            assert("false"@ =~= kw_text(Keyword::False));
            assert("for"@ =~= kw_text(Keyword::For));
            assert("if"@ =~= kw_text(Keyword::If));
            assert("null"@ =~= kw_text(Keyword::Null));
            assert("or"@ =~= kw_text(Keyword::Or));
            assert("return"@ =~= kw_text(Keyword::Return));
            assert("true"@ =~= kw_text(Keyword::True));
            assert("let"@ =~= kw_text(Keyword::Let));
            assert("while"@ =~= kw_text(Keyword::While));
            assert("fn"@ =~= kw_text(Keyword::Fn));
        }
        if str_eq(value, "and") {
            Ok(Keyword::And)
        } else if str_eq(value, "class") {
            Ok(Keyword::Class)
        } else if str_eq(value, "else") {
            Ok(Keyword::Else)
        } else if str_eq(value, "false") {
            Ok(Keyword::False)
        } else if str_eq(value, "for") {
            Ok(Keyword::For)
        } else if str_eq(value, "if") {
            Ok(Keyword::If)
        } else if str_eq(value, "null") {
            Ok(Keyword::Null)
        } else if str_eq(value, "or") {
            Ok(Keyword::Or)
        } else if str_eq(value, "return") {
            Ok(Keyword::Return)
        } else if str_eq(value, "true") {
            Ok(Keyword::True)
        } else if str_eq(value, "let") {
            Ok(Keyword::Let)
        } else if str_eq(value, "while") {
            Ok(Keyword::While)
        } else if str_eq(value, "fn") {
            Ok(Keyword::Fn)
        } else {
            Err(TokenParseError::NotValidToken)
        }
    }
}

/// The identifier rule: non-empty, the first character a letter, every
/// character alphanumeric.
pub open spec fn is_identifier_text(s: Seq<char>) -> bool {
    &&& s.len() > 0
    &&& is_alpha_char(s[0])
    &&& forall|i: int| 0 <= i < s.len() ==> is_alnum_char(s[i])
}

/// The number rule: a non-empty run of ASCII digits, optionally split once
/// by an embedded fractional dot with digits on both sides.
pub open spec fn is_number_text(s: Seq<char>) -> bool {
    &&& s.len() > 0
    &&& forall|i: int| 0 <= i < s.len() ==> (is_digit_char(s[i]) || s[i] == '.')
    &&& is_digit_char(s[0])
    &&& is_digit_char(s[s.len() - 1])
    &&& forall|i: int, j: int|
        0 <= i < j < s.len() ==> !(s[i] == '.' && s[j] == '.')
}

/// A lexeme commits to the string-literal category as soon as it opens with
/// a quote; from then on a failure is malformed, not "try the next".
pub open spec fn string_opens(s: Seq<char>) -> bool {
    s.len() > 0 && s[0] == '"'
}

/// The string rule: an opening and a closing quote, both present, with the
/// payload between them.
pub open spec fn is_string_text(s: Seq<char>) -> bool {
    s.len() >= 2 && s[0] == '"' && s[s.len() - 1] == '"'
}

/// A name: non-empty text whose first character is a letter and whose
/// characters are all alphanumeric.
#[derive(Debug, Clone, PartialEq, Eq)]
pub struct Identifier {
    pub name: String,
}

impl View for Identifier {
    type V = Seq<char>;

    open spec fn view(&self) -> Seq<char> {
        self.name@
    }
}

impl Identifier {
    /// Wrap already-validated identifier text.
    pub fn new(name: String) -> (r: Self)
        ensures
            r.name == name,
    {
        Self { name }
    }

    /// Classify one lexeme under the identifier rule: the lexeme itself when
    /// it satisfies the rule, otherwise "not this category".
    pub fn try_from(value: &str) -> (r: Result<Identifier, TokenParseError>)
        ensures
            r matches Ok(id) ==> is_identifier_text(value@) && id.name@ == value@,
            r matches Err(e) ==> !is_identifier_text(value@) && e
                == TokenParseError::NotValidToken,
    {
        let n = value.unicode_len();
        if n == 0 {
            return Err(TokenParseError::NotValidToken);
        }
        if !char_is_alphabetic(value.get_char(0)) {
            return Err(TokenParseError::NotValidToken);
        }
        let mut i: usize = 0;
        while i < n
            invariant
                n == value@.len(),
                i <= n,
                forall|j: int| 0 <= j < i ==> is_alnum_char(value@[j]),
            decreases n - i,
        {
            if !char_is_alphanumeric(value.get_char(i)) {
                return Err(TokenParseError::NotValidToken);
            }
            i += 1;
        }
        Ok(Identifier { name: value.to_owned() })
    }
}

/// A numeric literal, kept verbatim as its source text; numeric conversion
/// is a downstream concern.
#[derive(Debug, Clone, PartialEq, Eq)]
pub struct NumberLiteral {
    pub num: String,
}

impl View for NumberLiteral {
    type V = Seq<char>;

    open spec fn view(&self) -> Seq<char> {
        self.num@
    }
}

impl NumberLiteral {
    /// Wrap already-validated number text.
    pub fn new(num: String) -> (r: Self)
        ensures
            r.num == num,
    {
        Self { num }
    }

    /// Classify one lexeme under the number rule: the lexeme itself, kept
    /// verbatim, when it satisfies the rule, otherwise "not this category".
    pub fn try_from(value: &str) -> (r: Result<NumberLiteral, TokenParseError>)
        ensures
            r matches Ok(nl) ==> is_number_text(value@) && nl.num@ == value@,
            r matches Err(e) ==> !is_number_text(value@) && e == TokenParseError::NotValidToken,
    {
        let n = value.unicode_len();
        if n == 0 {
            return Err(TokenParseError::NotValidToken);
        }
        let mut i: usize = 0;
        let mut dot_seen = false;
        let ghost mut dot_at: int = 0;
        while i < n
            invariant
                n == value@.len(),
                i <= n,
                forall|j: int| 0 <= j < i ==> (is_digit_char(value@[j]) || value@[j] == '.'),
                dot_seen ==> 0 <= dot_at < i && value@[dot_at] == '.',
                forall|j: int| 0 <= j < i && value@[j] == '.' ==> dot_seen && j == dot_at,
            decreases n - i,
        {
            let c = value.get_char(i);
            if c == '.' {
                if dot_seen {
                    return Err(TokenParseError::NotValidToken);
                }
                dot_seen = true;
                proof {
                    dot_at = i as int;
                }
            } else if !(c >= '0' && c <= '9') {
                return Err(TokenParseError::NotValidToken);
            }
            i += 1;
        }
        let first = value.get_char(0);
        if !(first >= '0' && first <= '9') {
            return Err(TokenParseError::NotValidToken);
        }
        let last = value.get_char(n - 1);
        if !(last >= '0' && last <= '9') {
            return Err(TokenParseError::NotValidToken);
        }
        Ok(NumberLiteral { num: value.to_owned() })
    }
}

/// Quoted text, stored as the decoded content between the delimiters; no
/// escape processing is applied.
#[derive(Debug, Clone, PartialEq, Eq)]
pub struct StringLiteral {
    pub inner: String,
}

impl View for StringLiteral {
    type V = Seq<char>;

    open spec fn view(&self) -> Seq<char> {
        self.inner@
    }
}

impl StringLiteral {
    /// Wrap already-decoded string-literal content.
    pub fn new(inner: String) -> (r: Self)
        ensures
            r.inner == inner,
    {
        Self { inner }
    }

    /// Classify one lexeme under the string rule. A lexeme that opens with a
    /// quote but lacks its closing quote is malformed, a failure distinct
    /// from "not this category".
    pub fn try_from(value: &str) -> (r: Result<StringLiteral, TokenParseError>)
        ensures
            r matches Ok(sl) ==> is_string_text(value@) && sl.inner@ == value@.subrange(
                1,
                value@.len() - 1,
            ),
            r matches Err(e) ==> match e {
                TokenParseError::NotValidToken => !string_opens(value@),
                TokenParseError::UnterminatedString => string_opens(value@) && !is_string_text(
                    value@,
                ),
            },
    {
        let n = value.unicode_len();
        if n == 0 {
            return Err(TokenParseError::NotValidToken);
        }
        if value.get_char(0) != '"' {
            return Err(TokenParseError::NotValidToken);
        }
        if n < 2 || value.get_char(n - 1) != '"' {
            return Err(TokenParseError::UnterminatedString);
        }
        let inner = value.substring_char(1, n - 1);
        Ok(StringLiteral { inner: inner.to_owned() })
    }
}

impl Operator {
    /// The canonical text of this operator: exactly the table entry it is
    /// recognized from.
    pub fn render(&self) -> (r: String)
        ensures
            r@ == op_text(*self),
    {
        proof {
            reveal_strlit("(");
            reveal_strlit(")");
            reveal_strlit("{");
            reveal_strlit("}");
            reveal_strlit(",");
            reveal_strlit(".");
            reveal_strlit("-");
            reveal_strlit("+");
            reveal_strlit("/");
            reveal_strlit("*");
            reveal_strlit(";");
            reveal_strlit("!");
            reveal_strlit("!=");
            reveal_strlit("=");
            reveal_strlit("==");
            reveal_strlit(">");
            reveal_strlit(">=");
            reveal_strlit("<");
            reveal_strlit("<=");
            assert("("@ =~= op_text(Operator::ParenLeft));
            assert(")"@ =~= op_text(Operator::ParenRight));
            assert("{"@ =~= op_text(Operator::BraceLeft));
            assert("}"@ =~= op_text(Operator::BraceRight));
            assert(","@ =~= op_text(Operator::Comma));
            assert("."@ =~= op_text(Operator::Dot));
            assert("-"@ =~= op_text(Operator::Minus));
            assert("+"@ =~= op_text(Operator::Plus));
            assert("/"@ =~= op_text(Operator::Div));
            assert("*"@ =~= op_text(Operator::Mul));
            assert(";"@ =~= op_text(Operator::Semicolon));
            assert("!"@ =~= op_text(Operator::Not));
            assert("!="@ =~= op_text(Operator::NotEqual));
            assert("="@ =~= op_text(Operator::Equal));
            assert("=="@ =~= op_text(Operator::EqualEqual));
            assert(">"@ =~= op_text(Operator::Greater));
            assert(">="@ =~= op_text(Operator::GreaterEq));
            assert("<"@ =~= op_text(Operator::Smaller));
            assert("<="@ =~= op_text(Operator::SmallerEq));
        }
        match self {
            Operator::ParenLeft => String::from_str("("),
            Operator::ParenRight => String::from_str(")"),
            Operator::BraceLeft => String::from_str("{"),
            Operator::BraceRight => String::from_str("}"),
            Operator::Comma => String::from_str(","),
            Operator::Dot => String::from_str("."),
            Operator::Minus => String::from_str("-"),
            Operator::Plus => String::from_str("+"),
            Operator::Div => String::from_str("/"),
            Operator::Mul => String::from_str("*"),
            Operator::Semicolon => String::from_str(";"),
            Operator::Not => String::from_str("!"),
            Operator::NotEqual => String::from_str("!="),
            Operator::Equal => String::from_str("="),
            Operator::EqualEqual => String::from_str("=="),
            Operator::Greater => String::from_str(">"),
            Operator::GreaterEq => String::from_str(">="),
            Operator::Smaller => String::from_str("<"),
            Operator::SmallerEq => String::from_str("<="),
        }
    }
}

impl Keyword {
    /// The canonical text of this keyword: exactly the table entry it is
    /// recognized from.
    pub fn render(&self) -> (r: String)
        ensures
            r@ == kw_text(*self),
    {
        proof {
            reveal_strlit("and");
            reveal_strlit("class");
            reveal_strlit("else");
            reveal_strlit("false");
            reveal_strlit("for");
            reveal_strlit("if");
            reveal_strlit("null");
            reveal_strlit("or");
            reveal_strlit("return");
            reveal_strlit("true");
            reveal_strlit("let");
            reveal_strlit("while");
            reveal_strlit("fn");
            assert("and"@ =~= kw_text(Keyword::And));
            assert("class"@ =~= kw_text(Keyword::Class));
            assert("else"@ =~= kw_text(Keyword::Else));
            assert("false"@ =~= kw_text(Keyword::False));
            assert("for"@ =~= kw_text(Keyword::For));
            assert("if"@ =~= kw_text(Keyword::If));
            assert("null"@ =~= kw_text(Keyword::Null));
            assert("or"@ =~= kw_text(Keyword::Or));
            assert("return"@ =~= kw_text(Keyword::Return));
            assert("true"@ =~= kw_text(Keyword::True));
            assert("let"@ =~= kw_text(Keyword::Let));
            assert("while"@ =~= kw_text(Keyword::While));
            assert("fn"@ =~= kw_text(Keyword::Fn));
        }
        match self {
            Keyword::And => String::from_str("and"),
            Keyword::Class => String::from_str("class"),
            Keyword::Else => String::from_str("else"),
            Keyword::False => String::from_str("false"),
            Keyword::For => String::from_str("for"),
            Keyword::If => String::from_str("if"),
            Keyword::Null => String::from_str("null"),
            Keyword::Or => String::from_str("or"),
            Keyword::Return => String::from_str("return"),
            Keyword::True => String::from_str("true"),
            Keyword::Let => String::from_str("let"),
            Keyword::While => String::from_str("while"),
            Keyword::Fn => String::from_str("fn"),
        }
    }
}

/// The classified result for one lexeme: exactly one of the five token
/// categories.
#[derive(Debug, Clone, PartialEq, Eq)]
pub enum Token {
    Operator(Operator),
    Keyword(Keyword),
    Identifier(Identifier),
    NumberLiteral(NumberLiteral),
    StringLiteral(StringLiteral),
}

/// The mathematical shape of a token: the payload-carrying categories are
/// seen as the character sequences they hold.
pub enum TokenView {
    Operator(Operator),
    Keyword(Keyword),
    Identifier(Seq<char>),
    NumberLiteral(Seq<char>),
    StringLiteral(Seq<char>),
}

impl View for Token {
    type V = TokenView;

    open spec fn view(&self) -> TokenView {
        match self {
            Token::Operator(op) => TokenView::Operator(*op),
            Token::Keyword(k) => TokenView::Keyword(*k),
            Token::Identifier(id) => TokenView::Identifier(id.name@),
            Token::NumberLiteral(nl) => TokenView::NumberLiteral(nl.num@),
            Token::StringLiteral(sl) => TokenView::StringLiteral(sl.inner@),
        }
    }
}

/// What classification returns for any lexeme: the five categories tried in
/// their fixed precedence order, first match wins. A lexeme that opens with
/// a quote but is malformed fails right there; one that no category claims
/// fails as unrecognized.
pub open spec fn spec_classify(s: Seq<char>) -> Result<TokenView, TokenParseError> {
    match spec_operator_of(s) {
        Some(op) => Ok(TokenView::Operator(op)),
        None => match spec_keyword_of(s) {
            Some(k) => Ok(TokenView::Keyword(k)),
            None => if is_identifier_text(s) {
                Ok(TokenView::Identifier(s))
            } else if is_number_text(s) {
                Ok(TokenView::NumberLiteral(s))
            } else if string_opens(s) {
                if is_string_text(s) {
                    Ok(TokenView::StringLiteral(s.subrange(1, s.len() - 1)))
                } else {
                    Err(TokenParseError::UnterminatedString)
                }
            } else {
                Err(TokenParseError::NotValidToken)
            },
        },
    }
}

/// The canonical text a token renders back to: the table entry for an
/// operator or keyword, the stored payload for the other categories (a
/// string literal renders without its delimiters).
pub open spec fn spec_render(t: TokenView) -> Seq<char> {
    match t {
        TokenView::Operator(op) => op_text(op),
        TokenView::Keyword(k) => kw_text(k),
        TokenView::Identifier(s) => s,
        TokenView::NumberLiteral(s) => s,
        TokenView::StringLiteral(s) => s,
    }
}

impl Token {
    /// Classify one lexeme: try each category in precedence order, fall
    /// through on "not this category", stop at the first match or the first
    /// malformed match.
    pub fn try_from(value: &str) -> (r: Result<Token, TokenParseError>)
        ensures
            r matches Ok(t) ==> spec_classify(value@) == Ok::<TokenView, TokenParseError>(t@),
            r matches Err(e) ==> spec_classify(value@) == Err::<TokenView, _>(e),
    {
        match Operator::try_from(value) {
            Ok(data) => { return Ok(Token::Operator(data)) },
            Err(TokenParseError::NotValidToken) => {},
            Err(err) => { return Err(err) },
        };
        match Keyword::try_from(value) {
            Ok(data) => { return Ok(Token::Keyword(data)) },
            Err(TokenParseError::NotValidToken) => {},
            Err(err) => { return Err(err) },
        };
        match Identifier::try_from(value) {
            Ok(data) => { return Ok(Token::Identifier(data)) },
            Err(TokenParseError::NotValidToken) => {},
            Err(err) => { return Err(err) },
        };
        match NumberLiteral::try_from(value) {
            Ok(data) => { return Ok(Token::NumberLiteral(data)) },
            Err(TokenParseError::NotValidToken) => {},
            Err(err) => { return Err(err) },
        };
        match StringLiteral::try_from(value) {
            Ok(data) => { return Ok(Token::StringLiteral(data)) },
            Err(err) => { return Err(err) },
        }
    }

    /// The canonical text of this token: the table entry for an operator or
    /// keyword, the stored payload for the other categories.
    pub fn render(&self) -> (r: String)
        ensures
            r@ == spec_render(self@),
    {
        match self {
            Token::Operator(op) => op.render(),
            Token::Keyword(k) => k.render(),
            Token::Identifier(id) => id.name.clone(),
            Token::NumberLiteral(nl) => nl.num.clone(),
            Token::StringLiteral(sl) => sl.inner.clone(),
        }
    }
}

/// The length and characters of every operator's canonical text, as ground
/// facts for the table lemmas.
proof fn lemma_op_text_facts()
    ensures
        op_text(Operator::ParenLeft).len() == 1 && op_text(Operator::ParenLeft)[0] == '(',
        op_text(Operator::ParenRight).len() == 1 && op_text(Operator::ParenRight)[0] == ')',
        op_text(Operator::BraceLeft).len() == 1 && op_text(Operator::BraceLeft)[0] == '{',
        op_text(Operator::BraceRight).len() == 1 && op_text(Operator::BraceRight)[0] == '}',
        op_text(Operator::Comma).len() == 1 && op_text(Operator::Comma)[0] == ',',
        op_text(Operator::Dot).len() == 1 && op_text(Operator::Dot)[0] == '.',
        op_text(Operator::Minus).len() == 1 && op_text(Operator::Minus)[0] == '-',
        op_text(Operator::Plus).len() == 1 && op_text(Operator::Plus)[0] == '+',
        op_text(Operator::Div).len() == 1 && op_text(Operator::Div)[0] == '/',
        op_text(Operator::Mul).len() == 1 && op_text(Operator::Mul)[0] == '*',
        op_text(Operator::Semicolon).len() == 1 && op_text(Operator::Semicolon)[0] == ';',
        op_text(Operator::Not).len() == 1 && op_text(Operator::Not)[0] == '!',
        op_text(Operator::NotEqual).len() == 2 && op_text(Operator::NotEqual)[0] == '!' && op_text(
            Operator::NotEqual,
        )[1] == '=',
        op_text(Operator::Equal).len() == 1 && op_text(Operator::Equal)[0] == '=',
        op_text(Operator::EqualEqual).len() == 2 && op_text(Operator::EqualEqual)[0] == '='
            && op_text(Operator::EqualEqual)[1] == '=',
        op_text(Operator::Greater).len() == 1 && op_text(Operator::Greater)[0] == '>',
        op_text(Operator::GreaterEq).len() == 2 && op_text(Operator::GreaterEq)[0] == '>'
            && op_text(Operator::GreaterEq)[1] == '=',
        op_text(Operator::Smaller).len() == 1 && op_text(Operator::Smaller)[0] == '<',
        op_text(Operator::SmallerEq).len() == 2 && op_text(Operator::SmallerEq)[0] == '<'
            && op_text(Operator::SmallerEq)[1] == '=',
{
}

/// The length and first character of every keyword's canonical text; any
/// two distinct keywords differ in one of the two.
proof fn lemma_kw_text_facts()
    ensures
        kw_text(Keyword::And).len() == 3 && kw_text(Keyword::And)[0] == 'a',
        kw_text(Keyword::Class).len() == 5 && kw_text(Keyword::Class)[0] == 'c',
        kw_text(Keyword::Else).len() == 4 && kw_text(Keyword::Else)[0] == 'e',
        kw_text(Keyword::False).len() == 5 && kw_text(Keyword::False)[0] == 'f',
        kw_text(Keyword::For).len() == 3 && kw_text(Keyword::For)[0] == 'f',
        kw_text(Keyword::If).len() == 2 && kw_text(Keyword::If)[0] == 'i',
        kw_text(Keyword::Null).len() == 4 && kw_text(Keyword::Null)[0] == 'n',
        kw_text(Keyword::Or).len() == 2 && kw_text(Keyword::Or)[0] == 'o',
        kw_text(Keyword::Return).len() == 6 && kw_text(Keyword::Return)[0] == 'r',
        kw_text(Keyword::True).len() == 4 && kw_text(Keyword::True)[0] == 't',
        kw_text(Keyword::Let).len() == 3 && kw_text(Keyword::Let)[0] == 'l',
        kw_text(Keyword::While).len() == 5 && kw_text(Keyword::While)[0] == 'w',
        kw_text(Keyword::Fn).len() == 2 && kw_text(Keyword::Fn)[0] == 'f',
{
}

/// Law: classifying an operator's canonical text yields exactly that
/// operator, and rendering that operator yields the canonical text back, so
/// classify-then-render is the identity on the operator table. In
/// particular a two-character entry is one atomic token of one
/// classification, never a composition.
pub proof fn lemma_operator_round_trip(op: Operator)
    ensures
        spec_classify(op_text(op)) == Ok::<TokenView, TokenParseError>(TokenView::Operator(op)),
        spec_render(TokenView::Operator(op)) == op_text(op),
{
    lemma_op_text_facts();
}

/// Law: classifying a keyword's canonical text yields exactly that keyword
/// and rendering yields the text back — never an identifier, although every
/// reserved word satisfies the identifier rule; the keyword table simply
/// precedes it.
pub proof fn lemma_keyword_shadows_identifier(k: Keyword)
    ensures
        spec_classify(kw_text(k)) == Ok::<TokenView, TokenParseError>(TokenView::Keyword(k)),
        spec_render(TokenView::Keyword(k)) == kw_text(k),
        is_identifier_text(kw_text(k)),
{
    lemma_op_text_facts();
    lemma_kw_text_facts();
    let s = kw_text(k);
    match k {
        Keyword::And => {
            assert(is_alpha_char(s[0]) && is_alpha_char(s[1]) && is_alpha_char(s[2]));
        },
        Keyword::Class => {
            assert(is_alpha_char(s[0]) && is_alpha_char(s[1]) && is_alpha_char(s[2])
                && is_alpha_char(s[3]) && is_alpha_char(s[4]));
        },
        Keyword::Else => {
            assert(is_alpha_char(s[0]) && is_alpha_char(s[1]) && is_alpha_char(s[2])
                && is_alpha_char(s[3]));
        },
        Keyword::False => {
            assert(is_alpha_char(s[0]) && is_alpha_char(s[1]) && is_alpha_char(s[2])
                && is_alpha_char(s[3]) && is_alpha_char(s[4]));
        },
        Keyword::For => {
            assert(is_alpha_char(s[0]) && is_alpha_char(s[1]) && is_alpha_char(s[2]));
        },
        Keyword::If => {
            assert(is_alpha_char(s[0]) && is_alpha_char(s[1]));
        },
        Keyword::Null => {
            assert(is_alpha_char(s[0]) && is_alpha_char(s[1]) && is_alpha_char(s[2])
                && is_alpha_char(s[3]));
        },
        Keyword::Or => {
            assert(is_alpha_char(s[0]) && is_alpha_char(s[1]));
        },
        Keyword::Return => {
            assert(is_alpha_char(s[0]) && is_alpha_char(s[1]) && is_alpha_char(s[2])
                && is_alpha_char(s[3]) && is_alpha_char(s[4]) && is_alpha_char(s[5]));
        },
        Keyword::True => {
            assert(is_alpha_char(s[0]) && is_alpha_char(s[1]) && is_alpha_char(s[2])
                && is_alpha_char(s[3]));
        },
        Keyword::Let => {
            assert(is_alpha_char(s[0]) && is_alpha_char(s[1]) && is_alpha_char(s[2]));
        },
        Keyword::While => {
            assert(is_alpha_char(s[0]) && is_alpha_char(s[1]) && is_alpha_char(s[2])
                && is_alpha_char(s[3]) && is_alpha_char(s[4]));
        },
        Keyword::Fn => {
            assert(is_alpha_char(s[0]) && is_alpha_char(s[1]));
        },
    }
    assert forall|i: int| 0 <= i < s.len() implies is_alnum_char(s[i]) by {
        assert(is_alpha_char(s[i]));
    }
}

/// Law: a name-shaped lexeme (non-empty, a letter first, alphanumeric
/// throughout) that stands in neither the operator nor the keyword table
/// classifies as an identifier carrying exactly that text.
pub proof fn lemma_unreserved_name_is_identifier(s: Seq<char>)
    requires
        is_identifier_text(s),
        forall|op: Operator| s != op_text(op),
        forall|k: Keyword| s != kw_text(k),
    ensures
        spec_classify(s) == Ok::<TokenView, TokenParseError>(TokenView::Identifier(s)),
{
}

} // verus!
