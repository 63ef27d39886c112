//! The lexer: source text to tokens.
//!
//! White space and comments separate tokens and are dropped. The longest
//! token that begins at a place is taken. A character that begins no token is
//! passed over, and so is a number too large for its type.

use crate::directive::slice_of;
use crate::number::Num;
use crate::numeral::{find_char, first_of, is_digit, parse_number, parsed_number, run_end, skip_digits};
use crate::text::{chars_of, same_text, string_of};
use vstd::prelude::*;

verus! {

/// A token of a source.
#[derive(Debug, Clone, PartialEq)]
pub enum Token {
    Int,
    Float,
    Bool,
    Char,
    StringType,
    Void,
    If,
    Else,
    While,
    For,
    Return,
    True,
    False,
    Print,
    Sharp,
    Identifier(String),
    FloatLiteral(Num),
    IntLiteral(i64),
    StringLiteral(String),
    CharLiteral(char),
    Plus,
    Minus,
    Star,
    Slash,
    Percent,
    PlusPlus,
    MinusMinus,
    Assign,
    PlusAssign,
    MinusAssign,
    StarAssign,
    SlashAssign,
    PercentAssign,
    Equal,
    NotEqual,
    Less,
    Greater,
    LessEqual,
    GreaterEqual,
    And,
    Or,
    Not,
    LParen,
    RParen,
    LBrace,
    RBrace,
    LBracket,
    RBracket,
    Semicolon,
    Comma,
}

/// The mathematical content of a [`Token`].
pub enum TokenView {
    Int,
    Float,
    Bool,
    Char,
    StringType,
    Void,
    If,
    Else,
    While,
    For,
    Return,
    True,
    False,
    Print,
    Sharp,
    Identifier(Seq<char>),
    FloatLiteral(Num),
    IntLiteral(i64),
    StringLiteral(Seq<char>),
    CharLiteral(char),
    Plus,
    Minus,
    Star,
    Slash,
    Percent,
    PlusPlus,
    MinusMinus,
    Assign,
    PlusAssign,
    MinusAssign,
    StarAssign,
    SlashAssign,
    PercentAssign,
    Equal,
    NotEqual,
    Less,
    Greater,
    LessEqual,
    GreaterEqual,
    And,
    Or,
    Not,
    LParen,
    RParen,
    LBrace,
    RBrace,
    LBracket,
    RBracket,
    Semicolon,
    Comma,
}

impl View for Token {
    type V = TokenView;

    open spec fn view(&self) -> TokenView {
        match self {
            Token::Int => TokenView::Int,
            Token::Float => TokenView::Float,
            Token::Bool => TokenView::Bool,
            Token::Char => TokenView::Char,
            Token::StringType => TokenView::StringType,
            Token::Void => TokenView::Void,
            Token::If => TokenView::If,
            Token::Else => TokenView::Else,
            Token::While => TokenView::While,
            Token::For => TokenView::For,
            Token::Return => TokenView::Return,
            Token::True => TokenView::True,
            Token::False => TokenView::False,
            Token::Print => TokenView::Print,
            Token::Sharp => TokenView::Sharp,
            Token::Identifier(name) => TokenView::Identifier(name@),
            Token::FloatLiteral(x) => TokenView::FloatLiteral(*x),
            Token::IntLiteral(n) => TokenView::IntLiteral(*n),
            Token::StringLiteral(text) => TokenView::StringLiteral(text@),
            Token::CharLiteral(c) => TokenView::CharLiteral(*c),
            Token::Plus => TokenView::Plus,
            Token::Minus => TokenView::Minus,
            Token::Star => TokenView::Star,
            Token::Slash => TokenView::Slash,
            Token::Percent => TokenView::Percent,
            Token::PlusPlus => TokenView::PlusPlus,
            Token::MinusMinus => TokenView::MinusMinus,
            Token::Assign => TokenView::Assign,
            Token::PlusAssign => TokenView::PlusAssign,
            Token::MinusAssign => TokenView::MinusAssign,
            Token::StarAssign => TokenView::StarAssign,
            Token::SlashAssign => TokenView::SlashAssign,
            Token::PercentAssign => TokenView::PercentAssign,
            Token::Equal => TokenView::Equal,
            Token::NotEqual => TokenView::NotEqual,
            Token::Less => TokenView::Less,
            Token::Greater => TokenView::Greater,
            Token::LessEqual => TokenView::LessEqual,
            Token::GreaterEqual => TokenView::GreaterEqual,
            Token::And => TokenView::And,
            Token::Or => TokenView::Or,
            Token::Not => TokenView::Not,
            Token::LParen => TokenView::LParen,
            Token::RParen => TokenView::RParen,
            Token::LBrace => TokenView::LBrace,
            Token::RBrace => TokenView::RBrace,
            Token::LBracket => TokenView::LBracket,
            Token::RBracket => TokenView::RBracket,
            Token::Semicolon => TokenView::Semicolon,
            Token::Comma => TokenView::Comma,
        }
    }
}

/// The contents of tokens.
pub open spec fn tokens_view(tokens: Seq<Token>) -> Seq<TokenView> {
    Seq::new(tokens.len(), |i: int| tokens[i]@)
}

/// Whether a character separates tokens: space, tab, carriage return, line
/// feed or form feed.
pub open spec fn is_blank(c: char) -> bool {
    c == ' ' || c == '\t' || c == '\r' || c == '\n' || c as u32 == 0x0C
}

/// Whether a character can begin an identifier.
pub open spec fn is_ident_start(c: char) -> bool {
    (0x41 <= c as u32 <= 0x5A) || (0x61 <= c as u32 <= 0x7A) || c == '_'
}

/// Whether a character can go on an identifier.
pub open spec fn is_ident_part(c: char) -> bool {
    is_ident_start(c) || is_digit(c)
}

/// The first place at or after `from` that cannot go on an identifier.
pub open spec fn ident_end(s: Seq<char>, from: int) -> int
    decreases s.len() - from,
{
    if from >= s.len() {
        s.len() as int
    } else if is_ident_part(s[from]) {
        ident_end(s, from + 1)
    } else {
        from
    }
}

/// The token of a word: a keyword, or else an identifier.
pub open spec fn word_token(word: Seq<char>) -> TokenView {
    if word == "int"@ {
        TokenView::Int
    } else if word == "float"@ {
        TokenView::Float
    } else if word == "bool"@ {
        TokenView::Bool
    } else if word == "char"@ {
        TokenView::Char
    } else if word == "string"@ {
        TokenView::StringType
    } else if word == "void"@ {
        TokenView::Void
    } else if word == "if"@ {
        TokenView::If
    } else if word == "else"@ {
        TokenView::Else
    } else if word == "while"@ {
        TokenView::While
    } else if word == "for"@ {
        TokenView::For
    } else if word == "return"@ {
        TokenView::Return
    } else if word == "true"@ {
        TokenView::True
    } else if word == "false"@ {
        TokenView::False
    } else if word == "print"@ {
        TokenView::Print
    } else if word == "sharp"@ {
        TokenView::Sharp
    } else {
        TokenView::Identifier(word)
    }
}

/// The number that the digits from `from` up to `to` spell, as far as it
/// fits: a number beyond the 64-bit signed range counts as one more than the
/// largest of them.
pub open spec fn digits_value(s: Seq<char>, from: int, to: int) -> int
    decreases to - from,
{
    if to <= from {
        0
    } else {
        let value = digits_value(s, from, to - 1) * 10 + (s[to - 1] as u32 - 0x30);
        if value > i64::MAX {
            i64::MAX + 1
        } else {
            value
        }
    }
}

/// The place of the quote that closes a string literal whose text is read
/// from `from` on: a backslash takes the character after it along, which may
/// not be a line feed. `None` where the literal is not closed.
pub open spec fn string_end(s: Seq<char>, from: int) -> Option<int>
    decreases s.len() - from,
{
    if from >= s.len() || from < 0 {
        None
    } else if s[from] == '"' {
        Some(from)
    } else if s[from] == '\\' {
        if from + 1 < s.len() && s[from + 1] != '\n' {
            string_end(s, from + 2)
        } else {
            None
        }
    } else {
        string_end(s, from + 1)
    }
}

/// The place of the first `*/` at or after `from`, or the length if there is
/// none.
pub open spec fn comment_end(s: Seq<char>, from: int) -> int
    decreases s.len() - from,
{
    if from + 1 >= s.len() {
        s.len() as int
    } else if s[from] == '*' && s[from + 1] == '/' {
        from
    } else {
        comment_end(s, from + 1)
    }
}

/// The token of a punctuation mark of two characters.
pub open spec fn pair_token(a: char, b: char) -> Option<TokenView> {
    if a == '+' && b == '+' {
        Some(TokenView::PlusPlus)
    } else if a == '+' && b == '=' {
        Some(TokenView::PlusAssign)
    } else if a == '-' && b == '-' {
        Some(TokenView::MinusMinus)
    } else if a == '-' && b == '=' {
        Some(TokenView::MinusAssign)
    } else if a == '*' && b == '=' {
        Some(TokenView::StarAssign)
    } else if a == '/' && b == '=' {
        Some(TokenView::SlashAssign)
    } else if a == '%' && b == '=' {
        Some(TokenView::PercentAssign)
    } else if a == '=' && b == '=' {
        Some(TokenView::Equal)
    } else if a == '!' && b == '=' {
        Some(TokenView::NotEqual)
    } else if a == '<' && b == '=' {
        Some(TokenView::LessEqual)
    } else if a == '>' && b == '=' {
        Some(TokenView::GreaterEqual)
    } else if a == '&' && b == '&' {
        Some(TokenView::And)
    } else if a == '|' && b == '|' {
        Some(TokenView::Or)
    } else {
        None
    }
}

/// The token of a punctuation mark of one character.
pub open spec fn single_token(a: char) -> Option<TokenView> {
    if a == '+' {
        Some(TokenView::Plus)
    } else if a == '-' {
        Some(TokenView::Minus)
    } else if a == '*' {
        Some(TokenView::Star)
    } else if a == '/' {
        Some(TokenView::Slash)
    } else if a == '%' {
        Some(TokenView::Percent)
    } else if a == '=' {
        Some(TokenView::Assign)
    } else if a == '<' {
        Some(TokenView::Less)
    } else if a == '>' {
        Some(TokenView::Greater)
    } else if a == '!' {
        Some(TokenView::Not)
    } else if a == '(' {
        Some(TokenView::LParen)
    } else if a == ')' {
        Some(TokenView::RParen)
    } else if a == '{' {
        Some(TokenView::LBrace)
    } else if a == '}' {
        Some(TokenView::RBrace)
    } else if a == '[' {
        Some(TokenView::LBracket)
    } else if a == ']' {
        Some(TokenView::RBracket)
    } else if a == ';' {
        Some(TokenView::Semicolon)
    } else if a == ',' {
        Some(TokenView::Comma)
    } else {
        None
    }
}

/// A number that begins at `from`: digits, a point and digits are a float,
/// digits alone an integer. A number that its type cannot hold is no token.
pub open spec fn scan_number(s: Seq<char>, from: int) -> (Option<TokenView>, int) {
    let whole = run_end(s, from);
    if whole + 1 < s.len() && s[whole] == '.' && is_digit(s[whole + 1]) {
        let end = run_end(s, whole + 1);
        match parsed_number(s.subrange(from, end)) {
            Some(x) => (Some(TokenView::FloatLiteral(x)), end),
            None => (None, end),
        }
    } else {
        let value = digits_value(s, from, whole);
        if value <= i64::MAX {
            (Some(TokenView::IntLiteral(value as i64)), whole)
        } else {
            (None, whole)
        }
    }
}

/// A punctuation mark, or a comment, that begins at `from`.
pub open spec fn scan_mark(s: Seq<char>, from: int) -> (Option<TokenView>, int) {
    let c = s[from];
    if from + 1 < s.len() && c == '/' && s[from + 1] == '/' {
        (None, first_of(s, '\n', from))
    } else if from + 1 < s.len() && c == '/' && s[from + 1] == '*' && comment_end(s, from + 2)
        < s.len() {
        (None, comment_end(s, from + 2) + 2)
    } else if from + 1 < s.len() && pair_token(c, s[from + 1]) is Some {
        (pair_token(c, s[from + 1]), from + 2)
    } else {
        (single_token(c), from + 1)
    }
}

/// What begins at `from`: a token or nothing, and the place behind it.
pub open spec fn scan(s: Seq<char>, from: int) -> (Option<TokenView>, int) {
    let c = s[from];
    if is_blank(c) {
        (None, from + 1)
    } else if is_ident_start(c) {
        let end = ident_end(s, from);
        (Some(word_token(s.subrange(from, end))), end)
    } else if is_digit(c) {
        scan_number(s, from)
    } else if c == '"' {
        match string_end(s, from + 1) {
            Some(end) => (Some(TokenView::StringLiteral(s.subrange(from + 1, end))), end + 1),
            None => (None, from + 1),
        }
    } else if c == '\'' {
        if from + 2 < s.len() && s[from + 1] != '\n' && s[from + 2] == '\'' {
            (Some(TokenView::CharLiteral(s[from + 1])), from + 3)
        } else {
            (None, from + 1)
        }
    } else {
        scan_mark(s, from)
    }
}

/// The tokens of the text from `from` on.
pub open spec fn lex_from(s: Seq<char>, from: int) -> Seq<TokenView>
    decreases s.len() - from,
{
    if from >= s.len() || from < 0 {
        Seq::empty()
    } else {
        let token = scan(s, from).0;
        let next = scan(s, from).1;
        let rest = if from < next <= s.len() {
            lex_from(s, next)
        } else {
            lex_from(s, from + 1)
        };
        match token {
            Some(t) => seq![t] + rest,
            None => rest,
        }
    }
}

/// The tokens of a text.
pub open spec fn lex(s: Seq<char>) -> Seq<TokenView> {
    lex_from(s, 0)
}

/// Whether a token names a type.
pub open spec fn is_type_token(token: TokenView) -> bool {
    token is Int || token is Float || token is Bool || token is Char || token is StringType
        || token is Void
}

/// Whether a text begins as a function definition does: with a type, an
/// identifier and an opening parenthesis.
pub open spec fn begins_function(s: Seq<char>) -> bool {
    let tokens = lex(s);
    tokens.len() >= 3 && is_type_token(tokens[0]) && tokens[1] is Identifier && tokens[2] is LParen
}

/// A token, or none, as its content.
pub open spec fn scanned_view(token: Option<Token>) -> Option<TokenView> {
    match token {
        Some(t) => Some(t@),
        None => None,
    }
}

/// Whether a character separates tokens.
pub fn blank(c: char) -> (r: bool)
    ensures
        r == is_blank(c),
{
    let code: u32 = c as u32;
    c == ' ' || c == '\t' || c == '\r' || c == '\n' || code == 0x0C
}

/// Whether a character can begin an identifier.
pub fn ident_start(c: char) -> (r: bool)
    ensures
        r == is_ident_start(c),
{
    let code: u32 = c as u32;
    (0x41 <= code && code <= 0x5A) || (0x61 <= code && code <= 0x7A) || c == '_'
}

/// Whether a character can go on an identifier.
pub fn ident_part(c: char) -> (r: bool)
    ensures
        r == is_ident_part(c),
{
    ident_start(c) || crate::numeral::digit_char(c)
}

/// The first place at or after `from` that cannot go on an identifier.
pub fn skip_ident(s: &Vec<char>, from: usize) -> (r: usize)
    requires
        from <= s@.len(),
    ensures
        r == ident_end(s@, from as int),
        from <= r <= s@.len(),
        from < s@.len() && is_ident_part(s@[from as int]) ==> from < r,
{
    let mut i: usize = from;
    while i < s.len() && ident_part(s[i])
        invariant
            from <= i <= s@.len(),
            ident_end(s@, from as int) == ident_end(s@, i as int),
            from < s@.len() && is_ident_part(s@[from as int]) && i == from ==> i < s@.len()
                && is_ident_part(s@[i as int]),
        decreases s.len() - i,
    {
        i += 1;
    }
    i
}

/// The token of a word: a keyword, or else an identifier.
pub fn word_to_token(word: String) -> (r: Token)
    ensures
        r@ == word_token(word@),
{
    let w: &str = word.as_str();
    if same_text(w, "int") {
        Token::Int
    } else if same_text(w, "float") {
        Token::Float
    } else if same_text(w, "bool") {
        Token::Bool
    } else if same_text(w, "char") {
        Token::Char
    } else if same_text(w, "string") {
        Token::StringType
    } else if same_text(w, "void") {
        Token::Void
    } else if same_text(w, "if") {
        Token::If
    } else if same_text(w, "else") {
        Token::Else
    } else if same_text(w, "while") {
        Token::While
    } else if same_text(w, "for") {
        Token::For
    } else if same_text(w, "return") {
        Token::Return
    } else if same_text(w, "true") {
        Token::True
    } else if same_text(w, "false") {
        Token::False
    } else if same_text(w, "print") {
        Token::Print
    } else if same_text(w, "sharp") {
        Token::Sharp
    } else {
        Token::Identifier(word)
    }
}

/// The number that the digits from `from` up to `to` spell, if it fits.
pub fn value_of_digits(s: &Vec<char>, from: usize, to: usize) -> (r: Option<i64>)
    requires
        from <= to <= s@.len(),
        forall|i: int| from <= i < to ==> is_digit(s@[i]),
    ensures
        match r {
            Some(v) => digits_value(s@, from as int, to as int) == v,
            None => digits_value(s@, from as int, to as int) > i64::MAX,
        },
{
    let mut value: u128 = 0;
    let mut i: usize = from;
    while i < to
        invariant
            from <= i <= to,
            to <= s@.len(),
            forall|i: int| from <= i < to ==> is_digit(s@[i]),
            value == digits_value(s@, from as int, i as int),
            value <= i64::MAX + 1,
        decreases to - i,
    {
        let c: char = s[i];
        assert(is_digit(s@[i as int]));
        let code: u32 = c as u32;
        value = value * 10 + (code - 0x30) as u128;
        if value > i64::MAX as u128 {
            value = i64::MAX as u128 + 1;
        }
        i += 1;
    }
    if value > i64::MAX as u128 {
        None
    } else {
        Some(value as i64)
    }
}

/// The place of the quote that closes a string literal whose text is read
/// from `from` on.
pub fn close_of_string(s: &Vec<char>, from: usize) -> (r: Option<usize>)
    requires
        from <= s@.len(),
    ensures
        match r {
            Some(end) => string_end(s@, from as int) == Some(end as int) && from <= end < s@.len(),
            None => string_end(s@, from as int) is None,
        },
{
    let mut i: usize = from;
    while i < s.len()
        invariant
            from <= i <= s@.len(),
            string_end(s@, from as int) == string_end(s@, i as int),
        decreases s.len() - i,
    {
        let c: char = s[i];
        if c == '"' {
            return Some(i);
        }
        if c == '\\' {
            if i + 1 < s.len() && s[i + 1] != '\n' {
                i += 2;
            } else {
                return None;
            }
        } else {
            i += 1;
        }
    }
    None
}

/// The place of the first `*/` at or after `from`, or the length.
pub fn close_of_comment(s: &Vec<char>, from: usize) -> (r: usize)
    requires
        from <= s@.len(),
    ensures
        r == comment_end(s@, from as int),
        r <= s@.len(),
        r < s@.len() ==> from <= r && r + 1 < s@.len(),
{
    let n: usize = s.len();
    let mut i: usize = from;
    while i < n && i + 1 < n
        invariant
            from <= i <= s@.len(),
            n == s@.len(),
            comment_end(s@, from as int) == comment_end(s@, i as int),
        decreases n - i,
    {
        if s[i] == '*' && s[i + 1] == '/' {
            return i;
        }
        i += 1;
    }
    n
}

/// The token of a punctuation mark of two characters.
pub fn pair(a: char, b: char) -> (r: Option<Token>)
    ensures
        scanned_view(r) == pair_token(a, b),
{
    if a == '+' && b == '+' {
        Some(Token::PlusPlus)
    } else if a == '+' && b == '=' {
        Some(Token::PlusAssign)
    } else if a == '-' && b == '-' {
        Some(Token::MinusMinus)
    } else if a == '-' && b == '=' {
        Some(Token::MinusAssign)
    } else if a == '*' && b == '=' {
        Some(Token::StarAssign)
    } else if a == '/' && b == '=' {
        Some(Token::SlashAssign)
    } else if a == '%' && b == '=' {
        Some(Token::PercentAssign)
    } else if a == '=' && b == '=' {
        Some(Token::Equal)
    } else if a == '!' && b == '=' {
        Some(Token::NotEqual)
    } else if a == '<' && b == '=' {
        Some(Token::LessEqual)
    } else if a == '>' && b == '=' {
        Some(Token::GreaterEqual)
    } else if a == '&' && b == '&' {
        Some(Token::And)
    } else if a == '|' && b == '|' {
        Some(Token::Or)
    } else {
        None
    }
}

/// The token of a punctuation mark of one character.
pub fn single(a: char) -> (r: Option<Token>)
    ensures
        scanned_view(r) == single_token(a),
{
    if a == '+' {
        Some(Token::Plus)
    } else if a == '-' {
        Some(Token::Minus)
    } else if a == '*' {
        Some(Token::Star)
    } else if a == '/' {
        Some(Token::Slash)
    } else if a == '%' {
        Some(Token::Percent)
    } else if a == '=' {
        Some(Token::Assign)
    } else if a == '<' {
        Some(Token::Less)
    } else if a == '>' {
        Some(Token::Greater)
    } else if a == '!' {
        Some(Token::Not)
    } else if a == '(' {
        Some(Token::LParen)
    } else if a == ')' {
        Some(Token::RParen)
    } else if a == '{' {
        Some(Token::LBrace)
    } else if a == '}' {
        Some(Token::RBrace)
    } else if a == '[' {
        Some(Token::LBracket)
    } else if a == ']' {
        Some(Token::RBracket)
    } else if a == ';' {
        Some(Token::Semicolon)
    } else if a == ',' {
        Some(Token::Comma)
    } else {
        None
    }
}

/// The digits from `from` up to the end of their run are digits.
pub proof fn lemma_run_is_digits(s: Seq<char>, from: int)
    requires
        0 <= from <= s.len(),
    ensures
        from <= run_end(s, from) <= s.len(),
        forall|i: int| from <= i < run_end(s, from) ==> is_digit(s[i]),
    decreases s.len() - from,
{
    if from < s.len() && is_digit(s[from]) {
        lemma_run_is_digits(s, from + 1);
    }
}

/// Scans a number that begins at `from`.
pub fn scan_number_at(s: &Vec<char>, from: usize) -> (r: (Option<Token>, usize))
    requires
        from < s@.len(),
        is_digit(s@[from as int]),
    ensures
        scanned_view(r.0) == scan_number(s@, from as int).0,
        r.1 == scan_number(s@, from as int).1,
        from < r.1 <= s@.len(),
{
    let whole: usize = skip_digits(s, from);
    proof {
        lemma_run_is_digits(s@, from as int);
        lemma_run_is_digits(s@, from + 1);
        assert(run_end(s@, from as int) == run_end(s@, from + 1));
    }
    if whole < s.len() && whole + 1 < s.len() && s[whole] == '.' && crate::numeral::digit_char(
        s[whole + 1],
    ) {
        let end: usize = skip_digits(s, whole + 1);
        let text: String = string_of(&slice_of(s, from, end));
        match parse_number(text.as_str()) {
            Some(x) => (Some(Token::FloatLiteral(x)), end),
            None => (None, end),
        }
    } else {
        match value_of_digits(s, from, whole) {
            Some(v) => (Some(Token::IntLiteral(v)), whole),
            None => (None, whole),
        }
    }
}

/// Scans a punctuation mark, or a comment, that begins at `from`.
pub fn scan_mark_at(s: &Vec<char>, from: usize) -> (r: (Option<Token>, usize))
    requires
        from < s@.len(),
    ensures
        scanned_view(r.0) == scan_mark(s@, from as int).0,
        r.1 == scan_mark(s@, from as int).1,
        from < r.1 <= s@.len(),
{
    let n: usize = s.len();
    let c: char = s[from];
    if from + 1 < n {
        let d: char = s[from + 1];
        if c == '/' && d == '/' {
            let end: usize = find_char(s, '\n', from);
            proof {
                crate::directive::lemma_first_of_bounds(s@, '\n', from + 1);
            }
            return (None, end);
        }
        if c == '/' && d == '*' {
            let close: usize = close_of_comment(s, from + 2);
            if close < s.len() {
                return (None, close + 2);
            }
        }
        match pair(c, d) {
            Some(token) => {
                return (Some(token), from + 2);
            },
            None => {},
        }
    }
    (single(c), from + 1)
}

/// Scans what begins at `from`: a token or nothing, and the place behind it.
pub fn scan_token(s: &Vec<char>, from: usize) -> (r: (Option<Token>, usize))
    requires
        from < s@.len(),
    ensures
        scanned_view(r.0) == scan(s@, from as int).0,
        r.1 == scan(s@, from as int).1,
        from < r.1 <= s@.len(),
{
    let n: usize = s.len();
    let c: char = s[from];
    if blank(c) {
        (None, from + 1)
    } else if ident_start(c) {
        let end: usize = skip_ident(s, from);
        let word: String = string_of(&slice_of(s, from, end));
        (Some(word_to_token(word)), end)
    } else if crate::numeral::digit_char(c) {
        scan_number_at(s, from)
    } else if c == '"' {
        match close_of_string(s, from + 1) {
            Some(end) => {
                let text: String = string_of(&slice_of(s, from + 1, end));
                (Some(Token::StringLiteral(text)), end + 1)
            },
            None => (None, from + 1),
        }
    } else if c == '\'' {
        if from + 1 < n && from + 2 < n && s[from + 1] != '\n' && s[from + 2] == '\'' {
            (Some(Token::CharLiteral(s[from + 1])), from + 3)
        } else {
            (None, from + 1)
        }
    } else {
        scan_mark_at(s, from)
    }
}

/// The tokens of a source text.
pub fn tokenize(source: &str) -> (r: Vec<Token>)
    ensures
        tokens_view(r@) == lex(source@),
{
    let s: Vec<char> = chars_of(source);
    let mut out: Vec<Token> = Vec::new();
    let mut from: usize = 0;
    assert(tokens_view(out@) =~= Seq::<TokenView>::empty());
    assert(Seq::<TokenView>::empty() + lex_from(s@, 0) =~= lex_from(s@, 0));
    while from < s.len()
        invariant
            from <= s@.len(),
            s@ == source@,
            lex(source@) == tokens_view(out@) + lex_from(s@, from as int),
        decreases s.len() - from,
    {
        let ghost before = tokens_view(out@);
        let ghost rest = lex_from(s@, from as int);
        let (token, next) = scan_token(&s, from);
        match token {
            Some(t) => {
                out.push(t);
                assert(tokens_view(out@) =~= before.push(t@));
                assert(before + (seq![t@] + lex_from(s@, next as int)) =~= before.push(t@) + lex_from(
                    s@,
                    next as int,
                ));
            },
            None => {},
        }
        from = next;
    }
    assert(tokens_view(out@) + Seq::<TokenView>::empty() =~= tokens_view(out@));
    out
}

/// Whether a token names a type.
pub fn type_token(token: &Token) -> (r: bool)
    ensures
        r == is_type_token(token@),
{
    match token {
        Token::Int => true,
        Token::Float => true,
        Token::Bool => true,
        Token::Char => true,
        Token::StringType => true,
        Token::Void => true,
        _ => false,
    }
}

/// Whether an input begins as a function definition does: with a type, an
/// identifier and an opening parenthesis.
pub fn looks_like_function(input: &str) -> (r: bool)
    ensures
        r == begins_function(input@),
{
    let tokens: Vec<Token> = tokenize(input);
    if tokens.len() < 3 {
        return false;
    }
    let second: bool = match &tokens[1] {
        Token::Identifier(_) => true,
        _ => false,
    };
    let third: bool = match &tokens[2] {
        Token::LParen => true,
        _ => false,
    };
    type_token(&tokens[0]) && second && third
}

impl TokenView {
    /// The text of the token as it is written in a source, a string and a
    /// character between their quotes.
    pub open spec fn text(self) -> Seq<char> {
        match self {
            TokenView::Identifier(name) => name,
            TokenView::FloatLiteral(x) => crate::numeral::number_text(x),
            TokenView::IntLiteral(n) => crate::text::signed_decimal(n as int),
            TokenView::StringLiteral(text) => seq!['"'] + text + seq!['"'],
            TokenView::CharLiteral(c) => seq!['\'', c, '\''],
            TokenView::Int => "int"@,
            TokenView::Float => "float"@,
            TokenView::Bool => "bool"@,
            TokenView::Char => "char"@,
            TokenView::StringType => "string"@,
            TokenView::Void => "void"@,
            TokenView::If => "if"@,
            TokenView::Else => "else"@,
            TokenView::While => "while"@,
            TokenView::For => "for"@,
            TokenView::Return => "return"@,
            TokenView::True => "true"@,
            TokenView::False => "false"@,
            TokenView::Print => "print"@,
            TokenView::Sharp => "sharp"@,
            TokenView::Plus => "+"@,
            TokenView::Minus => "-"@,
            TokenView::Star => "*"@,
            TokenView::Slash => "/"@,
            TokenView::Percent => "%"@,
            TokenView::PlusPlus => "++"@,
            TokenView::MinusMinus => "--"@,
            TokenView::Assign => "="@,
            TokenView::PlusAssign => "+="@,
            TokenView::MinusAssign => "-="@,
            TokenView::StarAssign => "*="@,
            TokenView::SlashAssign => "/="@,
            TokenView::PercentAssign => "%="@,
            TokenView::Equal => "=="@,
            TokenView::NotEqual => "!="@,
            TokenView::Less => "<"@,
            TokenView::Greater => ">"@,
            TokenView::LessEqual => "<="@,
            TokenView::GreaterEqual => ">="@,
            TokenView::And => "&&"@,
            TokenView::Or => "||"@,
            TokenView::Not => "!"@,
            TokenView::LParen => "("@,
            TokenView::RParen => ")"@,
            TokenView::LBrace => "{"@,
            TokenView::RBrace => "}"@,
            TokenView::LBracket => "["@,
            TokenView::RBracket => "]"@,
            TokenView::Semicolon => ";"@,
            TokenView::Comma => ","@,
        }
    }
}

impl Token {
    /// The text of the token as it is written in a source.
    pub fn render(&self) -> (r: String)
        ensures
            r@ == self@.text(),
    {
        match self {
            Token::Identifier(name) => name.clone(),
            Token::FloatLiteral(x) => crate::numeral::render_number(*x),
            Token::IntLiteral(n) => {
                let mut out: Vec<char> = Vec::new();
                crate::text::push_signed_decimal(&mut out, *n);
                assert(out@ =~= crate::text::signed_decimal(*n as int));
                string_of(&out)
            },
            Token::StringLiteral(text) => {
                let mut out: Vec<char> = Vec::new();
                out.push('"');
                crate::text::push_text(&mut out, text.as_str());
                out.push('"');
                assert(out@ =~= seq!['"'] + text@ + seq!['"']);
                string_of(&out)
            },
            Token::CharLiteral(c) => {
                let mut out: Vec<char> = Vec::new();
                out.push('\'');
                out.push(*c);
                out.push('\'');
                assert(out@ =~= seq!['\'', *c, '\'']);
                string_of(&out)
            },
            Token::Int => "int".to_owned(),
            Token::Float => "float".to_owned(),
            Token::Bool => "bool".to_owned(),
            Token::Char => "char".to_owned(),
            Token::StringType => "string".to_owned(),
            Token::Void => "void".to_owned(),
            Token::If => "if".to_owned(),
            Token::Else => "else".to_owned(),
            Token::While => "while".to_owned(),
            Token::For => "for".to_owned(),
            Token::Return => "return".to_owned(),
            Token::True => "true".to_owned(),
            Token::False => "false".to_owned(),
            Token::Print => "print".to_owned(),
            Token::Sharp => "sharp".to_owned(),
            Token::Plus => "+".to_owned(),
            Token::Minus => "-".to_owned(),
            Token::Star => "*".to_owned(),
            Token::Slash => "/".to_owned(),
            Token::Percent => "%".to_owned(),
            Token::PlusPlus => "++".to_owned(),
            Token::MinusMinus => "--".to_owned(),
            Token::Assign => "=".to_owned(),
            Token::PlusAssign => "+=".to_owned(),
            Token::MinusAssign => "-=".to_owned(),
            Token::StarAssign => "*=".to_owned(),
            Token::SlashAssign => "/=".to_owned(),
            Token::PercentAssign => "%=".to_owned(),
            Token::Equal => "==".to_owned(),
            Token::NotEqual => "!=".to_owned(),
            Token::Less => "<".to_owned(),
            Token::Greater => ">".to_owned(),
            Token::LessEqual => "<=".to_owned(),
            Token::GreaterEqual => ">=".to_owned(),
            Token::And => "&&".to_owned(),
            Token::Or => "||".to_owned(),
            Token::Not => "!".to_owned(),
            Token::LParen => "(".to_owned(),
            Token::RParen => ")".to_owned(),
            Token::LBrace => "{".to_owned(),
            Token::RBrace => "}".to_owned(),
            Token::LBracket => "[".to_owned(),
            Token::RBracket => "]".to_owned(),
            Token::Semicolon => ";".to_owned(),
            Token::Comma => ",".to_owned(),
        }
    }
}

impl Token {
    /// Whether two tokens are the same, with what they hold.
    pub fn same(&self, other: &Token) -> (r: bool)
        ensures
            r == (self@ == other@),
    {
        match (self, other) {
            (Token::Identifier(a), Token::Identifier(b)) => same_text(a.as_str(), b.as_str()),
            (Token::StringLiteral(a), Token::StringLiteral(b)) => same_text(a.as_str(), b.as_str()),
            (Token::FloatLiteral(a), Token::FloatLiteral(b)) => a.to_bits() == b.to_bits(),
            (Token::IntLiteral(a), Token::IntLiteral(b)) => *a == *b,
            (Token::CharLiteral(a), Token::CharLiteral(b)) => *a == *b,
            (Token::Int, Token::Int) => true,
            (Token::Float, Token::Float) => true,
            (Token::Bool, Token::Bool) => true,
            (Token::Char, Token::Char) => true,
            (Token::StringType, Token::StringType) => true,
            (Token::Void, Token::Void) => true,
            (Token::If, Token::If) => true,
            (Token::Else, Token::Else) => true,
            (Token::While, Token::While) => true,
            (Token::For, Token::For) => true,
            (Token::Return, Token::Return) => true,
            (Token::True, Token::True) => true,
            (Token::False, Token::False) => true,
            (Token::Print, Token::Print) => true,
            (Token::Sharp, Token::Sharp) => true,
            (Token::Plus, Token::Plus) => true,
            (Token::Minus, Token::Minus) => true,
            (Token::Star, Token::Star) => true,
            (Token::Slash, Token::Slash) => true,
            (Token::Percent, Token::Percent) => true,
            (Token::PlusPlus, Token::PlusPlus) => true,
            (Token::MinusMinus, Token::MinusMinus) => true,
            (Token::Assign, Token::Assign) => true,
            (Token::PlusAssign, Token::PlusAssign) => true,
            (Token::MinusAssign, Token::MinusAssign) => true,
            (Token::StarAssign, Token::StarAssign) => true,
            (Token::SlashAssign, Token::SlashAssign) => true,
            (Token::PercentAssign, Token::PercentAssign) => true,
            (Token::Equal, Token::Equal) => true,
            (Token::NotEqual, Token::NotEqual) => true,
            (Token::Less, Token::Less) => true,
            (Token::Greater, Token::Greater) => true,
            (Token::LessEqual, Token::LessEqual) => true,
            (Token::GreaterEqual, Token::GreaterEqual) => true,
            (Token::And, Token::And) => true,
            (Token::Or, Token::Or) => true,
            (Token::Not, Token::Not) => true,
            (Token::LParen, Token::LParen) => true,
            (Token::RParen, Token::RParen) => true,
            (Token::LBrace, Token::LBrace) => true,
            (Token::RBrace, Token::RBrace) => true,
            (Token::LBracket, Token::LBracket) => true,
            (Token::RBracket, Token::RBracket) => true,
            (Token::Semicolon, Token::Semicolon) => true,
            (Token::Comma, Token::Comma) => true,
            _ => false,
        }
    }
}

} // verus!
