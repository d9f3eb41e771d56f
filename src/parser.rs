//! Tokens of the assembly dialect and the lexer that reads them.

use crate::text::{digit, digit_text};
use vstd::prelude::*;
use vstd::string::StringExecFns;

pub mod tokenizer;

verus! {

/// A white-space token.
#[derive(Clone, Copy, Debug, PartialEq, Eq, Structural)]
pub enum WhiteSpace {
    SPACE,
    TAB,
    NEWLINE,
}

/// A token of the assembly dialect: an opcode, the end of input, a literal
/// value or white space.
#[derive(Clone, Copy, Debug, PartialEq, Eq, Structural)]
pub enum Token {
    ADD,
    AND,
    BR,
    JMP,
    JSR,
    JSRR,
    LD,
    LDI,
    LDR,
    LEA,
    NOT,
    RET,
    RTI,
    ST,
    STI,
    STR,
    TRAP,
    EOF,
    Value(u16),
    WhiteSpace(WhiteSpace),
}

/// The text of a white-space token.
pub open spec fn white_space_text(w: WhiteSpace) -> Seq<char> {
    match w {
        WhiteSpace::SPACE => seq![' '],
        WhiteSpace::TAB => seq!['\t'],
        WhiteSpace::NEWLINE => seq!['\n'],
    }
}

/// `n` in decimal, without leading zeros.
pub open spec fn decimal(n: nat) -> Seq<char>
    decreases n,
{
    if n < 10 {
        digit(n as int)
    } else {
        decimal(n / 10) + digit((n % 10) as int)
    }
}

/// The text of a token: an opcode's mnemonic, `EOF`, a value in decimal, or
/// the white-space character itself.
pub open spec fn token_text(t: Token) -> Seq<char> {
    match t {
        Token::ADD => "ADD"@,
        Token::AND => "AND"@,
        Token::BR => "BR"@,
        Token::JMP => "JMP"@,
        Token::JSR => "JSR"@,
        Token::JSRR => "JSRR"@,
        Token::LD => "LD"@,
        Token::LDI => "LDI"@,
        Token::LDR => "LDR"@,
        Token::LEA => "LEA"@,
        Token::NOT => "NOT"@,
        Token::RET => "RET"@,
        Token::RTI => "RTI"@,
        Token::ST => "ST"@,
        Token::STI => "STI"@,
        Token::STR => "STR"@,
        Token::TRAP => "TRAP"@,
        Token::EOF => "EOF"@,
        Token::Value(v) => decimal(v as nat),
        Token::WhiteSpace(w) => white_space_text(w),
    }
}

/// `n` in decimal.
pub fn decimal_text(n: u16) -> (r: String)
    ensures
        r@ == decimal(n as nat),
    decreases n,
{
    if n < 10 {
        String::from_str(digit_text(n))
    } else {
        decimal_text(n / 10).concat(digit_text(n % 10))
    }
}

impl WhiteSpace {
    /// The white-space character itself.
    pub fn to_text(&self) -> (r: String)
        ensures
            r@ == white_space_text(*self),
    {
        proof {
            reveal_strlit(" ");
            reveal_strlit("\t");
            reveal_strlit("\n");
        }
        match self {
            WhiteSpace::SPACE => String::from_str(" "),
            WhiteSpace::TAB => String::from_str("\t"),
            WhiteSpace::NEWLINE => String::from_str("\n"),
        }
    }
}

impl Token {
    /// The token as source text.
    pub fn to_text(&self) -> (r: String)
        ensures
            r@ == token_text(*self),
    {
        match self {
            Token::ADD => String::from_str("ADD"),
            Token::AND => String::from_str("AND"),
            Token::BR => String::from_str("BR"),
            Token::JMP => String::from_str("JMP"),
            Token::JSR => String::from_str("JSR"),
            Token::JSRR => String::from_str("JSRR"),
            Token::LD => String::from_str("LD"),
            Token::LDI => String::from_str("LDI"),
            Token::LDR => String::from_str("LDR"),
            Token::LEA => String::from_str("LEA"),
            Token::NOT => String::from_str("NOT"),
            Token::RET => String::from_str("RET"),
            Token::RTI => String::from_str("RTI"),
            Token::ST => String::from_str("ST"),
            Token::STI => String::from_str("STI"),
            Token::STR => String::from_str("STR"),
            Token::TRAP => String::from_str("TRAP"),
            Token::EOF => String::from_str("EOF"),
            Token::Value(v) => decimal_text(*v),
            Token::WhiteSpace(w) => w.to_text(),
        }
    }
}

} // verus!
