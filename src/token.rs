use vstd::prelude::*;

verus! {

/// A lexical token, with its source position already stripped.
/// A floating-point literal is carried as the bit pattern of its IEEE-754 value.
#[derive(Debug, Clone, PartialEq)]
pub enum Token {
    Add,
    Sub,
    Mul,
    Div,
    Car,
    Not,
    Neg,
    Pal,
    Par,
    Sql,
    Sqr,
    Dot,
    Col,
    Com,
    Ass,
    Or,
    If,
    Else,
    For,
    While,
    Loop,
    Break,
    Continue,
    Return,
    Pass,
    Func,
    Catch,
    In,
    Null,
    Bool(bool),
    Int(i64),
    Float(u64),
    Str(String),
    Name(String),
    Table,
    Enter,
    Exit,
    End,
    EOF,
}

impl Token {
    /// A token that carries no literal payload.
    pub open spec fn is_marker(self) -> bool {
        match self {
            Token::Bool(_) | Token::Int(_) | Token::Float(_) | Token::Str(_) | Token::Name(_) => false,
            _ => true,
        }
    }

    /// Whether this token is the payload-free token `kind`.
    pub fn is(&self, kind: &Token) -> (r: bool)
        requires
            kind.is_marker(),
        ensures
            r == (*self == *kind),
    {
        match kind {
            Token::Add => matches!(self, Token::Add),
            Token::Sub => matches!(self, Token::Sub),
            Token::Mul => matches!(self, Token::Mul),
            Token::Div => matches!(self, Token::Div),
            Token::Car => matches!(self, Token::Car),
            Token::Not => matches!(self, Token::Not),
            Token::Neg => matches!(self, Token::Neg),
            Token::Pal => matches!(self, Token::Pal),
            Token::Par => matches!(self, Token::Par),
            Token::Sql => matches!(self, Token::Sql),
            Token::Sqr => matches!(self, Token::Sqr),
            Token::Dot => matches!(self, Token::Dot),
            Token::Col => matches!(self, Token::Col),
            Token::Com => matches!(self, Token::Com),
            Token::Ass => matches!(self, Token::Ass),
            Token::Or => matches!(self, Token::Or),
            Token::If => matches!(self, Token::If),
            Token::Else => matches!(self, Token::Else),
            Token::For => matches!(self, Token::For),
            Token::While => matches!(self, Token::While),
            Token::Loop => matches!(self, Token::Loop),
            Token::Break => matches!(self, Token::Break),
            Token::Continue => matches!(self, Token::Continue),
            Token::Return => matches!(self, Token::Return),
            Token::Pass => matches!(self, Token::Pass),
            Token::Func => matches!(self, Token::Func),
            Token::Catch => matches!(self, Token::Catch),
            Token::In => matches!(self, Token::In),
            Token::Null => matches!(self, Token::Null),
            Token::Table => matches!(self, Token::Table),
            Token::Enter => matches!(self, Token::Enter),
            Token::Exit => matches!(self, Token::Exit),
            Token::End => matches!(self, Token::End),
            Token::EOF => matches!(self, Token::EOF),
            _ => false,
        }
    }

    /// An equal copy of this token.
    pub fn duplicate(&self) -> (r: Token)
        ensures
            r == *self,
    {
        match self {
            Token::Bool(b) => Token::Bool(*b),
            Token::Int(i) => Token::Int(*i),
            Token::Float(f) => Token::Float(*f),
            Token::Str(s) => Token::Str(s.clone()),
            Token::Name(s) => Token::Name(s.clone()),
            Token::Add => Token::Add,
            Token::Sub => Token::Sub,
            Token::Mul => Token::Mul,
            Token::Div => Token::Div,
            Token::Car => Token::Car,
            Token::Not => Token::Not,
            Token::Neg => Token::Neg,
            Token::Pal => Token::Pal,
            Token::Par => Token::Par,
            Token::Sql => Token::Sql,
            Token::Sqr => Token::Sqr,
            Token::Dot => Token::Dot,
            Token::Col => Token::Col,
            Token::Com => Token::Com,
            Token::Ass => Token::Ass,
            Token::Or => Token::Or,
            Token::If => Token::If,
            Token::Else => Token::Else,
            Token::For => Token::For,
            Token::While => Token::While,
            Token::Loop => Token::Loop,
            Token::Break => Token::Break,
            Token::Continue => Token::Continue,
            Token::Return => Token::Return,
            Token::Pass => Token::Pass,
            Token::Func => Token::Func,
            Token::Catch => Token::Catch,
            Token::In => Token::In,
            Token::Null => Token::Null,
            Token::Table => Token::Table,
            Token::Enter => Token::Enter,
            Token::Exit => Token::Exit,
            Token::End => Token::End,
            Token::EOF => Token::EOF,
        }
    }
}

} // verus!
