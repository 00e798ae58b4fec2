use vstd::prelude::*;
use crate::token::Token;
use crate::ast::{Node, Place, Var, SNode, SPlace, SVar, nodes_view, places_view, vars_view,
    lemma_nodes_view_push, lemma_places_view_push, lemma_vars_view_push};

verus! {

/// Precedence class of a binary operator.
#[derive(Debug, Clone, Copy, PartialEq, Eq)]
pub enum Op {
    Right(u32),
    Left(u32),
    /// Not a binary operator: ends an operator chain.
    Unbound,
}

/// Why a token sequence does not parse.
#[derive(Debug, PartialEq)]
pub enum ParseErrorKind {
    UnexpectedToken(Token),
    UnexpectedEOF,
    /// Reserved: every operator of the precedence table has a production.
    UnknownBinaryOperator,
    /// Reserved: every unary token has a production.
    UnknownUnaryOperator,
    /// A bracketed list of targets with no `=` after it.
    UnusedPlaces,
}

/// What a parsing function yields from a position: a value and the position after it.
pub type SResult<T> = Result<(T, int), ParseErrorKind>;

// ---------------------------------------------------------------------------
// The grammar, as spec functions over the token sequence.
// Every parsing function that succeeds moves strictly forward; where a
// later step starts at a position that an earlier step returned, the
// definition states that progress explicitly, which also bounds the recursion.

pub open spec fn peek_is(toks: Seq<Token>, pos: int, kind: Token) -> bool {
    0 <= pos < toks.len() && toks[pos] == kind
}

pub open spec fn moved(toks: Seq<Token>, pos: int, p: int) -> bool {
    pos < p <= toks.len()
}

pub open spec fn prec_of(t: Token) -> Op {
    match t {
        Token::Add | Token::Sub => Op::Left(10),
        Token::Div | Token::Mul => Op::Left(20),
        Token::Car => Op::Right(30),
        _ => Op::Unbound,
    }
}

/// Whether a new operator of class `new` takes the whole tree built so far,
/// whose top operator has class `cur`, as its left operand.
pub open spec fn top_binds(cur: Op, new: Op) -> bool {
    match (cur, new) {
        (Op::Left(n), Op::Left(m)) => n >= m,
        (Op::Right(n), Op::Right(m)) => n > m,
        (Op::Right(n), Op::Left(m)) => n >= m,
        (Op::Left(n), Op::Right(m)) => n >= m,
        _ => false,
    }
}

/// One step of precedence climbing: combine the tree built so far with
/// operator `op` and its right operand `rhs`.
pub open spec fn combine(expr: SNode, started: bool, op: Token, rhs: SNode) -> SNode {
    let wrapped = SNode::BinExpr { lhs: Box::new(expr), op, rhs: Box::new(rhs) };
    if started {
        match expr {
            SNode::BinExpr { lhs: cl, op: co, rhs: cr } => if top_binds(prec_of(co), prec_of(op)) {
                wrapped
            } else {
                SNode::BinExpr {
                    lhs: cl,
                    op: co,
                    rhs: Box::new(SNode::BinExpr { lhs: cr, op, rhs: Box::new(rhs) }),
                }
            },
            _ => wrapped,
        }
    } else {
        wrapped
    }
}

pub open spec fn spec_require(toks: Seq<Token>, pos: int, kind: Token) -> Result<int, ParseErrorKind> {
    if 0 <= pos < toks.len() {
        if toks[pos] == kind {
            Ok(pos + 1)
        } else {
            Err(ParseErrorKind::UnexpectedToken(toks[pos]))
        }
    } else {
        Err(ParseErrorKind::UnexpectedEOF)
    }
}

pub open spec fn spec_quark(toks: Seq<Token>, pos: int) -> SResult<SNode> {
    if 0 <= pos < toks.len() {
        match toks[pos] {
            Token::Null => Ok((SNode::Null, pos + 1)),
            Token::Bool(b) => Ok((SNode::Bool(b), pos + 1)),
            Token::Float(f) => Ok((SNode::Float(f), pos + 1)),
            Token::Int(i) => Ok((SNode::Int(i), pos + 1)),
            Token::Str(s) => Ok((SNode::Str(s), pos + 1)),
            Token::Name(s) => Ok((SNode::Name(s), pos + 1)),
            Token::Table => Ok((SNode::Table, pos + 1)),
            t => Err(ParseErrorKind::UnexpectedToken(t)),
        }
    } else {
        Err(ParseErrorKind::UnexpectedEOF)
    }
}

pub open spec fn spec_name_as_str(toks: Seq<Token>, pos: int) -> SResult<SNode> {
    if 0 <= pos < toks.len() {
        match toks[pos] {
            Token::Name(s) => Ok((SNode::Str(s), pos + 1)),
            t => Err(ParseErrorKind::UnexpectedToken(t)),
        }
    } else {
        Err(ParseErrorKind::UnexpectedEOF)
    }
}

pub open spec fn spec_name(toks: Seq<Token>, pos: int) -> SResult<SNode> {
    if 0 <= pos < toks.len() {
        match toks[pos] {
            Token::Name(s) => Ok((SNode::Name(s), pos + 1)),
            t => Err(ParseErrorKind::UnexpectedToken(t)),
        }
    } else {
        Err(ParseErrorKind::UnexpectedEOF)
    }
}

/// Names separated by commas, collected after `acc`.
pub open spec fn spec_fn_params(toks: Seq<Token>, pos: int, acc: Seq<String>) -> (Seq<String>, int)
    decreases toks.len() - pos,
{
    if 0 <= pos < toks.len() {
        match toks[pos] {
            Token::Name(x) => if peek_is(toks, pos + 1, Token::Com) {
                spec_fn_params(toks, pos + 2, acc.push(x))
            } else {
                (acc.push(x), pos + 1)
            },
            _ => (acc, pos),
        }
    } else {
        (acc, pos)
    }
}

pub open spec fn spec_decl(toks: Seq<Token>, pos: int) -> SResult<SVar>
    decreases toks.len() - pos, 1nat,
{
    if 0 <= pos < toks.len() {
        match toks[pos] {
            Token::Sql => spec_decl_tail(toks, pos + 1, seq![]),
            Token::Name(x) => Ok((SVar::Single(x), pos + 1)),
            t => Err(ParseErrorKind::UnexpectedToken(t)),
        }
    } else {
        Err(ParseErrorKind::UnexpectedEOF)
    }
}

pub open spec fn spec_decl_tail(toks: Seq<Token>, pos: int, acc: Seq<SVar>) -> SResult<SVar>
    decreases toks.len() - pos, 2nat,
{
    match spec_decl(toks, pos) {
        Err(e) => Err(e),
        Ok((d, p1)) => if !moved(toks, pos, p1) {
            Err(ParseErrorKind::UnexpectedEOF)
        } else if peek_is(toks, p1, Token::Com) {
            spec_decl_tail(toks, p1 + 1, acc.push(d))
        } else {
            match spec_require(toks, p1, Token::Sqr) {
                Err(e) => Err(e),
                Ok(p2) => Ok((SVar::Multi(acc.push(d)), p2)),
            }
        },
    }
}

pub open spec fn spec_stmt(toks: Seq<Token>, pos: int) -> SResult<SNode>
    decreases toks.len() - pos, 12nat,
{
    if 0 <= pos < toks.len() {
        match toks[pos] {
            Token::Break => Ok((SNode::Break, pos + 1)),
            Token::Continue => Ok((SNode::Continue, pos + 1)),
            Token::If => spec_if(toks, pos),
            Token::Else => spec_else(toks, pos),
            Token::For => spec_for(toks, pos),
            Token::While => spec_while(toks, pos),
            Token::Loop => match spec_block(toks, pos + 1) {
                Err(e) => Err(e),
                Ok((b, p1)) => Ok((SNode::Loop { body: b }, p1)),
            },
            Token::Return => if peek_is(toks, pos + 1, Token::End) {
                Ok((SNode::Return(Option::None), pos + 1))
            } else {
                match spec_ml_expr(toks, pos + 1) {
                    Err(e) => Err(e),
                    Ok((v, p1)) => Ok((SNode::Return(Option::Some(Box::new(v))), p1)),
                }
            },
            Token::Pass => Ok((SNode::Pass, pos + 1)),
            Token::Func | Token::Catch => match spec_ml_expr(toks, pos) {
                Err(e) => Err(e),
                Ok((x, p1)) => Ok((SNode::Stmt(Box::new(x)), p1)),
            },
            _ => spec_assn(toks, pos),
        }
    } else {
        Err(ParseErrorKind::UnexpectedEOF)
    }
}

pub open spec fn spec_if(toks: Seq<Token>, pos: int) -> SResult<SNode>
    decreases toks.len() - pos, 11nat,
{
    if 0 <= pos < toks.len() {
        match spec_bin_expr(toks, pos + 1) {
            Err(e) => Err(e),
            Ok((c, p1)) => if !moved(toks, pos, p1) {
                Err(ParseErrorKind::UnexpectedEOF)
            } else {
                match spec_block(toks, p1) {
                    Err(e) => Err(e),
                    Ok((b, p2)) => Ok((SNode::If { cond: Box::new(c), body: b, els: Option::None }, p2)),
                }
            },
        }
    } else {
        Err(ParseErrorKind::UnexpectedEOF)
    }
}

pub open spec fn spec_else(toks: Seq<Token>, pos: int) -> SResult<SNode>
    decreases toks.len() - pos, 11nat,
{
    if 0 <= pos < toks.len() {
        if peek_is(toks, pos + 1, Token::If) {
            match spec_bin_expr(toks, pos + 2) {
                Err(e) => Err(e),
                Ok((c, p1)) => if !moved(toks, pos, p1) {
                    Err(ParseErrorKind::UnexpectedEOF)
                } else {
                    match spec_block(toks, p1) {
                        Err(e) => Err(e),
                        Ok((b, p2)) => Ok((SNode::ElseIf { cond: Box::new(c), body: b }, p2)),
                    }
                },
            }
        } else {
            match spec_block(toks, pos + 1) {
                Err(e) => Err(e),
                Ok((b, p1)) => Ok((SNode::Else { body: b }, p1)),
            }
        }
    } else {
        Err(ParseErrorKind::UnexpectedEOF)
    }
}

pub open spec fn spec_for(toks: Seq<Token>, pos: int) -> SResult<SNode>
    decreases toks.len() - pos, 11nat,
{
    if 0 <= pos < toks.len() {
        match spec_decl(toks, pos + 1) {
            Err(e) => Err(e),
            Ok((d, p1)) => match spec_require(toks, p1, Token::In) {
                Err(e) => Err(e),
                Ok(p2) => if !moved(toks, pos, p2) {
                    Err(ParseErrorKind::UnexpectedEOF)
                } else {
                    match spec_il_expr(toks, p2) {
                        Err(e) => Err(e),
                        Ok((x, p3)) => if !moved(toks, pos, p3) {
                            Err(ParseErrorKind::UnexpectedEOF)
                        } else {
                            match spec_block(toks, p3) {
                                Err(e) => Err(e),
                                Ok((b, p4)) => Ok((SNode::For { decl: d, expr: Box::new(x), body: b }, p4)),
                            }
                        },
                    }
                },
            },
        }
    } else {
        Err(ParseErrorKind::UnexpectedEOF)
    }
}

pub open spec fn spec_while(toks: Seq<Token>, pos: int) -> SResult<SNode>
    decreases toks.len() - pos, 11nat,
{
    if 0 <= pos < toks.len() {
        match spec_il_expr(toks, pos + 1) {
            Err(e) => Err(e),
            Ok((x, p1)) => if !moved(toks, pos, p1) {
                Err(ParseErrorKind::UnexpectedEOF)
            } else {
                match spec_block(toks, p1) {
                    Err(e) => Err(e),
                    Ok((b, p2)) => Ok((SNode::While { expr: Box::new(x), body: b }, p2)),
                }
            },
        }
    } else {
        Err(ParseErrorKind::UnexpectedEOF)
    }
}

pub open spec fn spec_block(toks: Seq<Token>, pos: int) -> SResult<Seq<SNode>>
    decreases toks.len() - pos, 1nat,
{
    match spec_require(toks, pos, Token::Enter) {
        Err(e) => Err(e),
        Ok(p1) => if !moved(toks, pos, p1) {
            Err(ParseErrorKind::UnexpectedEOF)
        } else {
            spec_block_tail(toks, p1, seq![])
        },
    }
}

pub open spec fn spec_block_tail(toks: Seq<Token>, pos: int, acc: Seq<SNode>) -> SResult<Seq<SNode>>
    decreases toks.len() - pos, 13nat,
{
    if peek_is(toks, pos, Token::Exit) {
        Ok((acc, pos + 1))
    } else {
        match spec_stmt(toks, pos) {
            Err(e) => Err(e),
            Ok((s, p1)) => match spec_require(toks, p1, Token::End) {
                Err(e) => Err(e),
                Ok(p2) => if !moved(toks, pos, p2) {
                    Err(ParseErrorKind::UnexpectedEOF)
                } else {
                    spec_block_tail(toks, p2, acc.push(s))
                },
            },
        }
    }
}

pub open spec fn spec_assn(toks: Seq<Token>, pos: int) -> SResult<SNode>
    decreases toks.len() - pos, 11nat,
{
    match spec_place(toks, pos) {
        Err(e) => Err(e),
        Ok((pl, p1)) => if !moved(toks, pos, p1) {
            Err(ParseErrorKind::UnexpectedEOF)
        } else if p1 < toks.len() {
            if toks[p1] == Token::Ass {
                match spec_ml_expr(toks, p1 + 1) {
                    Err(e) => Err(e),
                    Ok((r, p2)) => Ok((SNode::Assn { lhs: pl, rhs: Box::new(r) }, p2)),
                }
            } else {
                match pl {
                    SPlace::Single(b) => Ok((SNode::Stmt(b), p1)),
                    SPlace::Multi(_) => Err(ParseErrorKind::UnusedPlaces),
                }
            }
        } else {
            Err(ParseErrorKind::UnexpectedEOF)
        },
    }
}

pub open spec fn spec_place(toks: Seq<Token>, pos: int) -> SResult<SPlace>
    decreases toks.len() - pos, 10nat,
{
    if 0 <= pos < toks.len() {
        match toks[pos] {
            Token::Sql => spec_place_tail(toks, pos + 1, seq![]),
            _ => match spec_il_expr(toks, pos) {
                Err(e) => Err(e),
                Ok((n, p1)) => Ok((SPlace::Single(Box::new(n)), p1)),
            },
        }
    } else {
        Err(ParseErrorKind::UnexpectedEOF)
    }
}

pub open spec fn spec_place_tail(toks: Seq<Token>, pos: int, acc: Seq<SPlace>) -> SResult<SPlace>
    decreases toks.len() - pos, 11nat,
{
    match spec_place(toks, pos) {
        Err(e) => Err(e),
        Ok((d, p1)) => if !moved(toks, pos, p1) {
            Err(ParseErrorKind::UnexpectedEOF)
        } else if peek_is(toks, p1, Token::Com) {
            spec_place_tail(toks, p1 + 1, acc.push(d))
        } else {
            match spec_require(toks, p1, Token::Sqr) {
                Err(e) => Err(e),
                Ok(p2) => Ok((SPlace::Multi(acc.push(d)), p2)),
            }
        },
    }
}

pub open spec fn spec_ml_expr(toks: Seq<Token>, pos: int) -> SResult<SNode>
    decreases toks.len() - pos, 9nat,
{
    if 0 <= pos < toks.len() {
        match toks[pos] {
            Token::Func => match spec_require(toks, pos + 1, Token::Pal) {
                Err(e) => Err(e),
                Ok(p1) => {
                    let (params, p2) = spec_fn_params(toks, p1, seq![]);
                    match spec_require(toks, p2, Token::Par) {
                        Err(e) => Err(e),
                        Ok(p3) => if !moved(toks, pos, p3) {
                            Err(ParseErrorKind::UnexpectedEOF)
                        } else {
                            match spec_block(toks, p3) {
                                Err(e) => Err(e),
                                Ok((b, p4)) => Ok((SNode::Func { params, body: b }, p4)),
                            }
                        },
                    }
                },
            },
            Token::Catch => match spec_block(toks, pos + 1) {
                Err(e) => Err(e),
                Ok((b, p1)) => Ok((SNode::Catch(b), p1)),
            },
            _ => spec_il_expr(toks, pos),
        }
    } else {
        Err(ParseErrorKind::UnexpectedEOF)
    }
}

pub open spec fn spec_il_expr(toks: Seq<Token>, pos: int) -> SResult<SNode>
    decreases toks.len() - pos, 8nat,
{
    if 0 <= pos < toks.len() {
        match toks[pos] {
            Token::Or => {
                let (params, p1) = spec_fn_params(toks, pos + 1, seq![]);
                match spec_require(toks, p1, Token::Or) {
                    Err(e) => Err(e),
                    Ok(p2) => if !moved(toks, pos, p2) {
                        Err(ParseErrorKind::UnexpectedEOF)
                    } else {
                        match spec_il_expr(toks, p2) {
                            Err(e) => Err(e),
                            Ok((x, p3)) => Ok((SNode::Lambda { params, expr: Box::new(x) }, p3)),
                        }
                    },
                }
            },
            _ => spec_bin_expr(toks, pos),
        }
    } else {
        Err(ParseErrorKind::UnexpectedEOF)
    }
}

pub open spec fn spec_bin_expr(toks: Seq<Token>, pos: int) -> SResult<SNode>
    decreases toks.len() - pos, 7nat,
{
    match spec_un_expr(toks, pos) {
        Err(e) => Err(e),
        Ok((lhs, p1)) => if !moved(toks, pos, p1) {
            Err(ParseErrorKind::UnexpectedEOF)
        } else {
            spec_bin_tail(toks, p1, lhs, false)
        },
    }
}

/// The operator chain after the tree `expr` built so far; `started` is
/// whether `expr` was built by this chain.
pub open spec fn spec_bin_tail(toks: Seq<Token>, pos: int, expr: SNode, started: bool) -> SResult<SNode>
    decreases toks.len() - pos, 1nat,
{
    if 0 <= pos < toks.len() && prec_of(toks[pos]) != Op::Unbound {
        match spec_un_expr(toks, pos + 1) {
            Err(e) => Err(e),
            Ok((rhs, p1)) => if !moved(toks, pos, p1) {
                Err(ParseErrorKind::UnexpectedEOF)
            } else {
                spec_bin_tail(toks, p1, combine(expr, started, toks[pos], rhs), true)
            },
        }
    } else {
        Ok((expr, pos))
    }
}

pub open spec fn is_unary(t: Token) -> bool {
    t == Token::Sub || t == Token::Not || t == Token::Neg
}

pub open spec fn spec_un_expr(toks: Seq<Token>, pos: int) -> SResult<SNode>
    decreases toks.len() - pos, 6nat,
{
    if 0 <= pos < toks.len() {
        if is_unary(toks[pos]) {
            match spec_un_expr(toks, pos + 1) {
                Err(e) => Err(e),
                Ok((v, p1)) => Ok((SNode::UnExpr { val: Box::new(v), op: toks[pos] }, p1)),
            }
        } else {
            spec_simple(toks, pos)
        }
    } else {
        Err(ParseErrorKind::UnexpectedEOF)
    }
}

pub open spec fn spec_simple(toks: Seq<Token>, pos: int) -> SResult<SNode>
    decreases toks.len() - pos, 5nat,
{
    match spec_atom(toks, pos) {
        Err(e) => Err(e),
        Ok((a, p1)) => if !moved(toks, pos, p1) {
            Err(ParseErrorKind::UnexpectedEOF)
        } else {
            spec_simple_tail(toks, p1, a)
        },
    }
}

/// The postfix chain (field, index, call, method call) after `atom`.
pub open spec fn spec_simple_tail(toks: Seq<Token>, pos: int, atom: SNode) -> SResult<SNode>
    decreases toks.len() - pos, 3nat,
{
    if 0 <= pos < toks.len() {
        match toks[pos] {
            Token::Col => match spec_name_as_str(toks, pos + 1) {
                Err(e) => Err(e),
                Ok((m, p1)) => if !moved(toks, pos, p1) {
                    Err(ParseErrorKind::UnexpectedEOF)
                } else {
                    match spec_fn_args(toks, p1) {
                        Err(e) => Err(e),
                        Ok((args, p2)) => if !moved(toks, pos, p2) {
                            Err(ParseErrorKind::UnexpectedEOF)
                        } else {
                            spec_simple_tail(
                                toks,
                                p2,
                                SNode::Method { owner: Box::new(atom), method: Box::new(m), args },
                            )
                        },
                    }
                },
            },
            Token::Pal => match spec_fn_args(toks, pos) {
                Err(e) => Err(e),
                Ok((args, p1)) => if !moved(toks, pos, p1) {
                    Err(ParseErrorKind::UnexpectedEOF)
                } else {
                    spec_simple_tail(toks, p1, SNode::Call { func: Box::new(atom), args })
                },
            },
            Token::Sql => match spec_bin_expr(toks, pos + 1) {
                Err(e) => Err(e),
                Ok((idx, p1)) => match spec_require(toks, p1, Token::Sqr) {
                    Err(e) => Err(e),
                    Ok(p2) => if !moved(toks, pos, p2) {
                        Err(ParseErrorKind::UnexpectedEOF)
                    } else {
                        spec_simple_tail(toks, p2, SNode::Index { lhs: Box::new(atom), rhs: Box::new(idx) })
                    },
                },
            },
            Token::Dot => match spec_name_as_str(toks, pos + 1) {
                Err(e) => Err(e),
                Ok((idx, p1)) => if !moved(toks, pos, p1) {
                    Err(ParseErrorKind::UnexpectedEOF)
                } else {
                    spec_simple_tail(toks, p1, SNode::Index { lhs: Box::new(atom), rhs: Box::new(idx) })
                },
            },
            _ => Ok((atom, pos)),
        }
    } else {
        Ok((atom, pos))
    }
}

pub open spec fn spec_atom(toks: Seq<Token>, pos: int) -> SResult<SNode>
    decreases toks.len() - pos, 4nat,
{
    if 0 <= pos < toks.len() {
        match toks[pos] {
            Token::Pal => match spec_bin_expr(toks, pos + 1) {
                Err(e) => Err(e),
                Ok((x, p1)) => match spec_require(toks, p1, Token::Par) {
                    Err(e) => Err(e),
                    Ok(p2) => Ok((x, p2)),
                },
            },
            _ => spec_quark(toks, pos),
        }
    } else {
        Err(ParseErrorKind::UnexpectedEOF)
    }
}

pub open spec fn spec_fn_args(toks: Seq<Token>, pos: int) -> SResult<Seq<SNode>>
    decreases toks.len() - pos, 2nat,
{
    match spec_require(toks, pos, Token::Pal) {
        Err(e) => Err(e),
        Ok(p1) => if !moved(toks, pos, p1) {
            Err(ParseErrorKind::UnexpectedEOF)
        } else {
            spec_args_tail(toks, p1, seq![])
        },
    }
}

pub open spec fn spec_args_tail(toks: Seq<Token>, pos: int, acc: Seq<SNode>) -> SResult<Seq<SNode>>
    decreases toks.len() - pos, 9nat,
{
    if peek_is(toks, pos, Token::Par) {
        Ok((acc, pos + 1))
    } else {
        match spec_il_expr(toks, pos) {
            Err(e) => Err(e),
            Ok((a, p1)) => if !moved(toks, pos, p1) {
                Err(ParseErrorKind::UnexpectedEOF)
            } else if peek_is(toks, p1, Token::Com) {
                spec_args_tail(toks, p1 + 1, acc.push(a))
            } else {
                match spec_require(toks, p1, Token::Par) {
                    Err(e) => Err(e),
                    Ok(p2) => Ok((acc.push(a), p2)),
                }
            },
        }
    }
}

/// The statements of a program from `pos` up to its `EOF`, after `acc`.
pub open spec fn spec_program(toks: Seq<Token>, pos: int, acc: Seq<SNode>) -> Result<SNode, ParseErrorKind>
    decreases toks.len() - pos,
{
    if peek_is(toks, pos, Token::EOF) {
        Ok(SNode::Block(acc))
    } else {
        match spec_stmt(toks, pos) {
            Err(e) => Err(e),
            Ok((s, p1)) => match spec_require(toks, p1, Token::End) {
                Err(e) => Err(e),
                Ok(p2) => if !moved(toks, pos, p2) {
                    Err(ParseErrorKind::UnexpectedEOF)
                } else {
                    spec_program(toks, p2, acc.push(s))
                },
            },
        }
    }
}

/// The tree that a token sequence parses to, or the first error.
pub open spec fn spec_parse(toks: Seq<Token>) -> Result<SNode, ParseErrorKind> {
    spec_program(toks, 0, seq![])
}

// ---------------------------------------------------------------------------
// How an executable result relates to the grammar above.

pub open spec fn node_ok(r: Result<(Node, usize), ParseErrorKind>, toks: Seq<Token>, pos: int, s: SResult<SNode>) -> bool {
    match r {
        Ok((n, p)) => s == Ok::<_, ParseErrorKind>((n@, p as int)) && moved(toks, pos, p as int),
        Err(e) => s == Err::<(SNode, int), ParseErrorKind>(e),
    }
}

pub open spec fn nodes_ok(r: Result<(Vec<Node>, usize), ParseErrorKind>, toks: Seq<Token>, pos: int, s: SResult<Seq<SNode>>) -> bool {
    match r {
        Ok((ns, p)) => s == Ok::<_, ParseErrorKind>((nodes_view(ns@), p as int)) && moved(toks, pos, p as int),
        Err(e) => s == Err::<(Seq<SNode>, int), ParseErrorKind>(e),
    }
}

pub open spec fn place_ok(r: Result<(Place, usize), ParseErrorKind>, toks: Seq<Token>, pos: int, s: SResult<SPlace>) -> bool {
    match r {
        Ok((pl, p)) => s == Ok::<_, ParseErrorKind>((pl@, p as int)) && moved(toks, pos, p as int),
        Err(e) => s == Err::<(SPlace, int), ParseErrorKind>(e),
    }
}

pub open spec fn var_ok(r: Result<(Var, usize), ParseErrorKind>, toks: Seq<Token>, pos: int, s: SResult<SVar>) -> bool {
    match r {
        Ok((v, p)) => s == Ok::<_, ParseErrorKind>((v@, p as int)) && moved(toks, pos, p as int),
        Err(e) => s == Err::<(SVar, int), ParseErrorKind>(e),
    }
}

pub open spec fn result_view(r: Result<Node, ParseErrorKind>) -> Result<SNode, ParseErrorKind> {
    match r {
        Ok(n) => Ok(n@),
        Err(e) => Err(e),
    }
}

// ---------------------------------------------------------------------------
// The parser.

/// Whether the token at `pos` is `kind`.
fn peek_token(toks: &Vec<Token>, pos: usize, kind: Token) -> (r: bool)
    requires
        kind.is_marker(),
    ensures
        r == peek_is(toks@, pos as int, kind),
{
    if pos < toks.len() {
        toks[pos].is(&kind)
    } else {
        false
    }
}

/// Whether the token at `pos` is `kind`, and the position after it if it is.
fn use_token(toks: &Vec<Token>, pos: usize, kind: Token) -> (r: (bool, usize))
    requires
        kind.is_marker(),
    ensures
        r.0 == peek_is(toks@, pos as int, kind),
        r.1 == if r.0 { pos + 1 } else { pos as int },
{
    if pos < toks.len() && toks[pos].is(&kind) {
        (true, pos + 1)
    } else {
        (false, pos)
    }
}

/// The position after the token `kind` at `pos`, or why it is not there.
fn require_token(toks: &Vec<Token>, pos: usize, kind: Token) -> (r: Result<usize, ParseErrorKind>)
    requires
        kind.is_marker(),
    ensures
        match r {
            Ok(p) => spec_require(toks@, pos as int, kind) == Ok::<int, ParseErrorKind>(p as int) && p == pos + 1 && p <= toks.len(),
            Err(e) => spec_require(toks@, pos as int, kind) == Err::<int, ParseErrorKind>(e),
        },
{
    if pos < toks.len() {
        if toks[pos].is(&kind) {
            Ok(pos + 1)
        } else {
            Err(ParseErrorKind::UnexpectedToken(toks[pos].duplicate()))
        }
    } else {
        Err(ParseErrorKind::UnexpectedEOF)
    }
}

/// The precedence class of a token used as a binary operator.
pub fn op_precedence(op: &Token) -> (r: Op)
    ensures
        r == prec_of(*op),
{
    match op {
        Token::Add | Token::Sub => Op::Left(10),
        Token::Div | Token::Mul => Op::Left(20),
        Token::Car => Op::Right(30),
        _ => Op::Unbound,
    }
}

/// Whether a new operator of class `new` takes the tree whose top operator
/// has class `cur` as its left operand (rather than its rightmost operand).
pub fn binds_at_top(cur: Op, new: Op) -> (r: bool)
    ensures
        r == top_binds(cur, new),
{
    match (cur, new) {
        (Op::Left(n), Op::Left(m)) => n >= m,
        (Op::Right(n), Op::Right(m)) => n > m,
        (Op::Right(n), Op::Left(m)) => n >= m,
        (Op::Left(n), Op::Right(m)) => n >= m,
        _ => false,
    }
}

/// One step of precedence climbing: `started` says whether `expr` was
/// built by the current operator chain.
pub fn climb(expr: Node, started: bool, op: Token, rhs: Node) -> (r: Node)
    ensures
        r@ == combine(expr@, started, op, rhs@),
{
    proof {
        reveal_with_fuel(crate::ast::node_view, 2);
    }
    if started {
        match expr {
            Node::BinExpr { lhs: cur_lhs, op: cur_op, rhs: cur_rhs } => {
                if binds_at_top(op_precedence(&cur_op), op_precedence(&op)) {
                    let whole = Node::BinExpr { lhs: cur_lhs, op: cur_op, rhs: cur_rhs };
                    Node::BinExpr { lhs: Box::new(whole), op, rhs: Box::new(rhs) }
                } else {
                    Node::BinExpr {
                        lhs: cur_lhs,
                        op: cur_op,
                        rhs: Box::new(Node::BinExpr { lhs: cur_rhs, op, rhs: Box::new(rhs) }),
                    }
                }
            },
            other => Node::BinExpr { lhs: Box::new(other), op, rhs: Box::new(rhs) },
        }
    } else {
        Node::BinExpr { lhs: Box::new(expr), op, rhs: Box::new(rhs) }
    }
}

fn parse_ml_expr(toks: &Vec<Token>, pos: usize) -> (r: Result<(Node, usize), ParseErrorKind>)
    ensures
        node_ok(r, toks@, pos as int, spec_ml_expr(toks@, pos as int)),
    decreases toks@.len() - pos, 9nat,
{
    if pos < toks.len() {
        match &toks[pos] {
            Token::Func => {
                let p1 = require_token(toks, pos + 1, Token::Pal)?;
                let (params, p2) = parse_fn_params(toks, p1);
                let p3 = require_token(toks, p2, Token::Par)?;
                let (body, p4) = parse_block(toks, p3)?;
                Ok((Node::Func { params, body }, p4))
            },
            Token::Catch => {
                let (body, p1) = parse_block(toks, pos + 1)?;
                Ok((Node::Catch(body), p1))
            },
            _ => parse_il_expr(toks, pos),
        }
    } else {
        Err(ParseErrorKind::UnexpectedEOF)
    }
}

fn parse_il_expr(toks: &Vec<Token>, pos: usize) -> (r: Result<(Node, usize), ParseErrorKind>)
    ensures
        node_ok(r, toks@, pos as int, spec_il_expr(toks@, pos as int)),
    decreases toks@.len() - pos, 8nat,
{
    if pos < toks.len() {
        match &toks[pos] {
            Token::Or => {
                let (params, p1) = parse_fn_params(toks, pos + 1);
                let p2 = require_token(toks, p1, Token::Or)?;
                let (expr, p3) = parse_il_expr(toks, p2)?;
                Ok((Node::Lambda { params, expr: Box::new(expr) }, p3))
            },
            _ => parse_bin_expr(toks, pos),
        }
    } else {
        Err(ParseErrorKind::UnexpectedEOF)
    }
}

/// A chain of binary operators, combined by precedence climbing.
fn parse_bin_expr(toks: &Vec<Token>, pos: usize) -> (r: Result<(Node, usize), ParseErrorKind>)
    ensures
        node_ok(r, toks@, pos as int, spec_bin_expr(toks@, pos as int)),
    decreases toks@.len() - pos, 7nat,
{
    let (first, p1) = parse_un_expr(toks, pos)?;
    let mut expr = first;
    let mut p = p1;
    // the tree is rebuilt around its top only once this chain has built it;
    // a parenthesised operand is never taken apart
    let mut break_left = false;
    loop
        invariant
            pos < p <= toks.len(),
            spec_bin_expr(toks@, pos as int) == spec_bin_tail(toks@, p as int, expr@, break_left),
        ensures
            pos < p <= toks.len(),
            spec_bin_expr(toks@, pos as int) == Ok::<(SNode, int), ParseErrorKind>((expr@, p as int)),
        decreases toks.len() - p,
    {
        if p >= toks.len() {
            break;
        }
        let prec = op_precedence(&toks[p]);
        if let Op::Unbound = prec {
            break;
        }
        let op = toks[p].duplicate();
        let (rhs, p2) = parse_un_expr(toks, p + 1)?;
        expr = climb(expr, break_left, op, rhs);
        p = p2;
        break_left = true;
    }
    Ok((expr, p))
}

fn parse_un_expr(toks: &Vec<Token>, pos: usize) -> (r: Result<(Node, usize), ParseErrorKind>)
    ensures
        node_ok(r, toks@, pos as int, spec_un_expr(toks@, pos as int)),
    decreases toks@.len() - pos, 6nat,
{
    if pos < toks.len() {
        let tok = &toks[pos];
        if tok.is(&Token::Sub) || tok.is(&Token::Not) || tok.is(&Token::Neg) {
            let (val, p1) = parse_un_expr(toks, pos + 1)?;
            Ok((Node::UnExpr { val: Box::new(val), op: tok.duplicate() }, p1))
        } else {
            parse_simple(toks, pos)
        }
    } else {
        Err(ParseErrorKind::UnexpectedEOF)
    }
}

/// Names separated by commas; possibly none.
fn parse_fn_params(toks: &Vec<Token>, pos: usize) -> (r: (Vec<String>, usize))
    requires
        pos <= toks.len(),
    ensures
        (r.0@, r.1 as int) == spec_fn_params(toks@, pos as int, seq![]),
        pos <= r.1 <= toks.len(),
{
    let mut params: Vec<String> = Vec::new();
    let mut p = pos;
    loop
        invariant_except_break
            spec_fn_params(toks@, pos as int, seq![]) == spec_fn_params(toks@, p as int, params@),
        invariant
            pos <= p <= toks.len(),
        ensures
            pos <= p <= toks.len(),
            spec_fn_params(toks@, pos as int, seq![]) == (params@, p as int),
        decreases toks.len() - p,
    {
        if p >= toks.len() {
            break;
        }
        match &toks[p] {
            Token::Name(x) => {
                params.push(x.clone());
                let (more, next) = use_token(toks, p + 1, Token::Com);
                p = next;
                if !more {
                    break;
                }
            },
            _ => break,
        }
    }
    (params, p)
}

fn parse_fn_args(toks: &Vec<Token>, pos: usize) -> (r: Result<(Vec<Node>, usize), ParseErrorKind>)
    ensures
        nodes_ok(r, toks@, pos as int, spec_fn_args(toks@, pos as int)),
    decreases toks@.len() - pos, 2nat,
{
    let mut p = require_token(toks, pos, Token::Pal)?;
    let mut args: Vec<Node> = Vec::new();
    loop
        invariant_except_break
            spec_fn_args(toks@, pos as int) == spec_args_tail(toks@, p as int, nodes_view(args@)),
        invariant
            pos < p <= toks.len(),
        ensures
            pos < p <= toks.len(),
            spec_fn_args(toks@, pos as int) == match spec_require(toks@, p as int, Token::Par) {
                Ok(p2) => Ok((nodes_view(args@), p2)),
                Err(e) => Err(e),
            },
        decreases toks.len() - p,
    {
        if peek_token(toks, p, Token::Par) {
            break;
        }
        let (arg, p1) = parse_il_expr(toks, p)?;
        proof {
            lemma_nodes_view_push(args@, arg);
        }
        args.push(arg);
        let (more, next) = use_token(toks, p1, Token::Com);
        p = next;
        if !more {
            break;
        }
    }
    let p_end = require_token(toks, p, Token::Par)?;
    Ok((args, p_end))
}

/// An atom followed by any chain of `.name`, `[expr]`, `(args)` and `:name(args)`.
fn parse_simple(toks: &Vec<Token>, pos: usize) -> (r: Result<(Node, usize), ParseErrorKind>)
    ensures
        node_ok(r, toks@, pos as int, spec_simple(toks@, pos as int)),
    decreases toks@.len() - pos, 5nat,
{
    let (first, p1) = parse_atom(toks, pos)?;
    let mut atom = first;
    let mut p = p1;
    loop
        invariant
            pos < p <= toks.len(),
            spec_simple(toks@, pos as int) == spec_simple_tail(toks@, p as int, atom@),
        ensures
            pos < p <= toks.len(),
            spec_simple(toks@, pos as int) == Ok::<(SNode, int), ParseErrorKind>((atom@, p as int)),
        decreases toks.len() - p,
    {
        if p >= toks.len() {
            break;
        }
        match &toks[p] {
            Token::Col => {
                let (method, p1) = parse_name_as_str(toks, p + 1)?;
                let (args, p2) = parse_fn_args(toks, p1)?;
                atom = Node::Method { owner: Box::new(atom), method: Box::new(method), args };
                p = p2;
            },
            Token::Pal => {
                let (args, p1) = parse_fn_args(toks, p)?;
                atom = Node::Call { func: Box::new(atom), args };
                p = p1;
            },
            Token::Sql => {
                let (idx, p1) = parse_bin_expr(toks, p + 1)?;
                let p2 = require_token(toks, p1, Token::Sqr)?;
                atom = Node::Index { lhs: Box::new(atom), rhs: Box::new(idx) };
                p = p2;
            },
            Token::Dot => {
                let (idx, p1) = parse_name_as_str(toks, p + 1)?;
                atom = Node::Index { lhs: Box::new(atom), rhs: Box::new(idx) };
                p = p1;
            },
            _ => break,
        }
    }
    Ok((atom, p))
}

fn parse_atom(toks: &Vec<Token>, pos: usize) -> (r: Result<(Node, usize), ParseErrorKind>)
    ensures
        node_ok(r, toks@, pos as int, spec_atom(toks@, pos as int)),
    decreases toks@.len() - pos, 4nat,
{
    if pos < toks.len() {
        match &toks[pos] {
            Token::Pal => {
                let (out, p1) = parse_bin_expr(toks, pos + 1)?;
                let p2 = require_token(toks, p1, Token::Par)?;
                Ok((out, p2))
            },
            _ => parse_quark(toks, pos),
        }
    } else {
        Err(ParseErrorKind::UnexpectedEOF)
    }
}

/// A name, read as a string literal (a field or method name).
fn parse_name_as_str(toks: &Vec<Token>, pos: usize) -> (r: Result<(Node, usize), ParseErrorKind>)
    ensures
        node_ok(r, toks@, pos as int, spec_name_as_str(toks@, pos as int)),
{
    if pos < toks.len() {
        match &toks[pos] {
            Token::Name(x) => Ok((Node::Str(x.clone()), pos + 1)),
            t => Err(ParseErrorKind::UnexpectedToken(t.duplicate())),
        }
    } else {
        Err(ParseErrorKind::UnexpectedEOF)
    }
}

/// A name, read as a variable reference.
pub fn parse_name(toks: &Vec<Token>, pos: usize) -> (r: Result<(Node, usize), ParseErrorKind>)
    ensures
        node_ok(r, toks@, pos as int, spec_name(toks@, pos as int)),
{
    if pos < toks.len() {
        match &toks[pos] {
            Token::Name(x) => Ok((Node::Name(x.clone()), pos + 1)),
            t => Err(ParseErrorKind::UnexpectedToken(t.duplicate())),
        }
    } else {
        Err(ParseErrorKind::UnexpectedEOF)
    }
}

/// A literal or a name at `pos`, and the position after it.
pub fn parse_quark(toks: &Vec<Token>, pos: usize) -> (r: Result<(Node, usize), ParseErrorKind>)
    ensures
        node_ok(r, toks@, pos as int, spec_quark(toks@, pos as int)),
{
    if pos < toks.len() {
        match &toks[pos] {
            Token::Null => Ok((Node::Null, pos + 1)),
            Token::Bool(x) => Ok((Node::Bool(*x), pos + 1)),
            Token::Float(x) => Ok((Node::Float(*x), pos + 1)),
            Token::Int(x) => Ok((Node::Int(*x), pos + 1)),
            Token::Str(x) => Ok((Node::Str(x.clone()), pos + 1)),
            Token::Name(x) => Ok((Node::Name(x.clone()), pos + 1)),
            Token::Table => Ok((Node::Table, pos + 1)),
            t => Err(ParseErrorKind::UnexpectedToken(t.duplicate())),
        }
    } else {
        Err(ParseErrorKind::UnexpectedEOF)
    }
}

/// A declaration target: a name, or a bracketed list of targets.
fn parse_decl(toks: &Vec<Token>, pos: usize) -> (r: Result<(Var, usize), ParseErrorKind>)
    ensures
        var_ok(r, toks@, pos as int, spec_decl(toks@, pos as int)),
    decreases toks@.len() - pos, 1nat,
{
    if pos < toks.len() {
        match &toks[pos] {
            Token::Sql => {
                let mut pieces: Vec<Var> = Vec::new();
                let mut p = pos + 1;
                loop
                    invariant_except_break
                        spec_decl(toks@, pos as int) == spec_decl_tail(toks@, p as int, vars_view(pieces@)),
                    invariant
                        pos < p <= toks.len(),
                    ensures
                        pos < p <= toks.len(),
                        spec_decl(toks@, pos as int) == match spec_require(toks@, p as int, Token::Sqr) {
                            Ok(p2) => Ok((SVar::Multi(vars_view(pieces@)), p2)),
                            Err(e) => Err(e),
                        },
                    decreases toks.len() - p,
                {
                    let (piece, p1) = parse_decl(toks, p)?;
                    proof {
                        lemma_vars_view_push(pieces@, piece);
                    }
                    pieces.push(piece);
                    let (more, next) = use_token(toks, p1, Token::Com);
                    p = next;
                    if !more {
                        break;
                    }
                }
                let p_end = require_token(toks, p, Token::Sqr)?;
                Ok((Var::Multi(pieces), p_end))
            },
            Token::Name(x) => Ok((Var::Single(x.clone()), pos + 1)),
            t => Err(ParseErrorKind::UnexpectedToken(t.duplicate())),
        }
    } else {
        Err(ParseErrorKind::UnexpectedEOF)
    }
}

/// An assignment target: any expression, or a bracketed list of targets.
fn parse_place(toks: &Vec<Token>, pos: usize) -> (r: Result<(Place, usize), ParseErrorKind>)
    ensures
        place_ok(r, toks@, pos as int, spec_place(toks@, pos as int)),
    decreases toks@.len() - pos, 10nat,
{
    if pos < toks.len() {
        match &toks[pos] {
            Token::Sql => {
                let mut pieces: Vec<Place> = Vec::new();
                let mut p = pos + 1;
                loop
                    invariant_except_break
                        spec_place(toks@, pos as int) == spec_place_tail(toks@, p as int, places_view(pieces@)),
                    invariant
                        pos < p <= toks.len(),
                    ensures
                        pos < p <= toks.len(),
                        spec_place(toks@, pos as int) == match spec_require(toks@, p as int, Token::Sqr) {
                            Ok(p2) => Ok((SPlace::Multi(places_view(pieces@)), p2)),
                            Err(e) => Err(e),
                        },
                    decreases toks.len() - p,
                {
                    let (piece, p1) = parse_place(toks, p)?;
                    proof {
                        lemma_places_view_push(pieces@, piece);
                    }
                    pieces.push(piece);
                    let (more, next) = use_token(toks, p1, Token::Com);
                    p = next;
                    if !more {
                        break;
                    }
                }
                let p_end = require_token(toks, p, Token::Sqr)?;
                Ok((Place::Multi(pieces), p_end))
            },
            _ => {
                let (node, p1) = parse_il_expr(toks, pos)?;
                Ok((Place::Single(Box::new(node)), p1))
            },
        }
    } else {
        Err(ParseErrorKind::UnexpectedEOF)
    }
}

/// An assignment, or an expression statement where no `=` follows.
fn parse_assn(toks: &Vec<Token>, pos: usize) -> (r: Result<(Node, usize), ParseErrorKind>)
    ensures
        node_ok(r, toks@, pos as int, spec_assn(toks@, pos as int)),
    decreases toks@.len() - pos, 11nat,
{
    let (place, p1) = parse_place(toks, pos)?;
    if p1 < toks.len() {
        if toks[p1].is(&Token::Ass) {
            let (rhs, p2) = parse_ml_expr(toks, p1 + 1)?;
            Ok((Node::Assn { lhs: place, rhs: Box::new(rhs) }, p2))
        } else {
            match place {
                Place::Single(bx) => Ok((Node::Stmt(bx), p1)),
                Place::Multi(_) => Err(ParseErrorKind::UnusedPlaces),
            }
        }
    } else {
        Err(ParseErrorKind::UnexpectedEOF)
    }
}

fn parse_if(toks: &Vec<Token>, pos: usize) -> (r: Result<(Node, usize), ParseErrorKind>)
    requires
        pos < toks.len(),
    ensures
        node_ok(r, toks@, pos as int, spec_if(toks@, pos as int)),
    decreases toks@.len() - pos, 11nat,
{
    let (cond, p1) = parse_bin_expr(toks, pos + 1)?;
    let (body, p2) = parse_block(toks, p1)?;
    Ok((Node::If { cond: Box::new(cond), body, els: None }, p2))
}

fn parse_else(toks: &Vec<Token>, pos: usize) -> (r: Result<(Node, usize), ParseErrorKind>)
    requires
        pos < toks.len(),
    ensures
        node_ok(r, toks@, pos as int, spec_else(toks@, pos as int)),
    decreases toks@.len() - pos, 11nat,
{
    if peek_token(toks, pos + 1, Token::If) {
        let (cond, p1) = parse_bin_expr(toks, pos + 2)?;
        let (body, p2) = parse_block(toks, p1)?;
        Ok((Node::ElseIf { cond: Box::new(cond), body }, p2))
    } else {
        let (body, p1) = parse_block(toks, pos + 1)?;
        Ok((Node::Else { body }, p1))
    }
}

fn parse_for(toks: &Vec<Token>, pos: usize) -> (r: Result<(Node, usize), ParseErrorKind>)
    requires
        pos < toks.len(),
    ensures
        node_ok(r, toks@, pos as int, spec_for(toks@, pos as int)),
    decreases toks@.len() - pos, 11nat,
{
    let (decl, p1) = parse_decl(toks, pos + 1)?;
    let p2 = require_token(toks, p1, Token::In)?;
    let (expr, p3) = parse_il_expr(toks, p2)?;
    let (body, p4) = parse_block(toks, p3)?;
    Ok((Node::For { decl, expr: Box::new(expr), body }, p4))
}

fn parse_while(toks: &Vec<Token>, pos: usize) -> (r: Result<(Node, usize), ParseErrorKind>)
    requires
        pos < toks.len(),
    ensures
        node_ok(r, toks@, pos as int, spec_while(toks@, pos as int)),
    decreases toks@.len() - pos, 11nat,
{
    let (expr, p1) = parse_il_expr(toks, pos + 1)?;
    let (body, p2) = parse_block(toks, p1)?;
    Ok((Node::While { expr: Box::new(expr), body }, p2))
}

fn parse_stmt(toks: &Vec<Token>, pos: usize) -> (r: Result<(Node, usize), ParseErrorKind>)
    ensures
        node_ok(r, toks@, pos as int, spec_stmt(toks@, pos as int)),
    decreases toks@.len() - pos, 12nat,
{
    if pos >= toks.len() {
        return Err(ParseErrorKind::UnexpectedEOF);
    }
    match &toks[pos] {
        Token::Break => Ok((Node::Break, pos + 1)),
        Token::Continue => Ok((Node::Continue, pos + 1)),
        Token::If => parse_if(toks, pos),
        Token::Else => parse_else(toks, pos),
        Token::For => parse_for(toks, pos),
        Token::While => parse_while(toks, pos),
        Token::Loop => {
            let (body, p1) = parse_block(toks, pos + 1)?;
            Ok((Node::Loop { body }, p1))
        },
        Token::Return => {
            if peek_token(toks, pos + 1, Token::End) {
                Ok((Node::Return(None), pos + 1))
            } else {
                let (val, p1) = parse_ml_expr(toks, pos + 1)?;
                Ok((Node::Return(Some(Box::new(val))), p1))
            }
        },
        Token::Pass => Ok((Node::Pass, pos + 1)),
        Token::Func | Token::Catch => {
            let (expr, p1) = parse_ml_expr(toks, pos)?;
            Ok((Node::Stmt(Box::new(expr)), p1))
        },
        _ => parse_assn(toks, pos),
    }
}

/// `Enter`, statements each closed by `End`, then `Exit`.
fn parse_block(toks: &Vec<Token>, pos: usize) -> (r: Result<(Vec<Node>, usize), ParseErrorKind>)
    ensures
        nodes_ok(r, toks@, pos as int, spec_block(toks@, pos as int)),
    decreases toks@.len() - pos, 1nat,
{
    let mut p = require_token(toks, pos, Token::Enter)?;
    let mut nodes: Vec<Node> = Vec::new();
    loop
        invariant
            pos < p <= toks.len(),
            spec_block(toks@, pos as int) == spec_block_tail(toks@, p as int, nodes_view(nodes@)),
        ensures
            pos < p <= toks.len(),
            peek_is(toks@, p as int, Token::Exit),
            spec_block(toks@, pos as int) == spec_block_tail(toks@, p as int, nodes_view(nodes@)),
        decreases toks.len() - p,
    {
        if peek_token(toks, p, Token::Exit) {
            break;
        }
        let (stmt, p1) = parse_stmt(toks, p)?;
        proof {
            lemma_nodes_view_push(nodes@, stmt);
        }
        nodes.push(stmt);
        p = require_token(toks, p1, Token::End)?;
    }
    let p_end = require_token(toks, p, Token::Exit)?;
    Ok((nodes, p_end))
}

/// Parses a whole program: statements each closed by `End`, up to `EOF`.
/// The result is the program's `Block`, exactly as the grammar gives it.
pub fn parse(tokens: Vec<Token>) -> (r: Result<Node, ParseErrorKind>)
    ensures
        result_view(r) == spec_parse(tokens@),
        r is Ok ==> r->Ok_0 is Block,
{
    let mut p: usize = 0;
    let mut nodes: Vec<Node> = Vec::new();
    loop
        invariant
            p <= tokens.len(),
            spec_parse(tokens@) == spec_program(tokens@, p as int, nodes_view(nodes@)),
        ensures
            peek_is(tokens@, p as int, Token::EOF),
            spec_parse(tokens@) == spec_program(tokens@, p as int, nodes_view(nodes@)),
        decreases tokens.len() - p,
    {
        if peek_token(&tokens, p, Token::EOF) {
            break;
        }
        let (stmt, p1) = parse_stmt(&tokens, p)?;
        proof {
            lemma_nodes_view_push(nodes@, stmt);
        }
        nodes.push(stmt);
        p = require_token(&tokens, p1, Token::End)?;
    }
    Ok(Node::Block(nodes))
}

/// Parsing is a function of the token sequence: equal sequences give equal
/// outcomes, so two parses of one sequence build structurally equal trees.
pub proof fn lemma_parse_deterministic(a: Seq<Token>, b: Seq<Token>)
    requires
        a == b,
    ensures
        spec_parse(a) == spec_parse(b),
{
}

/// A token stream cut off before its `EOF` never parses: whatever statements
/// it holds, the result is an error.
pub proof fn lemma_cut_off_input_fails(toks: Seq<Token>, pos: int, acc: Seq<SNode>)
    requires
        forall|i: int| 0 <= i < toks.len() ==> toks[i] != Token::EOF,
    ensures
        spec_program(toks, pos, acc) is Err,
    decreases toks.len() - pos,
{
    if !peek_is(toks, pos, Token::EOF) {
        match spec_stmt(toks, pos) {
            Err(_) => {},
            Ok((s, p1)) => match spec_require(toks, p1, Token::End) {
                Err(_) => {},
                Ok(p2) => if moved(toks, pos, p2) {
                    lemma_cut_off_input_fails(toks, p2, acc.push(s));
                },
            },
        }
    }
}

} // verus!
