use langfront::ast::{Node, Place, Var};
use langfront::parser::{binds_at_top, climb, op_precedence, parse, parse_name, parse_quark, Op, ParseErrorKind};
use langfront::token::Token;

fn name(s: &str) -> Token {
    Token::Name(String::from(s))
}

fn lit(n: i64) -> Box<Node> {
    Box::new(Node::Int(n))
}

fn bin(lhs: Box<Node>, op: Token, rhs: Box<Node>) -> Box<Node> {
    Box::new(Node::BinExpr { lhs, op, rhs })
}

/// One expression statement followed by the program's end.
fn expr_program(mut toks: Vec<Token>) -> Vec<Token> {
    toks.push(Token::End);
    toks.push(Token::EOF);
    toks
}

fn single_stmt(n: Box<Node>) -> Result<Node, ParseErrorKind> {
    Ok(Node::Block(vec![Node::Stmt(n)]))
}

#[test]
fn parse_quarks() {
    let toks = vec![
        Token::Null,
        Token::Bool(true),
        Token::Bool(false),
        Token::Float(1.3f64.to_bits()),
        Token::Float(0.3f64.to_bits()),
        Token::Int(2),
        Token::Int(3),
        name("name"),
        Token::Table,
        Token::End,
        Token::EOF,
    ];
    let mut pos: usize = 0;
    let expected = vec![
        Node::Null,
        Node::Bool(true),
        Node::Bool(false),
        Node::Float(1.3f64.to_bits()),
        Node::Float(0.3f64.to_bits()),
        Node::Int(2),
        Node::Int(3),
        Node::Name(String::from("name")),
        Node::Table,
    ];
    for e in expected {
        let (n, next) = parse_quark(&toks, pos).unwrap();
        assert_eq!(n, e);
        assert_eq!(next, pos + 1);
        pos = next;
    }
    assert_eq!(parse_quark(&toks, pos), Err(ParseErrorKind::UnexpectedToken(Token::End)));
    pos += 1;
    assert_eq!(parse_quark(&toks, pos), Err(ParseErrorKind::UnexpectedToken(Token::EOF)));
    pos += 1;
    assert_eq!(parse_quark(&toks, pos), Err(ParseErrorKind::UnexpectedEOF));
}

#[test]
fn parse_name_reads_reference() {
    let toks = vec![name("x"), Token::Int(1)];
    assert_eq!(parse_name(&toks, 0), Ok((Node::Name(String::from("x")), 1)));
    assert_eq!(parse_name(&toks, 1), Err(ParseErrorKind::UnexpectedToken(Token::Int(1))));
    assert_eq!(parse_name(&toks, 2), Err(ParseErrorKind::UnexpectedEOF));
}

#[test]
fn mul_binds_tighter_than_add() {
    let toks = expr_program(vec![Token::Int(2), Token::Add, Token::Int(3), Token::Mul, Token::Int(4)]);
    assert_eq!(parse(toks), single_stmt(bin(lit(2), Token::Add, bin(lit(3), Token::Mul, lit(4)))));
}

#[test]
fn mul_first_then_add() {
    let toks = expr_program(vec![Token::Int(2), Token::Mul, Token::Int(3), Token::Add, Token::Int(4)]);
    assert_eq!(parse(toks), single_stmt(bin(bin(lit(2), Token::Mul, lit(3)), Token::Add, lit(4))));
}

#[test]
fn sub_is_left_associative() {
    let toks = expr_program(vec![Token::Int(2), Token::Sub, Token::Int(3), Token::Sub, Token::Int(4)]);
    assert_eq!(parse(toks), single_stmt(bin(bin(lit(2), Token::Sub, lit(3)), Token::Sub, lit(4))));
}

#[test]
fn exponent_is_right_associative() {
    let toks = expr_program(vec![Token::Int(2), Token::Car, Token::Int(3), Token::Car, Token::Int(4)]);
    assert_eq!(parse(toks), single_stmt(bin(lit(2), Token::Car, bin(lit(3), Token::Car, lit(4)))));
}

#[test]
fn parenthesised_operand_is_kept() {
    let toks = expr_program(vec![
        Token::Pal,
        Token::Int(2),
        Token::Add,
        Token::Int(3),
        Token::Par,
        Token::Mul,
        Token::Int(4),
    ]);
    assert_eq!(parse(toks), single_stmt(bin(bin(lit(2), Token::Add, lit(3)), Token::Mul, lit(4))));
}

#[test]
fn unary_minus_nests() {
    let toks = expr_program(vec![Token::Sub, Token::Sub, Token::Int(2)]);
    let inner = Box::new(Node::UnExpr { val: lit(2), op: Token::Sub });
    assert_eq!(parse(toks), single_stmt(Box::new(Node::UnExpr { val: inner, op: Token::Sub })));
}

#[test]
fn unary_binds_tighter_than_binary() {
    let toks = expr_program(vec![Token::Not, Token::Int(1), Token::Add, Token::Int(2)]);
    let neg = Box::new(Node::UnExpr { val: lit(1), op: Token::Not });
    assert_eq!(parse(toks), single_stmt(bin(neg, Token::Add, lit(2))));
}

#[test]
fn parse_is_deterministic() {
    let toks = expr_program(vec![name("f"), Token::Pal, Token::Int(1), Token::Com, Token::Int(2), Token::Par]);
    let a = parse(toks.clone());
    let b = parse(toks);
    assert!(a.is_ok());
    assert_eq!(a, b);
}

#[test]
fn empty_program_is_empty_block() {
    assert_eq!(parse(vec![Token::EOF]), Ok(Node::Block(vec![])));
}

#[test]
fn postfix_chain() {
    // a.b[1]:m(2)
    let toks = expr_program(vec![
        name("a"),
        Token::Dot,
        name("b"),
        Token::Sql,
        Token::Int(1),
        Token::Sqr,
        Token::Col,
        name("m"),
        Token::Pal,
        Token::Int(2),
        Token::Par,
    ]);
    let field = Box::new(Node::Index { lhs: Box::new(Node::Name(String::from("a"))), rhs: Box::new(Node::Str(String::from("b"))) });
    let index = Box::new(Node::Index { lhs: field, rhs: lit(1) });
    let method = Node::Method { owner: index, method: Box::new(Node::Str(String::from("m"))), args: vec![Node::Int(2)] };
    assert_eq!(parse(toks), single_stmt(Box::new(method)));
}

#[test]
fn lambda_and_assignment() {
    // f = |x, y| x
    let toks = expr_program(vec![name("f"), Token::Ass, Token::Or, name("x"), Token::Com, name("y"), Token::Or, name("x")]);
    let lambda = Node::Lambda { params: vec![String::from("x"), String::from("y")], expr: Box::new(Node::Name(String::from("x"))) };
    let assn = Node::Assn { lhs: Place::Single(Box::new(Node::Name(String::from("f")))), rhs: Box::new(lambda) };
    assert_eq!(parse(toks), Ok(Node::Block(vec![assn])));
}

#[test]
fn function_literal_and_return() {
    // func(a) { return a } ; return
    let toks = vec![
        Token::Func,
        Token::Pal,
        name("a"),
        Token::Par,
        Token::Enter,
        Token::Return,
        name("a"),
        Token::End,
        Token::Exit,
        Token::End,
        Token::Return,
        Token::End,
        Token::EOF,
    ];
    let body = vec![Node::Return(Some(Box::new(Node::Name(String::from("a")))))];
    let func = Node::Func { params: vec![String::from("a")], body };
    assert_eq!(parse(toks), Ok(Node::Block(vec![Node::Stmt(Box::new(func)), Node::Return(None)])));
}

#[test]
fn for_loop_with_nested_declaration() {
    // for [a, [b, c]] in t { pass }
    let toks = vec![
        Token::For,
        Token::Sql,
        name("a"),
        Token::Com,
        Token::Sql,
        name("b"),
        Token::Com,
        name("c"),
        Token::Sqr,
        Token::Sqr,
        Token::In,
        name("t"),
        Token::Enter,
        Token::Pass,
        Token::End,
        Token::Exit,
        Token::End,
        Token::EOF,
    ];
    let decl = Var::Multi(vec![
        Var::Single(String::from("a")),
        Var::Multi(vec![Var::Single(String::from("b")), Var::Single(String::from("c"))]),
    ]);
    let node = Node::For { decl, expr: Box::new(Node::Name(String::from("t"))), body: vec![Node::Pass] };
    assert_eq!(parse(toks), Ok(Node::Block(vec![node])));
}

#[test]
fn if_else_chain_is_not_linked() {
    let toks = vec![
        Token::If,
        Token::Bool(true),
        Token::Enter,
        Token::Exit,
        Token::End,
        Token::Else,
        Token::If,
        Token::Bool(false),
        Token::Enter,
        Token::Exit,
        Token::End,
        Token::Else,
        Token::Enter,
        Token::Exit,
        Token::End,
        Token::EOF,
    ];
    let expected = Node::Block(vec![
        Node::If { cond: Box::new(Node::Bool(true)), body: vec![], els: None },
        Node::ElseIf { cond: Box::new(Node::Bool(false)), body: vec![] },
        Node::Else { body: vec![] },
    ]);
    assert_eq!(parse(toks), Ok(expected));
}

#[test]
fn bare_pattern_is_unused_places() {
    let toks = expr_program(vec![Token::Sql, name("a"), Token::Com, name("b"), Token::Sqr]);
    assert_eq!(parse(toks), Err(ParseErrorKind::UnusedPlaces));
}

#[test]
fn open_paren_then_end_of_stream() {
    assert_eq!(parse(vec![Token::Pal]), Err(ParseErrorKind::UnexpectedEOF));
}

#[test]
fn missing_end_marker_is_unexpected_token() {
    assert_eq!(
        parse(vec![Token::Int(1), Token::EOF]),
        Err(ParseErrorKind::UnexpectedToken(Token::EOF))
    );
}

#[test]
fn precedence_table() {
    assert_eq!(op_precedence(&Token::Add), Op::Left(10));
    assert_eq!(op_precedence(&Token::Sub), Op::Left(10));
    assert_eq!(op_precedence(&Token::Mul), Op::Left(20));
    assert_eq!(op_precedence(&Token::Div), Op::Left(20));
    assert_eq!(op_precedence(&Token::Car), Op::Right(30));
    assert_eq!(op_precedence(&Token::Ass), Op::Unbound);
}

#[test]
fn top_binding_rule() {
    assert!(binds_at_top(Op::Left(20), Op::Left(10)));
    assert!(binds_at_top(Op::Left(10), Op::Left(10)));
    assert!(!binds_at_top(Op::Left(10), Op::Left(20)));
    assert!(!binds_at_top(Op::Right(30), Op::Right(30)));
    assert!(binds_at_top(Op::Right(30), Op::Left(10)));
    assert!(!binds_at_top(Op::Left(20), Op::Right(30)));
}

#[test]
fn climb_attaches_to_rightmost_operand() {
    let built = *bin(lit(2), Token::Add, lit(3));
    let out = climb(built, true, Token::Mul, Node::Int(4));
    assert_eq!(out, *bin(lit(2), Token::Add, bin(lit(3), Token::Mul, lit(4))));
    let paren = *bin(lit(2), Token::Add, lit(3));
    let out = climb(paren, false, Token::Mul, Node::Int(4));
    assert_eq!(out, *bin(bin(lit(2), Token::Add, lit(3)), Token::Mul, lit(4)));
}

#[test]
fn cut_off_program_fails() {
    // x = (1 + 2) cut after each token
    let full = expr_program(vec![name("x"), Token::Ass, Token::Pal, Token::Int(1), Token::Add, Token::Int(2), Token::Par]);
    assert!(parse(full.clone()).is_ok());
    for k in 0..full.len() {
        let cut: Vec<Token> = full[..k].to_vec();
        assert!(parse(cut).is_err());
    }
    assert_eq!(parse(vec![name("x"), Token::Ass, Token::Pal, Token::Int(1)]), Err(ParseErrorKind::UnexpectedEOF));
}
