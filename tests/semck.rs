use langfront::ast::{Node, Place};
use langfront::parser::parse;
use langfront::semck::{CheckErrorKind, SemChecker};
use langfront::token::Token;

fn name(s: &str) -> Token {
    Token::Name(String::from(s))
}

fn check_program(toks: Vec<Token>) -> Result<(), CheckErrorKind> {
    let mut ast = parse(toks).unwrap();
    let mut ck = SemChecker::new();
    ck.check(&mut ast)
}

#[test]
fn break_outside_loop() {
    assert_eq!(check_program(vec![Token::Break, Token::End, Token::EOF]), Err(CheckErrorKind::NotInLoop));
}

#[test]
fn continue_outside_loop() {
    assert_eq!(check_program(vec![Token::Continue, Token::End, Token::EOF]), Err(CheckErrorKind::NotInLoop));
}

#[test]
fn break_inside_loops() {
    for head in [vec![Token::Loop], vec![Token::While, Token::Bool(true)], vec![Token::For, name("x"), Token::In, name("t")]] {
        let mut toks = head;
        toks.extend(vec![Token::Enter, Token::Break, Token::End, Token::Exit, Token::End, Token::EOF]);
        assert_eq!(check_program(toks), Ok(()));
    }
}

#[test]
fn break_after_inner_loop_loses_context() {
    // loop { loop { } ; break }
    let toks = vec![
        Token::Loop,
        Token::Enter,
        Token::Loop,
        Token::Enter,
        Token::Exit,
        Token::End,
        Token::Break,
        Token::End,
        Token::Exit,
        Token::End,
        Token::EOF,
    ];
    assert_eq!(check_program(toks), Err(CheckErrorKind::NotInLoop));
}

#[test]
fn break_inside_catch_outside_loop() {
    let toks = vec![Token::Catch, Token::Enter, Token::Break, Token::End, Token::Exit, Token::End, Token::EOF];
    assert_eq!(check_program(toks), Err(CheckErrorKind::NotInLoop));
}

#[test]
fn literal_targets_are_not_places() {
    // [1, 2] = x
    let toks = vec![Token::Sql, Token::Int(1), Token::Com, Token::Int(2), Token::Sqr, Token::Ass, name("x"), Token::End, Token::EOF];
    assert_eq!(check_program(toks), Err(CheckErrorKind::NotPlace));
}

#[test]
fn name_targets_are_places() {
    // [a, b] = x
    let toks = vec![Token::Sql, name("a"), Token::Com, name("b"), Token::Sqr, Token::Ass, name("x"), Token::End, Token::EOF];
    assert_eq!(check_program(toks), Ok(()));
}

#[test]
fn index_target_is_place() {
    // a[1] = 2
    let toks = vec![name("a"), Token::Sql, Token::Int(1), Token::Sqr, Token::Ass, Token::Int(2), Token::End, Token::EOF];
    assert_eq!(check_program(toks), Ok(()));
}

#[test]
fn nested_invalid_target() {
    let mut ast = Node::Assn {
        lhs: Place::Multi(vec![
            Place::Single(Box::new(Node::Name(String::from("a")))),
            Place::Multi(vec![Place::Single(Box::new(Node::Int(3)))]),
        ]),
        rhs: Box::new(Node::Null),
    };
    let mut ck = SemChecker::new();
    assert_eq!(ck.check(&mut ast), Err(CheckErrorKind::NotPlace));
}

#[test]
fn check_leaves_tree_unchanged() {
    let toks = vec![Token::Loop, Token::Enter, Token::Break, Token::End, Token::Exit, Token::End, Token::EOF];
    let mut ast = parse(toks.clone()).unwrap();
    let mut ck = SemChecker::new();
    assert_eq!(ck.check(&mut ast), Ok(()));
    assert_eq!(ast, parse(toks).unwrap());
}

#[test]
fn break_in_if_outside_loop() {
    // if true { break }
    let toks = vec![Token::If, Token::Bool(true), Token::Enter, Token::Break, Token::End, Token::Exit, Token::End, Token::EOF];
    assert_eq!(check_program(toks), Err(CheckErrorKind::NotInLoop));
}

#[test]
fn break_in_else_outside_loop() {
    let toks = vec![Token::Else, Token::Enter, Token::Continue, Token::End, Token::Exit, Token::End, Token::EOF];
    assert_eq!(check_program(toks), Err(CheckErrorKind::NotInLoop));
}

#[test]
fn break_in_if_inside_loop() {
    // loop { if true { break } }
    let toks = vec![
        Token::Loop,
        Token::Enter,
        Token::If,
        Token::Bool(true),
        Token::Enter,
        Token::Break,
        Token::End,
        Token::Exit,
        Token::End,
        Token::Exit,
        Token::End,
        Token::EOF,
    ];
    assert_eq!(check_program(toks), Ok(()));
}

#[test]
fn function_literal_body_is_checked() {
    // f = func() { break }
    let toks = vec![
        name("f"),
        Token::Ass,
        Token::Func,
        Token::Pal,
        Token::Par,
        Token::Enter,
        Token::Break,
        Token::End,
        Token::Exit,
        Token::End,
        Token::EOF,
    ];
    assert_eq!(check_program(toks), Err(CheckErrorKind::NotInLoop));
}

#[test]
fn call_arguments_are_checked() {
    let mut ast = Node::Call {
        func: Box::new(Node::Name(String::from("g"))),
        args: vec![Node::Lambda { params: vec![], expr: Box::new(Node::Break) }],
    };
    let mut ck = SemChecker::new();
    assert_eq!(ck.check(&mut ast), Err(CheckErrorKind::NotInLoop));
}

#[test]
fn failed_loop_body_leaves_no_loop_context() {
    let mut ck = SemChecker::new();
    let mut bad_loop = Node::Block(vec![Node::Loop {
        body: vec![Node::Assn { lhs: Place::Single(Box::new(Node::Int(1))), rhs: Box::new(Node::Int(2)) }],
    }]);
    assert_eq!(ck.check(&mut bad_loop), Err(CheckErrorKind::NotPlace));
    let mut bare_break = Node::Block(vec![Node::Break]);
    assert_eq!(ck.check(&mut bare_break), Err(CheckErrorKind::NotInLoop));
}
