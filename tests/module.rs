use langfront::module::{analyze, Module, ModuleErrorKind};
use langfront::parser::ParseErrorKind;
use langfront::semck::CheckErrorKind;
use langfront::token::Token;

fn program() -> Vec<Token> {
    vec![Token::Name(String::from("x")), Token::Ass, Token::Int(1), Token::End, Token::EOF]
}

#[test]
fn same_bytes_same_fingerprint() {
    let a = analyze(program(), Ok(vec![1, 2, 3])).unwrap();
    let b = analyze(program(), Ok(vec![1, 2, 3])).unwrap();
    assert_eq!(a.lex_hash, b.lex_hash);
    assert_eq!(a.ast, b.ast);
}

#[test]
fn different_bytes_different_fingerprint() {
    let a = analyze(program(), Ok(vec![1, 2, 3])).unwrap();
    let b = analyze(program(), Ok(vec![1, 2, 4])).unwrap();
    assert_ne!(a.lex_hash, b.lex_hash);
}

#[test]
fn fingerprint_is_a_digest() {
    let bytes: Vec<u8> = vec![1, 2, 3, 4, 5, 6, 7, 8];
    let a = analyze(program(), Ok(bytes.clone())).unwrap();
    assert_ne!(a.lex_hash.to_vec(), bytes);
    let empty = analyze(program(), Ok(vec![])).unwrap();
    assert_ne!(empty.lex_hash, [0u8; 8]);
}

#[test]
fn serialisation_error_comes_first() {
    let r = analyze(vec![Token::Break], Err(String::from("bad")));
    assert_eq!(r, Err(ModuleErrorKind::BincodeError(String::from("bad"))));
}

#[test]
fn parse_error_is_tagged() {
    let r = analyze(vec![Token::Pal], Ok(vec![0]));
    assert_eq!(r, Err(ModuleErrorKind::ParseError(ParseErrorKind::UnexpectedEOF)));
}

#[test]
fn check_error_is_tagged() {
    let r = analyze(vec![Token::Break, Token::End, Token::EOF], Ok(vec![0]));
    assert_eq!(r, Err(ModuleErrorKind::CheckError(CheckErrorKind::NotInLoop)));
}

#[test]
fn module_packages_compiled_code() {
    let checked = analyze(program(), Ok(vec![9])).unwrap();
    let hash = checked.lex_hash;
    let m: Module<u8, i64> = Module::new(checked, Ok((vec![1, 2], vec![7]))).unwrap();
    assert_eq!(m.lex_hash, hash);
    assert_eq!(m.code, vec![1, 2]);
    assert_eq!(m.consts, vec![7]);
}

#[test]
fn compile_error_is_tagged() {
    let checked = analyze(program(), Ok(vec![9])).unwrap();
    let r: Result<Module<u8, i64>, ModuleErrorKind> = Module::new(checked, Err(String::from("no")));
    assert_eq!(r, Err(ModuleErrorKind::CompileError(String::from("no"))));
}
