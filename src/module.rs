use vstd::prelude::*;
use blake2::Blake2bVar;
use blake2::digest::{Update, VariableOutput};
use crate::ast::{Node, SNode};
use crate::token::Token;
use crate::parser::{parse, spec_parse, ParseErrorKind};
use crate::semck::{check_node, CheckErrorKind, SemChecker};

verus! {

/// The 8-byte BLAKE2b digest of a byte sequence.
pub uninterp spec fn blake2b_8(data: Seq<u8>) -> Seq<u8>;

/// Relies on blake2's `Blake2bVar` with an output size of 8: the digest of
/// `data`, a function of the bytes alone. Size 8 is within BLAKE2b's 1..=64,
/// and the buffer has that size, so neither `unwrap` can fail.
#[verifier::external_body]
fn digest8(data: &Vec<u8>) -> (r: [u8; 8])
    ensures
        r@ == blake2b_8(data@),
{
    let mut hasher = Blake2bVar::new(8).unwrap();
    hasher.update(data.as_slice());
    let mut buf = [0u8; 8];
    hasher.finalize_variable(&mut buf).unwrap();
    buf
}

/// Why a module could not be built, tagged with the stage that failed.
#[derive(Debug, PartialEq)]
pub enum ModuleErrorKind {
    CheckError(CheckErrorKind),
    ParseError(ParseErrorKind),
    CompileError(String),
    IOError(String),
    BincodeError(String),
}

/// A program that was fingerprinted, parsed and checked: ready for code generation.
#[derive(Debug, PartialEq)]
pub struct Checked {
    pub lex_hash: [u8; 8],
    pub ast: Node,
}

/// The packaged result of a full pipeline run: the fingerprint of the token
/// stream, the instruction sequence and the constant pool.
#[derive(Debug, PartialEq)]
pub struct Module<I, D> {
    pub lex_hash: [u8; 8],
    pub code: Vec<I>,
    pub consts: Vec<D>,
}

/// The tree that the front end hands on for a token sequence and its
/// serialised form, or the error of the first stage that fails.
pub open spec fn front_end(tokens: Seq<Token>, token_bytes: Result<Vec<u8>, String>) -> Result<SNode, ModuleErrorKind> {
    match token_bytes {
        Err(m) => Err(ModuleErrorKind::BincodeError(m)),
        Ok(_) => match spec_parse(tokens) {
            Err(e) => Err(ModuleErrorKind::ParseError(e)),
            Ok(ast) => match check_node(ast, false).0 {
                Err(e) => Err(ModuleErrorKind::CheckError(e)),
                Ok(_) => Ok(ast),
            },
        },
    }
}

/// Fingerprints, parses and checks a token sequence. `token_bytes` is the
/// canonical serialisation of `tokens` (kinds and literal payloads only),
/// or why it could not be made. The fingerprint is the 8-byte BLAKE2b
/// digest of those bytes.
pub fn analyze(tokens: Vec<Token>, token_bytes: Result<Vec<u8>, String>) -> (r: Result<Checked, ModuleErrorKind>)
    ensures
        match r {
            Ok(c) => front_end(tokens@, token_bytes) == Ok::<SNode, ModuleErrorKind>(c.ast@)
                && c.lex_hash@ == blake2b_8(token_bytes->Ok_0@),
            Err(e) => front_end(tokens@, token_bytes) == Err::<SNode, ModuleErrorKind>(e),
        },
{
    let ghost toks = tokens@;
    let lex_hash = match &token_bytes {
        Ok(bytes) => digest8(bytes),
        Err(m) => return Err(ModuleErrorKind::BincodeError(m.clone())),
    };
    let parsed = parse(tokens);
    let mut ast = match parsed {
        Ok(root) => root,
        Err(why) => return Err(ModuleErrorKind::ParseError(why)),
    };
    let mut ck = SemChecker::new();
    match ck.check(&mut ast) {
        Err(why) => return Err(ModuleErrorKind::CheckError(why)),
        Ok(_) => {},
    }
    Ok(Checked { lex_hash, ast })
}

impl<I, D> Module<I, D> {
    /// Packages a checked program with what code generation made of it.
    pub fn new(checked: Checked, compiled: Result<(Vec<I>, Vec<D>), String>) -> (r: Result<Module<I, D>, ModuleErrorKind>)
        ensures
            match compiled {
                Ok((code, consts)) => r is Ok && r->Ok_0.lex_hash == checked.lex_hash
                    && r->Ok_0.code == code && r->Ok_0.consts == consts,
                Err(m) => r == Err::<Module<I, D>, ModuleErrorKind>(ModuleErrorKind::CompileError(m)),
            },
    {
        match compiled {
            Ok((code, consts)) => Ok(Module { lex_hash: checked.lex_hash, code, consts }),
            Err(m) => Err(ModuleErrorKind::CompileError(m)),
        }
    }
}

/// A program that does not parse, or parses and fails the check, never
/// reaches code generation: the front end reports an error for it.
pub proof fn lemma_invalid_program_rejected(tokens: Seq<Token>, token_bytes: Result<Vec<u8>, String>)
    requires
        spec_parse(tokens) is Err || check_node(spec_parse(tokens)->Ok_0, false).0 is Err,
    ensures
        front_end(tokens, token_bytes) is Err,
{
}

/// Equal serialised token streams give equal fingerprints, whatever file or
/// layout the tokens came from.
pub proof fn lemma_fingerprint_of_tokens(a: Seq<u8>, b: Seq<u8>)
    requires
        a == b,
    ensures
        blake2b_8(a) == blake2b_8(b),
{
}

} // verus!
