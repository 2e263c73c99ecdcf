//! The token stream that a module description arrives as, and small helpers
//! on byte strings (all text is carried as UTF-8 bytes).
use vstd::prelude::*;
use vstd::string::StringSliceAdditionalSpecFns;

verus! {

/// One token of the descriptor grammar. Identifiers and literals carry their
/// text as UTF-8 bytes; string literals carry their decoded contents.
#[derive(Debug, PartialEq, Eq)]
pub enum Tok {
    Ident(Vec<u8>),
    StrLit(Vec<u8>),
    IntLit(i64),
    FloatLit(Vec<u8>),
    BoolLit(bool),
    Pound,
    Bang,
    Colon,
    Comma,
    At,
    Assign,
    Minus,
    DotDotAssign,
    DotDot,
    OpenParen,
    CloseParen,
    OpenBrace,
    CloseBrace,
    OpenBracket,
    CloseBracket,
}

/// The mathematical value of a token.
pub enum TokV {
    Ident(Seq<u8>),
    StrLit(Seq<u8>),
    IntLit(i64),
    FloatLit(Seq<u8>),
    BoolLit(bool),
    Pound,
    Bang,
    Colon,
    Comma,
    At,
    Assign,
    Minus,
    DotDotAssign,
    DotDot,
    OpenParen,
    CloseParen,
    OpenBrace,
    CloseBrace,
    OpenBracket,
    CloseBracket,
}

impl View for Tok {
    type V = TokV;

    open spec fn view(&self) -> TokV {
        match self {
            Tok::Ident(v) => TokV::Ident(v@),
            Tok::StrLit(v) => TokV::StrLit(v@),
            Tok::IntLit(v) => TokV::IntLit(*v),
            Tok::FloatLit(v) => TokV::FloatLit(v@),
            Tok::BoolLit(v) => TokV::BoolLit(*v),
            Tok::Pound => TokV::Pound,
            Tok::Bang => TokV::Bang,
            Tok::Colon => TokV::Colon,
            Tok::Comma => TokV::Comma,
            Tok::At => TokV::At,
            Tok::Assign => TokV::Assign,
            Tok::Minus => TokV::Minus,
            Tok::DotDotAssign => TokV::DotDotAssign,
            Tok::DotDot => TokV::DotDot,
            Tok::OpenParen => TokV::OpenParen,
            Tok::CloseParen => TokV::CloseParen,
            Tok::OpenBrace => TokV::OpenBrace,
            Tok::CloseBrace => TokV::CloseBrace,
            Tok::OpenBracket => TokV::OpenBracket,
            Tok::CloseBracket => TokV::CloseBracket,
        }
    }
}

/// The view of a whole token stream.
pub open spec fn tv(t: Seq<Tok>) -> Seq<TokV> {
    t.map_values(|x: Tok| x@)
}

/// The byte contents of a string literal, for use in specifications.
pub open spec fn txt(s: &str) -> Seq<u8> {
    s.spec_bytes()
}

/// Byte-wise equality of a byte vector and a byte slice.
pub fn bytes_eq(a: &Vec<u8>, b: &[u8]) -> (r: bool)
    ensures
        r == (a@ == b@),
{
    if a.len() != b.len() {
        proof {
            assert(a@.len() != b@.len());
        }
        return false;
    }
    let mut i: usize = 0;
    while i < a.len()
        invariant
            0 <= i <= a.len(),
            a@.len() == b@.len(),
            forall|j: int| 0 <= j < i ==> a@[j] == b@[j],
        decreases a.len() - i,
    {
        if a[i] != b[i] {
            return false;
        }
        i += 1;
    }
    proof {
        assert(a@ =~= b@);
    }
    true
}

/// A fresh copy of a byte vector.
pub fn bytes_clone(v: &Vec<u8>) -> (r: Vec<u8>)
    ensures
        r@ == v@,
{
    let mut r: Vec<u8> = Vec::new();
    let mut i: usize = 0;
    while i < v.len()
        invariant
            0 <= i <= v.len(),
            r@ == v@.take(i as int),
        decreases v.len() - i,
    {
        r.push(v[i]);
        proof {
            assert(r@ =~= v@.take(i + 1));
        }
        i += 1;
    }
    proof {
        assert(v@.take(v@.len() as int) =~= v@);
    }
    r
}

/// A byte vector holding the bytes of a string slice; the way tests and
/// callers spell identifiers and texts.
pub fn text_bytes(s: &str) -> (r: Vec<u8>)
    ensures
        r@ == txt(s),
{
    let b = s.as_bytes();
    let mut r: Vec<u8> = Vec::new();
    let mut i: usize = 0;
    while i < b.len()
        invariant
            0 <= i <= b.len(),
            b@ == txt(s),
            r@ == b@.take(i as int),
        decreases b.len() - i,
    {
        r.push(b[i]);
        proof {
            assert(r@ =~= b@.take(i + 1));
        }
        i += 1;
    }
    proof {
        assert(b@.take(b@.len() as int) =~= b@);
    }
    r
}

/// A fresh copy of an optional byte vector.
pub fn opt_bytes_clone(v: &Option<Vec<u8>>) -> (r: Option<Vec<u8>>)
    ensures
        ob(&r) == ob(v),
{
    match v {
        Some(x) => Some(bytes_clone(x)),
        None => None,
    }
}

/// View of an optional byte vector.
pub open spec fn ob(o: &Option<Vec<u8>>) -> Option<Seq<u8>> {
    match o {
        Some(v) => Some(v@),
        None => None,
    }
}

/// Whether a token is a given punctuation token. One tiny test per
/// punctuation kind, so that contracts can speak of the token's view.
pub fn is_pound(x: &Tok) -> (r: bool)
    ensures
        r == (x@ == TokV::Pound),
{
    match x {
        Tok::Pound => true,
        _ => false,
    }
}

/// Whether a token is the bang marker.
pub fn is_bang(x: &Tok) -> (r: bool)
    ensures
        r == (x@ == TokV::Bang),
{
    match x {
        Tok::Bang => true,
        _ => false,
    }
}

/// Whether a token is a colon.
pub fn is_colon(x: &Tok) -> (r: bool)
    ensures
        r == (x@ == TokV::Colon),
{
    match x {
        Tok::Colon => true,
        _ => false,
    }
}

/// Whether a token is a comma.
pub fn is_comma(x: &Tok) -> (r: bool)
    ensures
        r == (x@ == TokV::Comma),
{
    match x {
        Tok::Comma => true,
        _ => false,
    }
}

/// Whether a token is the at separator.
pub fn is_at(x: &Tok) -> (r: bool)
    ensures
        r == (x@ == TokV::At),
{
    match x {
        Tok::At => true,
        _ => false,
    }
}

/// Whether a token is the assignment separator.
pub fn is_assign(x: &Tok) -> (r: bool)
    ensures
        r == (x@ == TokV::Assign),
{
    match x {
        Tok::Assign => true,
        _ => false,
    }
}

/// Whether a token is a closed-range separator.
pub fn is_dotdotassign(x: &Tok) -> (r: bool)
    ensures
        r == (x@ == TokV::DotDotAssign),
{
    match x {
        Tok::DotDotAssign => true,
        _ => false,
    }
}

/// Whether a token is a half-open-range separator.
pub fn is_dotdot(x: &Tok) -> (r: bool)
    ensures
        r == (x@ == TokV::DotDot),
{
    match x {
        Tok::DotDot => true,
        _ => false,
    }
}

/// Whether a token is an opening parenthesis.
pub fn is_open_paren(x: &Tok) -> (r: bool)
    ensures
        r == (x@ == TokV::OpenParen),
{
    match x {
        Tok::OpenParen => true,
        _ => false,
    }
}

/// Whether a token is a closing parenthesis.
pub fn is_close_paren(x: &Tok) -> (r: bool)
    ensures
        r == (x@ == TokV::CloseParen),
{
    match x {
        Tok::CloseParen => true,
        _ => false,
    }
}

/// Whether a token is an opening brace.
pub fn is_open_brace(x: &Tok) -> (r: bool)
    ensures
        r == (x@ == TokV::OpenBrace),
{
    match x {
        Tok::OpenBrace => true,
        _ => false,
    }
}

/// Whether a token is a closing brace.
pub fn is_close_brace(x: &Tok) -> (r: bool)
    ensures
        r == (x@ == TokV::CloseBrace),
{
    match x {
        Tok::CloseBrace => true,
        _ => false,
    }
}

/// Whether a token is an opening bracket.
pub fn is_open_bracket(x: &Tok) -> (r: bool)
    ensures
        r == (x@ == TokV::OpenBracket),
{
    match x {
        Tok::OpenBracket => true,
        _ => false,
    }
}

/// Whether a token is a closing bracket.
pub fn is_close_bracket(x: &Tok) -> (r: bool)
    ensures
        r == (x@ == TokV::CloseBracket),
{
    match x {
        Tok::CloseBracket => true,
        _ => false,
    }
}

} // verus!
