//! The semantic validator: mandatory keys, type agreement, range rules,
//! tag context rules, prefix resolution.
use vlcrs_module::diag::{ErrorKind, ReqKey};
use vlcrs_module::pipeline::compile;
use vlcrs_module::raw::{RawBody, RawCapability, RawModule, RawParam};
use vlcrs_module::toks::Tok;

fn id(s: &str) -> Tok {
    Tok::Ident(s.as_bytes().to_vec())
}

fn st(s: &str) -> Tok {
    Tok::StrLit(s.as_bytes().to_vec())
}

fn entry_type() -> Vec<Tok> {
    vec![
        id("type"), Tok::Colon, id("Foo"), Tok::OpenParen, id("Loader"), Tok::CloseParen,
        Tok::Comma,
    ]
}

fn entry_capability() -> Vec<Tok> {
    vec![id("capability"), Tok::Colon, st("decoder"), Tok::At, Tok::IntLit(50), Tok::Comma]
}

fn entry_category() -> Vec<Tok> {
    vec![id("category"), Tok::Colon, id("Video"), Tok::Comma]
}

fn entry_description() -> Vec<Tok> {
    vec![id("description"), Tok::Colon, st("Foo decoder"), Tok::Comma]
}

/// A minimal valid module with one parameter of the given scalar type and
/// body entries.
fn with_param(scalar: &str, body: Vec<Tok>) -> Vec<Tok> {
    let mut toks = Vec::new();
    toks.extend(entry_type());
    toks.extend(entry_capability());
    toks.extend(entry_category());
    toks.extend(entry_description());
    toks.extend(vec![
        Tok::Pound, Tok::OpenBracket, id("prefix"), Tok::Assign, st("foo-"), Tok::CloseBracket,
        id("params"), Tok::Colon, Tok::OpenBrace,
        id("x"), Tok::Colon, id(scalar), Tok::OpenBrace,
    ]);
    toks.extend(body);
    toks.extend(vec![
        id("text"), Tok::Colon, st("t"), Tok::Comma,
        id("long_text"), Tok::Colon, st("lt"),
        Tok::CloseBrace,
        Tok::CloseBrace,
    ]);
    toks
}

#[test]
fn omitting_capability_fails_with_missing_key() {
    let mut toks = Vec::new();
    toks.extend(entry_type());
    toks.extend(entry_category());
    toks.extend(entry_description());
    let e = compile(&toks).unwrap_err();
    assert_eq!(e.kind, ErrorKind::MissingRequiredKey(ReqKey::Capability));
    assert_eq!(e.pos, toks.len());
}

#[test]
fn omitting_category_fails_with_missing_key() {
    let mut toks = Vec::new();
    toks.extend(entry_type());
    toks.extend(entry_capability());
    toks.extend(entry_description());
    let e = compile(&toks).unwrap_err();
    assert_eq!(e.kind, ErrorKind::MissingRequiredKey(ReqKey::Category));
}

#[test]
fn omitting_description_fails_with_missing_key() {
    let mut toks = Vec::new();
    toks.extend(entry_type());
    toks.extend(entry_capability());
    toks.extend(entry_category());
    let e = compile(&toks).unwrap_err();
    assert_eq!(e.kind, ErrorKind::MissingRequiredKey(ReqKey::Description));
}

#[test]
fn omitting_type_fails_with_missing_key() {
    let mut toks = Vec::new();
    toks.extend(entry_capability());
    toks.extend(entry_category());
    toks.extend(entry_description());
    let e = compile(&toks).unwrap_err();
    assert_eq!(e.kind, ErrorKind::MissingRequiredKey(ReqKey::TypeKey));
}

#[test]
fn string_parameter_with_int_default_fails_type_constraint() {
    let toks = with_param("str", vec![
        id("default"), Tok::Colon, Tok::IntLit(5), Tok::Comma,
    ]);
    let e = compile(&toks).unwrap_err();
    assert_eq!(e.kind, ErrorKind::TypeConstraint);
}

#[test]
fn string_parameter_with_string_default_succeeds() {
    let toks = with_param("str", vec![
        id("default"), Tok::Colon, st("hello"), Tok::Comma,
    ]);
    let d = compile(&toks).unwrap();
    let ps = d.primary.params.unwrap();
    assert_eq!(
        ps[0].default_value,
        vlcrs_module::descriptor::Literal::Str("hello".as_bytes().to_vec())
    );
}

#[test]
fn bool_parameter_with_int_default_fails_type_constraint() {
    let toks = with_param("bool", vec![
        id("default"), Tok::Colon, Tok::IntLit(1), Tok::Comma,
    ]);
    let e = compile(&toks).unwrap_err();
    assert_eq!(e.kind, ErrorKind::TypeConstraint);
}

#[test]
fn unsupported_scalar_type_fails_type_constraint() {
    let toks = with_param("u128", vec![
        id("default"), Tok::Colon, Tok::IntLit(1), Tok::Comma,
    ]);
    let e = compile(&toks).unwrap_err();
    assert_eq!(e.kind, ErrorKind::TypeConstraint);
}

#[test]
fn range_on_bool_parameter_fails_range_constraint() {
    let toks = with_param("bool", vec![
        id("default"), Tok::Colon, Tok::BoolLit(true), Tok::Comma,
        id("range"), Tok::Colon, Tok::IntLit(0), Tok::DotDotAssign, Tok::IntLit(1), Tok::Comma,
    ]);
    let e = compile(&toks).unwrap_err();
    assert_eq!(e.kind, ErrorKind::RangeConstraint);
}

#[test]
fn range_on_string_parameter_fails_range_constraint() {
    let toks = with_param("str", vec![
        id("default"), Tok::Colon, st("d"), Tok::Comma,
        id("range"), Tok::Colon, Tok::IntLit(0), Tok::DotDotAssign, Tok::IntLit(1), Tok::Comma,
    ]);
    let e = compile(&toks).unwrap_err();
    assert_eq!(e.kind, ErrorKind::RangeConstraint);
}

#[test]
fn half_open_range_fails_range_constraint() {
    let toks = with_param("i64", vec![
        id("default"), Tok::Colon, Tok::IntLit(5), Tok::Comma,
        id("range"), Tok::Colon, Tok::IntLit(0), Tok::DotDot, Tok::IntLit(9), Tok::Comma,
    ]);
    let e = compile(&toks).unwrap_err();
    assert_eq!(e.kind, ErrorKind::RangeConstraint);
}

#[test]
fn range_missing_lower_bound_fails_range_constraint() {
    let toks = with_param("i64", vec![
        id("default"), Tok::Colon, Tok::IntLit(5), Tok::Comma,
        id("range"), Tok::Colon, Tok::DotDotAssign, Tok::IntLit(9), Tok::Comma,
    ]);
    let e = compile(&toks).unwrap_err();
    assert_eq!(e.kind, ErrorKind::RangeConstraint);
}

#[test]
fn range_missing_upper_bound_fails_range_constraint() {
    let toks = with_param("i64", vec![
        id("default"), Tok::Colon, Tok::IntLit(5), Tok::Comma,
        id("range"), Tok::Colon, Tok::IntLit(0), Tok::DotDotAssign, Tok::Comma,
    ]);
    let e = compile(&toks).unwrap_err();
    assert_eq!(e.kind, ErrorKind::RangeConstraint);
}

#[test]
fn well_formed_closed_range_succeeds() {
    let toks = with_param("i64", vec![
        id("default"), Tok::Colon, Tok::IntLit(5), Tok::Comma,
        id("range"), Tok::Colon, Tok::IntLit(0), Tok::DotDotAssign, Tok::IntLit(9), Tok::Comma,
    ]);
    let d = compile(&toks).unwrap();
    let ps = d.primary.params.unwrap();
    let r = ps[0].range.as_ref().unwrap();
    assert_eq!(r.0, vlcrs_module::descriptor::Literal::Int(0));
    assert_eq!(r.1, vlcrs_module::descriptor::Literal::Int(9));
}

#[test]
fn rgb_tag_on_string_parameter_fails_annotation_conflict() {
    let mut toks = Vec::new();
    toks.extend(entry_type());
    toks.extend(entry_capability());
    toks.extend(entry_category());
    toks.extend(entry_description());
    toks.extend(vec![
        Tok::Pound, Tok::OpenBracket, id("prefix"), Tok::Assign, st("foo-"), Tok::CloseBracket,
        id("params"), Tok::Colon, Tok::OpenBrace,
        Tok::Pound, Tok::OpenBracket, id("rgb"), Tok::CloseBracket,
        id("x"), Tok::Colon, id("str"), Tok::OpenBrace,
        id("default"), Tok::Colon, st("d"), Tok::Comma,
        id("text"), Tok::Colon, st("t"), Tok::Comma,
        id("long_text"), Tok::Colon, st("lt"),
        Tok::CloseBrace,
        Tok::CloseBrace,
    ]);
    let e = compile(&toks).unwrap_err();
    assert_eq!(e.kind, ErrorKind::AnnotationConflict);
}

#[test]
fn font_tag_on_int_parameter_fails_annotation_conflict() {
    let mut toks = Vec::new();
    toks.extend(entry_type());
    toks.extend(entry_capability());
    toks.extend(entry_category());
    toks.extend(entry_description());
    toks.extend(vec![
        Tok::Pound, Tok::OpenBracket, id("prefix"), Tok::Assign, st("foo-"), Tok::CloseBracket,
        id("params"), Tok::Colon, Tok::OpenBrace,
        Tok::Pound, Tok::OpenBracket, id("font"), Tok::CloseBracket,
        id("x"), Tok::Colon, id("i64"), Tok::OpenBrace,
        id("default"), Tok::Colon, Tok::IntLit(1), Tok::Comma,
        id("text"), Tok::Colon, st("t"), Tok::Comma,
        id("long_text"), Tok::Colon, st("lt"),
        Tok::CloseBrace,
        Tok::CloseBrace,
    ]);
    let e = compile(&toks).unwrap_err();
    assert_eq!(e.kind, ErrorKind::AnnotationConflict);
}

#[test]
fn score_too_wide_fails_type_constraint() {
    let mut toks = Vec::new();
    toks.extend(entry_type());
    toks.extend(vec![
        id("capability"), Tok::Colon, st("decoder"), Tok::At, Tok::IntLit(3000000000),
        Tok::Comma,
    ]);
    toks.extend(entry_category());
    toks.extend(entry_description());
    let e = compile(&toks).unwrap_err();
    assert_eq!(e.kind, ErrorKind::TypeConstraint);
}

#[test]
fn float_parameter_accepts_float_default() {
    let toks = with_param("f32", vec![
        id("default"), Tok::Colon, Tok::FloatLit("0.5".as_bytes().to_vec()), Tok::Comma,
    ]);
    let d = compile(&toks).unwrap();
    let ps = d.primary.params.unwrap();
    assert_eq!(ps[0].scalar_type, vlcrs_module::descriptor::ScalarType::Float32);
}

#[test]
fn invalid_submodule_fails_like_its_own_module() {
    let mut toks = Vec::new();
    toks.extend(entry_type());
    toks.extend(entry_capability());
    toks.extend(entry_category());
    toks.extend(vec![id("description"), Tok::Colon, st("Foo decoder"), Tok::Comma]);
    toks.extend(vec![id("submodules"), Tok::Colon, Tok::OpenBracket, Tok::OpenBrace]);
    toks.extend(entry_type());
    toks.extend(entry_capability());
    toks.extend(entry_category());
    toks.extend(vec![Tok::CloseBrace, Tok::CloseBracket]);
    let e = compile(&toks).unwrap_err();
    assert_eq!(e.kind, ErrorKind::MissingRequiredKey(ReqKey::Description));
}

#[test]
fn unresolvable_prefix_fails_prefix_missing() {
    // The grammar itself forces a prefix annotation onto `params`, so this
    // invariant is only reachable through a hand-built parse tree: a body
    // with parameters, no module prefix, and a parameter without its own.
    let body = RawBody {
        kind: Some(b"Foo".to_vec()),
        loader: Some(b"Loader".to_vec()),
        category: Some(b"Video".to_vec()),
        capability: Some(RawCapability { name: b"decoder".to_vec(), score: 50, pos: 9 }),
        description: Some(b"d".to_vec()),
        help: None,
        shortname: None,
        prefix: None,
        params: Some(vec![RawParam {
            pos: 20,
            name: b"x".to_vec(),
            scalar_name: b"i64".to_vec(),
            scalar_pos: 22,
            default_value: Some(vlcrs_module::descriptor::Literal::Int(1)),
            range: None,
            text: Some(b"t".to_vec()),
            long_text: Some(b"lt".to_vec()),
            prefix: None,
            section: None,
            tags: Vec::new(),
        }]),
        shortcuts: None,
        end_pos: 30,
    };
    let raw = RawModule { primary: body, submodules: None };
    let e = vlcrs_module::validator::validate(&raw).unwrap_err();
    assert_eq!(e.kind, ErrorKind::PrefixMissing);
    assert_eq!(e.pos, 30);
}

#[test]
fn parameter_own_prefix_resolves_and_wins() {
    let body = RawBody {
        kind: Some(b"Foo".to_vec()),
        loader: Some(b"Loader".to_vec()),
        category: Some(b"Video".to_vec()),
        capability: Some(RawCapability { name: b"decoder".to_vec(), score: 50, pos: 9 }),
        description: Some(b"d".to_vec()),
        help: None,
        shortname: None,
        prefix: None,
        params: Some(vec![RawParam {
            pos: 20,
            name: b"x_y".to_vec(),
            scalar_name: b"i64".to_vec(),
            scalar_pos: 22,
            default_value: Some(vlcrs_module::descriptor::Literal::Int(1)),
            range: None,
            text: Some(b"t".to_vec()),
            long_text: Some(b"lt".to_vec()),
            prefix: Some(b"own-".to_vec()),
            section: None,
            tags: Vec::new(),
        }]),
        shortcuts: None,
        end_pos: 30,
    };
    let raw = RawModule { primary: body, submodules: None };
    let d = vlcrs_module::validator::validate(&raw).unwrap();
    let ops = vlcrs_module::lower::lower_unit(&d, &vec![false]);
    assert!(ops.contains(&vlcrs_module::ops::Op::SetConfigName(b"own-x-y\0".to_vec())));
}
