//! The grammar: well-formed descriptions parse, malformed ones fail fast
//! with the right positioned diagnostic.
use vlcrs_module::diag::{ErrorKind, ReqKey};
use vlcrs_module::parser::parse_module;
use vlcrs_module::toks::Tok;

fn id(s: &str) -> Tok {
    Tok::Ident(s.as_bytes().to_vec())
}

fn st(s: &str) -> Tok {
    Tok::StrLit(s.as_bytes().to_vec())
}

fn b(s: &str) -> Vec<u8> {
    s.as_bytes().to_vec()
}

/// `type: Foo(Loader), capability: "decoder" @ 50, category: Video,
/// description: "Foo decoder"` as a token stream.
fn minimal() -> Vec<Tok> {
    vec![
        id("type"), Tok::Colon, id("Foo"), Tok::OpenParen, id("Loader"), Tok::CloseParen,
        Tok::Comma,
        id("capability"), Tok::Colon, st("decoder"), Tok::At, Tok::IntLit(50), Tok::Comma,
        id("category"), Tok::Colon, id("Video"), Tok::Comma,
        id("description"), Tok::Colon, st("Foo decoder"),
    ]
}

#[test]
fn minimal_module_parses() {
    let m = parse_module(&minimal()).unwrap();
    assert_eq!(m.primary.kind, Some(b("Foo")));
    assert_eq!(m.primary.loader, Some(b("Loader")));
    assert_eq!(m.primary.category, Some(b("Video")));
    assert_eq!(m.primary.description, Some(b("Foo decoder")));
    let cap = m.primary.capability.unwrap();
    assert_eq!(cap.name, b("decoder"));
    assert_eq!(cap.score, 50);
    assert!(m.submodules.is_none());
}

#[test]
fn unknown_key_is_fatal() {
    let mut toks = minimal();
    toks.push(Tok::Comma);
    toks.push(id("frobnicate"));
    toks.push(Tok::Colon);
    toks.push(st("x"));
    let e = parse_module(&toks).unwrap_err();
    assert_eq!(e.kind, ErrorKind::UnknownKey(b("frobnicate")));
    assert_eq!(e.pos, 21);
}

#[test]
fn type_requires_trailing_comma_even_at_end() {
    let toks = vec![
        id("type"), Tok::Colon, id("Foo"), Tok::OpenParen, id("Loader"), Tok::CloseParen,
    ];
    let e = parse_module(&toks).unwrap_err();
    assert_eq!(e.kind, ErrorKind::Grammar);
    assert_eq!(e.pos, 6);
}

#[test]
fn trailing_comma_after_last_entry_accepted() {
    let mut toks = minimal();
    toks.push(Tok::Comma);
    assert!(parse_module(&toks).is_ok());
}

#[test]
fn missing_separator_between_entries_rejected() {
    let toks = vec![
        id("type"), Tok::Colon, id("Foo"), Tok::OpenParen, id("Loader"), Tok::CloseParen,
        Tok::Comma,
        id("category"), Tok::Colon, id("Video"),
        id("description"), Tok::Colon, st("d"),
    ];
    let e = parse_module(&toks).unwrap_err();
    assert_eq!(e.kind, ErrorKind::Grammar);
    assert_eq!(e.pos, 10);
}

#[test]
fn redeclared_key_silently_overwrites() {
    let mut toks = minimal();
    toks.push(Tok::Comma);
    toks.push(id("category"));
    toks.push(Tok::Colon);
    toks.push(id("Audio"));
    let m = parse_module(&toks).unwrap();
    assert_eq!(m.primary.category, Some(b("Audio")));
}

#[test]
fn shortcuts_list_parses_with_trailing_comma() {
    let mut toks = minimal();
    toks.extend(vec![
        Tok::Comma,
        id("shortcuts"), Tok::Colon, Tok::OpenBracket, st("foo"), Tok::Comma, st("f"),
        Tok::Comma, Tok::CloseBracket,
    ]);
    let m = parse_module(&toks).unwrap();
    assert_eq!(m.primary.shortcuts, Some(vec![b("foo"), b("f")]));
}

#[test]
fn annotation_on_plain_key_rejected() {
    let mut toks = vec![
        Tok::Pound, Tok::OpenBracket, id("deprecated"), Tok::CloseBracket,
    ];
    toks.extend(minimal());
    let e = parse_module(&toks).unwrap_err();
    assert_eq!(e.kind, ErrorKind::AnnotationConflict);
    assert_eq!(e.pos, 0);
}

#[test]
fn params_without_prefix_annotation_rejected() {
    let mut toks = minimal();
    toks.extend(vec![
        Tok::Comma,
        id("params"), Tok::Colon, Tok::OpenBrace, Tok::CloseBrace,
    ]);
    let e = parse_module(&toks).unwrap_err();
    assert_eq!(e.kind, ErrorKind::AnnotationConflict);
}

#[test]
fn params_with_prefix_annotation_parses() {
    let mut toks = minimal();
    toks.extend(vec![
        Tok::Comma,
        Tok::Pound, Tok::OpenBracket, id("prefix"), Tok::Assign, st("foo-"), Tok::CloseBracket,
        id("params"), Tok::Colon, Tok::OpenBrace,
        id("x"), Tok::Colon, id("i64"), Tok::OpenBrace,
        id("default"), Tok::Colon, Tok::IntLit(3), Tok::Comma,
        id("text"), Tok::Colon, st("t"), Tok::Comma,
        id("long_text"), Tok::Colon, st("lt"), Tok::Comma,
        Tok::CloseBrace,
        Tok::CloseBrace,
    ]);
    let m = parse_module(&toks).unwrap();
    assert_eq!(m.primary.prefix, Some(b("foo-")));
    let ps = m.primary.params.unwrap();
    assert_eq!(ps.len(), 1);
    assert_eq!(ps[0].name, b("x"));
    assert_eq!(ps[0].scalar_name, b("i64"));
}

#[test]
fn default_requires_trailing_comma() {
    let mut toks = minimal();
    toks.extend(vec![
        Tok::Comma,
        Tok::Pound, Tok::OpenBracket, id("prefix"), Tok::Assign, st("p-"), Tok::CloseBracket,
        id("params"), Tok::Colon, Tok::OpenBrace,
        id("x"), Tok::Colon, id("i64"), Tok::OpenBrace,
        id("default"), Tok::Colon, Tok::IntLit(3),
        Tok::CloseBrace,
        Tok::CloseBrace,
    ]);
    let e = parse_module(&toks).unwrap_err();
    assert_eq!(e.kind, ErrorKind::Grammar);
}

#[test]
fn missing_text_in_parameter_body_rejected() {
    let mut toks = minimal();
    toks.extend(vec![
        Tok::Comma,
        Tok::Pound, Tok::OpenBracket, id("prefix"), Tok::Assign, st("p-"), Tok::CloseBracket,
        id("params"), Tok::Colon, Tok::OpenBrace,
        id("x"), Tok::Colon, id("i64"), Tok::OpenBrace,
        id("default"), Tok::Colon, Tok::IntLit(3), Tok::Comma,
        id("long_text"), Tok::Colon, st("lt"),
        Tok::CloseBrace,
        Tok::CloseBrace,
    ]);
    let e = parse_module(&toks).unwrap_err();
    assert_eq!(e.kind, ErrorKind::MissingRequiredKey(ReqKey::Text));
}

#[test]
fn section_annotation_parses() {
    let mut toks = minimal();
    toks.extend(vec![
        Tok::Comma,
        Tok::Pound, Tok::OpenBracket, id("prefix"), Tok::Assign, st("p-"), Tok::CloseBracket,
        id("params"), Tok::Colon, Tok::OpenBrace,
        Tok::Pound, Tok::Bang, Tok::OpenBracket, id("section"), Tok::OpenParen,
        id("name"), Tok::Assign, st("General"), Tok::Comma,
        id("description"), Tok::Assign, st("General options"),
        Tok::CloseParen, Tok::CloseBracket,
        id("x"), Tok::Colon, id("i64"), Tok::OpenBrace,
        id("default"), Tok::Colon, Tok::IntLit(3), Tok::Comma,
        id("text"), Tok::Colon, st("t"), Tok::Comma,
        id("long_text"), Tok::Colon, st("lt"),
        Tok::CloseBrace,
        Tok::CloseBrace,
    ]);
    let m = parse_module(&toks).unwrap();
    let ps = m.primary.params.unwrap();
    let sec = ps[0].section.as_ref().unwrap();
    assert_eq!(sec.name, b("General"));
    assert_eq!(sec.description, Some(b("General options")));
}

#[test]
fn section_annotation_requires_name() {
    let mut toks = minimal();
    toks.extend(vec![
        Tok::Comma,
        Tok::Pound, Tok::OpenBracket, id("prefix"), Tok::Assign, st("p-"), Tok::CloseBracket,
        id("params"), Tok::Colon, Tok::OpenBrace,
        Tok::Pound, Tok::Bang, Tok::OpenBracket, id("section"), Tok::OpenParen,
        id("description"), Tok::Assign, st("d"),
        Tok::CloseParen, Tok::CloseBracket,
        id("x"), Tok::Colon, id("i64"), Tok::OpenBrace,
        id("default"), Tok::Colon, Tok::IntLit(3), Tok::Comma,
        id("text"), Tok::Colon, st("t"), Tok::Comma,
        id("long_text"), Tok::Colon, st("lt"),
        Tok::CloseBrace,
        Tok::CloseBrace,
    ]);
    let e = parse_module(&toks).unwrap_err();
    assert_eq!(e.kind, ErrorKind::MissingRequiredKey(ReqKey::SectionName));
}

#[test]
fn unknown_tag_annotation_rejected() {
    let mut toks = minimal();
    toks.extend(vec![
        Tok::Comma,
        Tok::Pound, Tok::OpenBracket, id("prefix"), Tok::Assign, st("p-"), Tok::CloseBracket,
        id("params"), Tok::Colon, Tok::OpenBrace,
        Tok::Pound, Tok::OpenBracket, id("shiny"), Tok::CloseBracket,
        id("x"), Tok::Colon, id("i64"), Tok::OpenBrace,
        id("default"), Tok::Colon, Tok::IntLit(3), Tok::Comma,
        id("text"), Tok::Colon, st("t"), Tok::Comma,
        id("long_text"), Tok::Colon, st("lt"),
        Tok::CloseBrace,
        Tok::CloseBrace,
    ]);
    let e = parse_module(&toks).unwrap_err();
    assert_eq!(e.kind, ErrorKind::AnnotationConflict);
}

#[test]
fn nested_submodules_rejected() {
    let mut toks = minimal();
    toks.extend(vec![
        Tok::Comma,
        id("submodules"), Tok::Colon, Tok::OpenBracket, Tok::OpenBrace,
        id("submodules"), Tok::Colon, Tok::OpenBracket, Tok::CloseBracket,
        Tok::CloseBrace, Tok::CloseBracket,
    ]);
    let e = parse_module(&toks).unwrap_err();
    assert_eq!(e.kind, ErrorKind::Nesting);
    assert_eq!(e.pos, 25);
}

#[test]
fn submodule_body_parses() {
    let mut toks = minimal();
    toks.extend(vec![Tok::Comma, id("submodules"), Tok::Colon, Tok::OpenBracket, Tok::OpenBrace]);
    toks.extend(vec![
        id("type"), Tok::Colon, id("Bar"), Tok::OpenParen, id("Loader2"), Tok::CloseParen,
        Tok::Comma,
        id("capability"), Tok::Colon, st("encoder"), Tok::At, Tok::IntLit(7), Tok::Comma,
        id("category"), Tok::Colon, id("Audio"), Tok::Comma,
        id("description"), Tok::Colon, st("Bar encoder"),
    ]);
    toks.extend(vec![Tok::CloseBrace, Tok::CloseBracket]);
    let m = parse_module(&toks).unwrap();
    let subs = m.submodules.unwrap();
    assert_eq!(subs.len(), 1);
    assert_eq!(subs[0].kind, Some(b("Bar")));
    assert_eq!(subs[0].category, Some(b("Audio")));
}

#[test]
fn negative_range_bound_parses() {
    let mut toks = minimal();
    toks.extend(vec![
        Tok::Comma,
        Tok::Pound, Tok::OpenBracket, id("prefix"), Tok::Assign, st("p-"), Tok::CloseBracket,
        id("params"), Tok::Colon, Tok::OpenBrace,
        id("x"), Tok::Colon, id("i64"), Tok::OpenBrace,
        id("default"), Tok::Colon, Tok::IntLit(3), Tok::Comma,
        id("range"), Tok::Colon, Tok::Minus, Tok::IntLit(200), Tok::DotDotAssign,
        Tok::IntLit(100), Tok::Comma,
        id("text"), Tok::Colon, st("t"), Tok::Comma,
        id("long_text"), Tok::Colon, st("lt"),
        Tok::CloseBrace,
        Tok::CloseBrace,
    ]);
    let m = parse_module(&toks).unwrap();
    let ps = m.primary.params.unwrap();
    let r = ps[0].range.as_ref().unwrap();
    assert!(r.closed);
    assert_eq!(r.from, Some(vlcrs_module::descriptor::Literal::Int(-200)));
    assert_eq!(r.to, Some(vlcrs_module::descriptor::Literal::Int(100)));
}

#[test]
fn compile_is_deterministic() {
    let mut toks = minimal();
    toks.extend(vec![
        Tok::Comma,
        Tok::Pound, Tok::OpenBracket, id("prefix"), Tok::Assign, st("foo-"), Tok::CloseBracket,
        id("params"), Tok::Colon, Tok::OpenBrace,
        id("x"), Tok::Colon, id("i64"), Tok::OpenBrace,
        id("default"), Tok::Colon, Tok::IntLit(3), Tok::Comma,
        id("text"), Tok::Colon, st("t"), Tok::Comma,
        id("long_text"), Tok::Colon, st("lt"),
        Tok::CloseBrace,
        Tok::CloseBrace,
    ]);
    let once = vlcrs_module::pipeline::compile(&toks).unwrap();
    let twice = vlcrs_module::pipeline::compile(&toks).unwrap();
    assert_eq!(once, twice);
    let ops_once = vlcrs_module::lower::lower_unit(&once, &vec![false]);
    let ops_twice = vlcrs_module::lower::lower_unit(&twice, &vec![false]);
    assert_eq!(ops_once, ops_twice);
}

#[test]
fn empty_input_fails_with_missing_type() {
    // Structural parsing accepts the empty body; validation then asks for
    // the type key first.
    assert!(parse_module(&Vec::new()).is_ok());
    let e = vlcrs_module::pipeline::compile(&Vec::new()).unwrap_err();
    assert_eq!(e.kind, ErrorKind::MissingRequiredKey(ReqKey::TypeKey));
    assert_eq!(e.pos, 0);
}

#[test]
fn two_annotations_on_params_rejected() {
    let mut toks = minimal();
    toks.extend(vec![
        Tok::Comma,
        Tok::Pound, Tok::OpenBracket, id("prefix"), Tok::Assign, st("a-"), Tok::CloseBracket,
        Tok::Pound, Tok::OpenBracket, id("prefix"), Tok::Assign, st("b-"), Tok::CloseBracket,
        id("params"), Tok::Colon, Tok::OpenBrace, Tok::CloseBrace,
    ]);
    let e = parse_module(&toks).unwrap_err();
    assert_eq!(e.kind, ErrorKind::AnnotationConflict);
}

#[test]
fn prefix_annotation_with_non_string_value_rejected() {
    let mut toks = minimal();
    toks.extend(vec![
        Tok::Comma,
        Tok::Pound, Tok::OpenBracket, id("prefix"), Tok::Assign, Tok::IntLit(5),
        Tok::CloseBracket,
        id("params"), Tok::Colon, Tok::OpenBrace, Tok::CloseBrace,
    ]);
    let e = parse_module(&toks).unwrap_err();
    assert_eq!(e.kind, ErrorKind::AnnotationConflict);
}

#[test]
fn section_style_marker_at_module_level_rejected() {
    let mut toks = vec![
        Tok::Pound, Tok::Bang, Tok::OpenBracket, id("section"), Tok::OpenParen,
        id("name"), Tok::Assign, st("x"), Tok::CloseParen, Tok::CloseBracket,
    ];
    toks.extend(minimal());
    let e = parse_module(&toks).unwrap_err();
    assert_eq!(e.kind, ErrorKind::AnnotationConflict);
}

#[test]
fn empty_params_list_with_prefix_is_valid() {
    let mut toks = minimal();
    toks.extend(vec![
        Tok::Comma,
        Tok::Pound, Tok::OpenBracket, id("prefix"), Tok::Assign, st("p-"), Tok::CloseBracket,
        id("params"), Tok::Colon, Tok::OpenBrace, Tok::CloseBrace,
    ]);
    let m = parse_module(&toks).unwrap();
    assert_eq!(m.primary.params.as_ref().map(Vec::len), Some(0));
    assert!(vlcrs_module::pipeline::compile(&toks).is_ok());
}

#[test]
fn tag_with_argument_rejected_unless_deprecated() {
    let mut toks = minimal();
    toks.extend(vec![
        Tok::Comma,
        Tok::Pound, Tok::OpenBracket, id("prefix"), Tok::Assign, st("p-"), Tok::CloseBracket,
        id("params"), Tok::Colon, Tok::OpenBrace,
        Tok::Pound, Tok::OpenBracket, id("rgb"), Tok::Assign, st("x"), Tok::CloseBracket,
        id("x"), Tok::Colon, id("i64"), Tok::OpenBrace,
        id("default"), Tok::Colon, Tok::IntLit(3), Tok::Comma,
        id("text"), Tok::Colon, st("t"), Tok::Comma,
        id("long_text"), Tok::Colon, st("lt"),
        Tok::CloseBrace,
        Tok::CloseBrace,
    ]);
    let e = parse_module(&toks).unwrap_err();
    assert_eq!(e.kind, ErrorKind::AnnotationConflict);
}

#[test]
fn deprecated_tag_may_carry_a_payload() {
    let mut toks = minimal();
    toks.extend(vec![
        Tok::Comma,
        Tok::Pound, Tok::OpenBracket, id("prefix"), Tok::Assign, st("p-"), Tok::CloseBracket,
        id("params"), Tok::Colon, Tok::OpenBrace,
        Tok::Pound, Tok::OpenBracket, id("deprecated"), Tok::Assign, st("since 4.0"),
        Tok::CloseBracket,
        id("x"), Tok::Colon, id("i64"), Tok::OpenBrace,
        id("default"), Tok::Colon, Tok::IntLit(3), Tok::Comma,
        id("text"), Tok::Colon, st("t"), Tok::Comma,
        id("long_text"), Tok::Colon, st("lt"),
        Tok::CloseBrace,
        Tok::CloseBrace,
    ]);
    let m = parse_module(&toks).unwrap();
    let ps = m.primary.params.unwrap();
    assert_eq!(ps[0].tags, vec![vlcrs_module::descriptor::Tag::Deprecated]);
}

#[test]
fn negative_float_range_bound_keeps_signed_spelling() {
    let mut toks = minimal();
    toks.extend(vec![
        Tok::Comma,
        Tok::Pound, Tok::OpenBracket, id("prefix"), Tok::Assign, st("p-"), Tok::CloseBracket,
        id("params"), Tok::Colon, Tok::OpenBrace,
        id("x"), Tok::Colon, id("f32"), Tok::OpenBrace,
        id("default"), Tok::Colon, Tok::FloatLit(b("0.5")), Tok::Comma,
        id("range"), Tok::Colon, Tok::Minus, Tok::FloatLit(b("1.5")), Tok::DotDotAssign,
        Tok::FloatLit(b("1.5")), Tok::Comma,
        id("text"), Tok::Colon, st("t"), Tok::Comma,
        id("long_text"), Tok::Colon, st("lt"),
        Tok::CloseBrace,
        Tok::CloseBrace,
    ]);
    let m = parse_module(&toks).unwrap();
    let ps = m.primary.params.unwrap();
    let r = ps[0].range.as_ref().unwrap();
    assert_eq!(r.from, Some(vlcrs_module::descriptor::Literal::Float(b("-1.5"))));
    assert_eq!(r.to, Some(vlcrs_module::descriptor::Literal::Float(b("1.5"))));
}

#[test]
fn unnegatable_range_bound_rejected() {
    let mut toks = minimal();
    toks.extend(vec![
        Tok::Comma,
        Tok::Pound, Tok::OpenBracket, id("prefix"), Tok::Assign, st("p-"), Tok::CloseBracket,
        id("params"), Tok::Colon, Tok::OpenBrace,
        id("x"), Tok::Colon, id("i64"), Tok::OpenBrace,
        id("default"), Tok::Colon, Tok::IntLit(0), Tok::Comma,
        id("range"), Tok::Colon, Tok::Minus, Tok::IntLit(i64::MIN), Tok::DotDotAssign,
        Tok::IntLit(0), Tok::Comma,
        id("text"), Tok::Colon, st("t"), Tok::Comma,
        id("long_text"), Tok::Colon, st("lt"),
        Tok::CloseBrace,
        Tok::CloseBrace,
    ]);
    let e = parse_module(&toks).unwrap_err();
    assert_eq!(e.kind, ErrorKind::Grammar);
}

#[test]
fn negative_int_default_parses() {
    let mut toks = minimal();
    toks.extend(vec![
        Tok::Comma,
        Tok::Pound, Tok::OpenBracket, id("prefix"), Tok::Assign, st("p-"), Tok::CloseBracket,
        id("params"), Tok::Colon, Tok::OpenBrace,
        id("x"), Tok::Colon, id("i64"), Tok::OpenBrace,
        id("default"), Tok::Colon, Tok::Minus, Tok::IntLit(5), Tok::Comma,
        id("text"), Tok::Colon, st("t"), Tok::Comma,
        id("long_text"), Tok::Colon, st("lt"),
        Tok::CloseBrace,
        Tok::CloseBrace,
    ]);
    let m = parse_module(&toks).unwrap();
    let ps = m.primary.params.unwrap();
    assert_eq!(ps[0].default_value, Some(vlcrs_module::descriptor::Literal::Int(-5)));
}

#[test]
fn negative_float_default_parses() {
    let mut toks = minimal();
    toks.extend(vec![
        Tok::Comma,
        Tok::Pound, Tok::OpenBracket, id("prefix"), Tok::Assign, st("p-"), Tok::CloseBracket,
        id("params"), Tok::Colon, Tok::OpenBrace,
        id("x"), Tok::Colon, id("f32"), Tok::OpenBrace,
        id("default"), Tok::Colon, Tok::Minus, Tok::FloatLit(b("1.5")), Tok::Comma,
        id("text"), Tok::Colon, st("t"), Tok::Comma,
        id("long_text"), Tok::Colon, st("lt"),
        Tok::CloseBrace,
        Tok::CloseBrace,
    ]);
    let m = parse_module(&toks).unwrap();
    let ps = m.primary.params.unwrap();
    assert_eq!(ps[0].default_value, Some(vlcrs_module::descriptor::Literal::Float(b("-1.5"))));
}

#[test]
fn negative_capability_score_parses() {
    let toks = vec![
        id("type"), Tok::Colon, id("Foo"), Tok::OpenParen, id("Loader"), Tok::CloseParen,
        Tok::Comma,
        id("capability"), Tok::Colon, st("decoder"), Tok::At, Tok::Minus, Tok::IntLit(1),
        Tok::Comma,
        id("category"), Tok::Colon, id("Video"), Tok::Comma,
        id("description"), Tok::Colon, st("d"),
    ];
    let m = parse_module(&toks).unwrap();
    assert_eq!(m.primary.capability.unwrap().score, -1);
}

#[test]
fn deprecated_paren_payload_accepted() {
    let mut toks = minimal();
    toks.extend(vec![
        Tok::Comma,
        Tok::Pound, Tok::OpenBracket, id("prefix"), Tok::Assign, st("p-"), Tok::CloseBracket,
        id("params"), Tok::Colon, Tok::OpenBrace,
        Tok::Pound, Tok::OpenBracket, id("deprecated"), Tok::OpenParen, st("old"),
        Tok::CloseParen, Tok::CloseBracket,
        id("x"), Tok::Colon, id("i64"), Tok::OpenBrace,
        id("default"), Tok::Colon, Tok::IntLit(3), Tok::Comma,
        id("text"), Tok::Colon, st("t"), Tok::Comma,
        id("long_text"), Tok::Colon, st("lt"),
        Tok::CloseBrace,
        Tok::CloseBrace,
    ]);
    let m = parse_module(&toks).unwrap();
    let ps = m.primary.params.unwrap();
    assert_eq!(ps[0].tags, vec![vlcrs_module::descriptor::Tag::Deprecated]);
}

#[test]
fn deprecated_negative_literal_payload_accepted() {
    let mut toks = minimal();
    toks.extend(vec![
        Tok::Comma,
        Tok::Pound, Tok::OpenBracket, id("prefix"), Tok::Assign, st("p-"), Tok::CloseBracket,
        id("params"), Tok::Colon, Tok::OpenBrace,
        Tok::Pound, Tok::OpenBracket, id("deprecated"), Tok::Assign, Tok::Minus, Tok::IntLit(1),
        Tok::CloseBracket,
        id("x"), Tok::Colon, id("i64"), Tok::OpenBrace,
        id("default"), Tok::Colon, Tok::IntLit(3), Tok::Comma,
        id("text"), Tok::Colon, st("t"), Tok::Comma,
        id("long_text"), Tok::Colon, st("lt"),
        Tok::CloseBrace,
        Tok::CloseBrace,
    ]);
    let m = parse_module(&toks).unwrap();
    let ps = m.primary.params.unwrap();
    assert_eq!(ps[0].tags, vec![vlcrs_module::descriptor::Tag::Deprecated]);
}

#[test]
fn paren_payload_on_other_tag_rejected() {
    let mut toks = minimal();
    toks.extend(vec![
        Tok::Comma,
        Tok::Pound, Tok::OpenBracket, id("prefix"), Tok::Assign, st("p-"), Tok::CloseBracket,
        id("params"), Tok::Colon, Tok::OpenBrace,
        Tok::Pound, Tok::OpenBracket, id("font"), Tok::OpenParen, st("x"), Tok::CloseParen,
        Tok::CloseBracket,
        id("x"), Tok::Colon, id("str"), Tok::OpenBrace,
        id("default"), Tok::Colon, st("d"), Tok::Comma,
        id("text"), Tok::Colon, st("t"), Tok::Comma,
        id("long_text"), Tok::Colon, st("lt"),
        Tok::CloseBrace,
        Tok::CloseBrace,
    ]);
    let e = parse_module(&toks).unwrap_err();
    assert_eq!(e.kind, ErrorKind::AnnotationConflict);
}
