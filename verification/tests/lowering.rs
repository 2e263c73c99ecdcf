//! The lowering engine: exact operation sequences, in emission order.
use vlcrs_module::lower::lower_unit;
use vlcrs_module::ops::{FixedValue, ItemKind, Op};
use vlcrs_module::pipeline::{compile, param_holder};
use vlcrs_module::toks::Tok;

fn id(s: &str) -> Tok {
    Tok::Ident(s.as_bytes().to_vec())
}

fn st(s: &str) -> Tok {
    Tok::StrLit(s.as_bytes().to_vec())
}

fn c(s: &str) -> Vec<u8> {
    let mut v = s.as_bytes().to_vec();
    v.push(0);
    v
}

fn b(s: &str) -> Vec<u8> {
    s.as_bytes().to_vec()
}

fn minimal() -> Vec<Tok> {
    vec![
        id("type"), Tok::Colon, id("Foo"), Tok::OpenParen, id("Loader"), Tok::CloseParen,
        Tok::Comma,
        id("capability"), Tok::Colon, st("decoder"), Tok::At, Tok::IntLit(50), Tok::Comma,
        id("category"), Tok::Colon, id("Video"), Tok::Comma,
        id("description"), Tok::Colon, st("Foo decoder"),
    ]
}

fn param(scalar: &str, tags: &[&str], body: Vec<Tok>) -> Vec<Tok> {
    let mut toks = vec![
        Tok::Comma,
        Tok::Pound, Tok::OpenBracket, id("prefix"), Tok::Assign, st("foo-"), Tok::CloseBracket,
        id("params"), Tok::Colon, Tok::OpenBrace,
    ];
    for tag in tags {
        toks.extend(vec![Tok::Pound, Tok::OpenBracket, id(tag), Tok::CloseBracket]);
    }
    toks.extend(vec![id("bar_baz"), Tok::Colon, id(scalar), Tok::OpenBrace]);
    toks.extend(body);
    toks.extend(vec![
        id("text"), Tok::Colon, st("t"), Tok::Comma,
        id("long_text"), Tok::Colon, st("lt"),
        Tok::CloseBrace,
        Tok::CloseBrace,
    ]);
    toks
}

#[test]
fn minimal_module_lowers_to_exact_sequence() {
    let d = compile(&minimal()).unwrap();
    let ops = lower_unit(&d, &vec![false]);
    assert_eq!(ops, vec![
        Op::CreateModule,
        Op::SetName(c("foo-rs")),
        Op::SetCapability(c("decoder")),
        Op::SetScore(50),
        Op::SetDescription(c("Foo decoder")),
        Op::SetOpenCallback(c("Foo-open")),
        Op::CreateConfigSubcategory(b("Video")),
    ]);
}

#[test]
fn deactivation_function_adds_close_callback() {
    let d = compile(&minimal()).unwrap();
    let ops = lower_unit(&d, &vec![true]);
    assert_eq!(ops, vec![
        Op::CreateModule,
        Op::SetName(c("foo-rs")),
        Op::SetCapability(c("decoder")),
        Op::SetScore(50),
        Op::SetDescription(c("Foo decoder")),
        Op::SetOpenCallback(c("Foo-open")),
        Op::SetCloseCallback(c("Foo-close")),
        Op::CreateConfigSubcategory(b("Video")),
    ]);
}

#[test]
fn help_shortname_shortcuts_emitted_in_order() {
    let mut toks = minimal();
    toks.extend(vec![
        Tok::Comma, id("help"), Tok::Colon, st("the help"),
        Tok::Comma, id("shortname"), Tok::Colon, st("foo"),
        Tok::Comma, id("shortcuts"), Tok::Colon, Tok::OpenBracket, st("f1"), Tok::Comma,
        st("f2"), Tok::CloseBracket,
    ]);
    let d = compile(&toks).unwrap();
    let ops = lower_unit(&d, &vec![false]);
    assert_eq!(ops, vec![
        Op::CreateModule,
        Op::SetName(c("foo-rs")),
        Op::SetCapability(c("decoder")),
        Op::SetScore(50),
        Op::SetDescription(c("Foo decoder")),
        Op::SetHelp(c("the help")),
        Op::SetShortname(c("foo")),
        Op::SetShortcuts(vec![c("f1"), c("f2")]),
        Op::SetOpenCallback(c("Foo-open")),
        Op::CreateConfigSubcategory(b("Video")),
    ]);
}

#[test]
fn deprecated_int_parameter_emits_exact_subsequence() {
    // item creation, description, key, value, removal marker — and no
    // range operation, since none was given.
    let mut toks = minimal();
    toks.extend(param("i64", &["deprecated"], vec![
        id("default"), Tok::Colon, Tok::IntLit(3), Tok::Comma,
    ]));
    let d = compile(&toks).unwrap();
    let ops = lower_unit(&d, &vec![false]);
    assert_eq!(&ops[7..], &[
        Op::CreateConfigItem(ItemKind::Integer),
        Op::SetConfigDesc(c("t"), c("lt")),
        Op::SetConfigName(c("foo-bar-baz")),
        Op::SetConfigValue(FixedValue::Int(3)),
        Op::SetConfigRemoved,
    ]);
}

#[test]
fn rgb_tag_overrides_explicit_range() {
    let mut toks = minimal();
    toks.extend(param("i64", &["rgb"], vec![
        id("default"), Tok::Colon, Tok::IntLit(0), Tok::Comma,
        id("range"), Tok::Colon, Tok::IntLit(1), Tok::DotDotAssign, Tok::IntLit(2), Tok::Comma,
    ]));
    let d = compile(&toks).unwrap();
    let ops = lower_unit(&d, &vec![false]);
    assert_eq!(ops.last().unwrap(),
        &Op::SetConfigRange(FixedValue::Int(0), FixedValue::Int(0xFFFFFF)));
    assert_eq!(ops[7], Op::CreateConfigItem(ItemKind::Rgb));
}

#[test]
fn explicit_range_emitted_without_rgb() {
    let mut toks = minimal();
    toks.extend(param("i64", &[], vec![
        id("default"), Tok::Colon, Tok::IntLit(5), Tok::Comma,
        id("range"), Tok::Colon, Tok::Minus, Tok::IntLit(200), Tok::DotDotAssign,
        Tok::IntLit(100), Tok::Comma,
    ]));
    let d = compile(&toks).unwrap();
    let ops = lower_unit(&d, &vec![false]);
    assert_eq!(ops.last().unwrap(),
        &Op::SetConfigRange(FixedValue::Int(-200), FixedValue::Int(100)));
}

#[test]
fn string_tags_select_item_kind() {
    let mut toks = minimal();
    toks.extend(param("str", &["password"], vec![
        id("default"), Tok::Colon, st("secret"), Tok::Comma,
    ]));
    let d = compile(&toks).unwrap();
    let ops = lower_unit(&d, &vec![false]);
    assert_eq!(ops[7], Op::CreateConfigItem(ItemKind::Password));
    assert_eq!(ops[10], Op::SetConfigValue(FixedValue::Bytes(c("secret"))));
}

#[test]
fn bool_parameter_value_coerced_to_integer() {
    let mut toks = minimal();
    toks.extend(param("bool", &[], vec![
        id("default"), Tok::Colon, Tok::BoolLit(true), Tok::Comma,
    ]));
    let d = compile(&toks).unwrap();
    let ops = lower_unit(&d, &vec![false]);
    assert_eq!(ops[7], Op::CreateConfigItem(ItemKind::Bool));
    assert_eq!(ops[10], Op::SetConfigValue(FixedValue::Int(1)));
}

#[test]
fn section_emits_creation_and_description_first() {
    let mut toks = minimal();
    toks.extend(vec![
        Tok::Comma,
        Tok::Pound, Tok::OpenBracket, id("prefix"), Tok::Assign, st("foo-"), Tok::CloseBracket,
        id("params"), Tok::Colon, Tok::OpenBrace,
        Tok::Pound, Tok::Bang, Tok::OpenBracket, id("section"), Tok::OpenParen,
        id("name"), Tok::Assign, st("General"),
        Tok::CloseParen, Tok::CloseBracket,
        id("x"), Tok::Colon, id("i64"), Tok::OpenBrace,
        id("default"), Tok::Colon, Tok::IntLit(3), Tok::Comma,
        id("text"), Tok::Colon, st("t"), Tok::Comma,
        id("long_text"), Tok::Colon, st("lt"),
        Tok::CloseBrace,
        Tok::CloseBrace,
    ]);
    let d = compile(&toks).unwrap();
    let ops = lower_unit(&d, &vec![false]);
    assert_eq!(ops[7], Op::CreateConfigSection);
    assert_eq!(ops[8], Op::SetConfigSectionDesc(c("General"), None));
    assert_eq!(ops[9], Op::CreateConfigItem(ItemKind::Integer));
}

#[test]
fn submodule_creates_module_and_emits_body_without_name() {
    let mut toks = minimal();
    toks.extend(vec![Tok::Comma, id("submodules"), Tok::Colon, Tok::OpenBracket, Tok::OpenBrace]);
    toks.extend(vec![
        id("type"), Tok::Colon, id("Bar"), Tok::OpenParen, id("Loader2"), Tok::CloseParen,
        Tok::Comma,
        id("capability"), Tok::Colon, st("encoder"), Tok::At, Tok::IntLit(7), Tok::Comma,
        id("category"), Tok::Colon, id("Audio"), Tok::Comma,
        id("description"), Tok::Colon, st("Bar encoder"),
    ]);
    toks.extend(vec![Tok::CloseBrace, Tok::CloseBracket]);
    let d = compile(&toks).unwrap();
    let ops = lower_unit(&d, &vec![false, true]);
    assert_eq!(&ops[7..], &[
        Op::CreateModule,
        Op::SetCapability(c("encoder")),
        Op::SetScore(7),
        Op::SetDescription(c("Bar encoder")),
        Op::SetOpenCallback(c("Bar-open")),
        Op::SetCloseCallback(c("Bar-close")),
        Op::CreateConfigSubcategory(b("Audio")),
    ]);
}

#[test]
fn holder_mirrors_parameter_names_and_types() {
    let mut toks = minimal();
    toks.extend(param("str", &[], vec![
        id("default"), Tok::Colon, st("d"), Tok::Comma,
    ]));
    let d = compile(&toks).unwrap();
    let h = param_holder(&d).unwrap();
    assert_eq!(h.name, b("FooArgs"));
    assert_eq!(h.fields.len(), 1);
    assert_eq!(h.fields[0].name, b("bar_baz"));
    assert_eq!(h.fields[0].scalar_type, vlcrs_module::descriptor::ScalarType::Str);
}

#[test]
fn module_without_params_has_no_holder() {
    let d = compile(&minimal()).unwrap();
    assert!(param_holder(&d).is_none());
}

#[test]
fn float_parameter_keeps_spelling() {
    let mut toks = minimal();
    toks.extend(param("f32", &[], vec![
        id("default"), Tok::Colon, Tok::FloatLit(b("0.5")), Tok::Comma,
        id("range"), Tok::Colon, Tok::FloatLit(b("0.0")), Tok::DotDotAssign,
        Tok::FloatLit(b("1.0")), Tok::Comma,
    ]));
    let d = compile(&toks).unwrap();
    let ops = lower_unit(&d, &vec![false]);
    assert_eq!(ops[7], Op::CreateConfigItem(ItemKind::Float));
    assert_eq!(ops[10], Op::SetConfigValue(FixedValue::Float(b("0.5"))));
    assert_eq!(ops.last().unwrap(),
        &Op::SetConfigRange(FixedValue::Float(b("0.0")), FixedValue::Float(b("1.0"))));
}

#[test]
fn negative_default_and_score_lowered() {
    let mut toks = vec![
        id("type"), Tok::Colon, id("Foo"), Tok::OpenParen, id("Loader"), Tok::CloseParen,
        Tok::Comma,
        id("capability"), Tok::Colon, st("decoder"), Tok::At, Tok::Minus, Tok::IntLit(1),
        Tok::Comma,
        id("category"), Tok::Colon, id("Video"), Tok::Comma,
        id("description"), Tok::Colon, st("d"),
    ];
    toks.extend(param("i64", &[], vec![
        id("default"), Tok::Colon, Tok::Minus, Tok::IntLit(5), Tok::Comma,
    ]));
    let d = compile(&toks).unwrap();
    let ops = lower_unit(&d, &vec![false]);
    assert!(ops.contains(&Op::SetScore(-1)));
    assert!(ops.contains(&Op::SetConfigValue(FixedValue::Int(-5))));
}
