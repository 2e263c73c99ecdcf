//! Derived names: registration keys, module names, callback labels.
use vlcrs_module::names::{close_label, module_name, open_label, param_key};
use vlcrs_module::pipeline::api_version;

fn b(s: &str) -> Vec<u8> {
    s.as_bytes().to_vec()
}

#[test]
fn key_prefix_with_trailing_dash() {
    // prefix "foo-" + name "bar_baz" -> "foo-bar-baz": no second separator,
    // underscores rewritten.
    assert_eq!(param_key(&b("foo-"), &b("bar_baz")), b("foo-bar-baz"));
}

#[test]
fn key_prefix_without_separator() {
    // prefix "foo" + name "bar" -> exactly one separator inserted.
    assert_eq!(param_key(&b("foo"), &b("bar")), b("foo-bar"));
}

#[test]
fn key_prefix_with_trailing_underscore() {
    assert_eq!(param_key(&b("foo_"), &b("bar")), b("foo_bar"));
}

#[test]
fn key_empty_prefix_still_separated() {
    assert_eq!(param_key(&b(""), &b("bar")), b("-bar"));
}

#[test]
fn key_underscores_only_in_name_rewritten() {
    assert_eq!(param_key(&b("a_b-"), &b("c_d_e")), b("a_b-c-d-e"));
}

#[test]
fn module_name_lowercases_and_suffixes() {
    assert_eq!(module_name(&b("Foo")), b("foo-rs"));
    assert_eq!(module_name(&b("HTTPDemux")), b("httpdemux-rs"));
    assert_eq!(module_name(&b("already_lower")), b("already_lower-rs"));
}

#[test]
fn callback_labels_keep_kind_spelling() {
    assert_eq!(open_label(&b("Foo")), b("Foo-open"));
    assert_eq!(close_label(&b("Foo")), b("Foo-close"));
}

#[test]
fn api_version_is_nul_terminated() {
    assert_eq!(api_version(), b"4.0.6\0".to_vec());
}
