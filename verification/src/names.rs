//! The name and identifier deriver: a pure function of a validated
//! descriptor. It computes the generated registration name, the per-parameter
//! registration key, and the per-module open/close callback labels.
use vstd::prelude::*;
use crate::toks::txt;

verus! {

/// Underscores rewritten to dashes, all other bytes kept.
pub open spec fn dash_bytes(s: Seq<u8>) -> Seq<u8> {
    s.map_values(|c: u8| if c == 95 { 45u8 } else { c })
}

/// ASCII upper-case letters lowered, all other bytes kept. The lowering
/// is deliberately ASCII-wise: it works on the UTF-8 bytes of the kind
/// identifier and never rewrites a multi-byte sequence, so a non-ASCII
/// letter passes through unchanged rather than being case-folded.
pub open spec fn lower_bytes(s: Seq<u8>) -> Seq<u8> {
    s.map_values(|c: u8| if 65 <= c <= 90 { (c + 32) as u8 } else { c })
}

/// Whether a prefix already ends in a separator byte (`-` or `_`).
pub open spec fn ends_in_separator(s: Seq<u8>) -> bool {
    s.len() > 0 && (s.last() == 45 || s.last() == 95)
}

/// The registration key of a parameter: the prefix joined to the dashed
/// parameter name, with exactly one separator between them.
pub open spec fn key_of(prefix: Seq<u8>, name: Seq<u8>) -> Seq<u8> {
    if ends_in_separator(prefix) {
        prefix + dash_bytes(name)
    } else {
        prefix + seq![45u8] + dash_bytes(name)
    }
}

/// The generated registration name: the lower-cased kind plus the fixed
/// suffix marking a non-native implementation origin. Lower-casing is
/// ASCII-wise (see `lower_bytes`); kinds are identifiers and are expected
/// to be ASCII.
pub open spec fn module_name_of(kind: Seq<u8>) -> Seq<u8> {
    lower_bytes(kind) + txt("-rs")
}

/// The open-callback label of a module.
pub open spec fn open_label_of(kind: Seq<u8>) -> Seq<u8> {
    kind + txt("-open")
}

/// The close-callback label of a module.
pub open spec fn close_label_of(kind: Seq<u8>) -> Seq<u8> {
    kind + txt("-close")
}

/// Append a byte vector to another.
pub fn append_bytes(dst: &mut Vec<u8>, src: &Vec<u8>)
    ensures
        final(dst)@ == old(dst)@ + src@,
{
    let mut i: usize = 0;
    while i < src.len()
        invariant
            0 <= i <= src.len(),
            dst@ == old(dst)@ + src@.take(i as int),
        decreases src.len() - i,
    {
        dst.push(src[i]);
        proof {
            assert(old(dst)@ + src@.take(i as int) + seq![src@[i as int]] =~= old(dst)@
                + src@.take(i + 1));
        }
        i += 1;
    }
    proof {
        assert(src@.take(src@.len() as int) =~= src@);
    }
}

/// Append the bytes of a string slice to a byte vector.
pub fn append_text(dst: &mut Vec<u8>, s: &str)
    ensures
        final(dst)@ == old(dst)@ + txt(s),
{
    let v = crate::toks::text_bytes(s);
    append_bytes(dst, &v);
}

/// Underscores rewritten to dashes.
pub fn dashed(name: &Vec<u8>) -> (r: Vec<u8>)
    ensures
        r@ == dash_bytes(name@),
{
    let mut r: Vec<u8> = Vec::new();
    let mut i: usize = 0;
    while i < name.len()
        invariant
            0 <= i <= name.len(),
            r@ == dash_bytes(name@.take(i as int)),
        decreases name.len() - i,
    {
        let c = name[i];
        if c == 95 {
            r.push(45);
        } else {
            r.push(c);
        }
        proof {
            assert(r@ =~= dash_bytes(name@.take(i + 1)));
        }
        i += 1;
    }
    proof {
        assert(name@.take(name@.len() as int) =~= name@);
    }
    r
}

/// ASCII lower-casing of a byte string; bytes outside `A`..`Z` are kept.
pub fn ascii_lowered(s: &Vec<u8>) -> (r: Vec<u8>)
    ensures
        r@ == lower_bytes(s@),
{
    let mut r: Vec<u8> = Vec::new();
    let mut i: usize = 0;
    while i < s.len()
        invariant
            0 <= i <= s.len(),
            r@ == lower_bytes(s@.take(i as int)),
        decreases s.len() - i,
    {
        let c = s[i];
        if 65 <= c && c <= 90 {
            r.push(c + 32);
        } else {
            r.push(c);
        }
        proof {
            assert(r@ =~= lower_bytes(s@.take(i + 1)));
        }
        i += 1;
    }
    proof {
        assert(s@.take(s@.len() as int) =~= s@);
    }
    r
}

/// The registration key of a parameter: prefix joined to the dashed name by
/// a single separator, with none added when the prefix already ends in one.
pub fn param_key(prefix: &Vec<u8>, name: &Vec<u8>) -> (r: Vec<u8>)
    ensures
        r@ == key_of(prefix@, name@),
{
    let mut r = crate::toks::bytes_clone(prefix);
    let sep = if r.len() == 0 {
        true
    } else {
        let last_byte = r[r.len() - 1];
        !(last_byte == 45 || last_byte == 95)
    };
    if sep {
        r.push(45);
    }
    let d = dashed(name);
    append_bytes(&mut r, &d);
    proof {
        if !ends_in_separator(prefix@) {
            assert(r@ =~= key_of(prefix@, name@));
        }
    }
    r
}

/// The generated registration name of a module.
pub fn module_name(kind: &Vec<u8>) -> (r: Vec<u8>)
    ensures
        r@ == module_name_of(kind@),
{
    let mut r = ascii_lowered(kind);
    append_text(&mut r, "-rs");
    r
}

/// The open-callback label of a module.
pub fn open_label(kind: &Vec<u8>) -> (r: Vec<u8>)
    ensures
        r@ == open_label_of(kind@),
{
    let mut r = crate::toks::bytes_clone(kind);
    append_text(&mut r, "-open");
    r
}

/// The close-callback label of a module.
pub fn close_label(kind: &Vec<u8>) -> (r: Vec<u8>)
    ensures
        r@ == close_label_of(kind@),
{
    let mut r = crate::toks::bytes_clone(kind);
    append_text(&mut r, "-close");
    r
}

} // verus!
