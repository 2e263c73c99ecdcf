//! The closed set of registration operations that lowering produces. Each
//! operation mirrors one opcode of the external registration protocol.
//! Byte-string payloads are NUL-terminated, as the protocol requires.
use vstd::prelude::*;

verus! {

/// The concrete kind of a config item, derived from a parameter's scalar
/// type and tags.
#[derive(Debug, PartialEq, Eq, Clone, Copy, Structural)]
pub enum ItemKind {
    Integer,
    Rgb,
    Float,
    Bool,
    Text,
    Font,
    Savefile,
    Loadfile,
    Password,
    Directory,
}

/// A value coerced to the protocol's fixed-width representation: booleans
/// and integers become a 64-bit signed integer, floats keep their
/// double-precision spelling, strings become a NUL-terminated byte sequence.
#[derive(Debug, PartialEq, Eq)]
pub enum FixedValue {
    Int(i64),
    Float(Vec<u8>),
    Bytes(Vec<u8>),
}

/// Mathematical value of a fixed-width value.
pub enum FixV {
    Int(i64),
    Float(Seq<u8>),
    Bytes(Seq<u8>),
}

impl View for FixedValue {
    type V = FixV;

    open spec fn view(&self) -> FixV {
        match self {
            FixedValue::Int(v) => FixV::Int(*v),
            FixedValue::Float(v) => FixV::Float(v@),
            FixedValue::Bytes(v) => FixV::Bytes(v@),
        }
    }
}

/// One registration operation.
#[derive(Debug, PartialEq, Eq)]
pub enum Op {
    CreateModule,
    SetName(Vec<u8>),
    SetCapability(Vec<u8>),
    SetScore(i32),
    SetDescription(Vec<u8>),
    SetHelp(Vec<u8>),
    SetShortname(Vec<u8>),
    SetShortcuts(Vec<Vec<u8>>),
    /// Callback label; the opaque function reference itself is supplied at
    /// the protocol boundary.
    SetOpenCallback(Vec<u8>),
    SetCloseCallback(Vec<u8>),
    /// The category identifier, consumed verbatim.
    CreateConfigSubcategory(Vec<u8>),
    CreateConfigSection,
    SetConfigSectionDesc(Vec<u8>, Option<Vec<u8>>),
    CreateConfigItem(ItemKind),
    SetConfigDesc(Vec<u8>, Vec<u8>),
    SetConfigName(Vec<u8>),
    SetConfigValue(FixedValue),
    SetConfigRemoved,
    SetConfigRange(FixedValue, FixedValue),
}

/// Mathematical value of an operation.
pub enum OpV {
    CreateModule,
    SetName(Seq<u8>),
    SetCapability(Seq<u8>),
    SetScore(i32),
    SetDescription(Seq<u8>),
    SetHelp(Seq<u8>),
    SetShortname(Seq<u8>),
    SetShortcuts(Seq<Seq<u8>>),
    SetOpenCallback(Seq<u8>),
    SetCloseCallback(Seq<u8>),
    CreateConfigSubcategory(Seq<u8>),
    CreateConfigSection,
    SetConfigSectionDesc(Seq<u8>, Option<Seq<u8>>),
    CreateConfigItem(ItemKind),
    SetConfigDesc(Seq<u8>, Seq<u8>),
    SetConfigName(Seq<u8>),
    SetConfigValue(FixV),
    SetConfigRemoved,
    SetConfigRange(FixV, FixV),
}

impl View for Op {
    type V = OpV;

    open spec fn view(&self) -> OpV {
        match self {
            Op::CreateModule => OpV::CreateModule,
            Op::SetName(v) => OpV::SetName(v@),
            Op::SetCapability(v) => OpV::SetCapability(v@),
            Op::SetScore(v) => OpV::SetScore(*v),
            Op::SetDescription(v) => OpV::SetDescription(v@),
            Op::SetHelp(v) => OpV::SetHelp(v@),
            Op::SetShortname(v) => OpV::SetShortname(v@),
            Op::SetShortcuts(v) => OpV::SetShortcuts(v@.map_values(|s: Vec<u8>| s@)),
            Op::SetOpenCallback(v) => OpV::SetOpenCallback(v@),
            Op::SetCloseCallback(v) => OpV::SetCloseCallback(v@),
            Op::CreateConfigSubcategory(v) => OpV::CreateConfigSubcategory(v@),
            Op::CreateConfigSection => OpV::CreateConfigSection,
            Op::SetConfigSectionDesc(n, d) => OpV::SetConfigSectionDesc(
                n@,
                crate::toks::ob(d),
            ),
            Op::CreateConfigItem(k) => OpV::CreateConfigItem(*k),
            Op::SetConfigDesc(t, l) => OpV::SetConfigDesc(t@, l@),
            Op::SetConfigName(v) => OpV::SetConfigName(v@),
            Op::SetConfigValue(v) => OpV::SetConfigValue(v@),
            Op::SetConfigRemoved => OpV::SetConfigRemoved,
            Op::SetConfigRange(a, b) => OpV::SetConfigRange(a@, b@),
        }
    }
}

/// The view of a sequence of operations.
pub open spec fn opsv(v: Seq<Op>) -> Seq<OpV> {
    v.map_values(|o: Op| o@)
}

/// A byte string as the protocol receives it: NUL-terminated.
pub open spec fn c_str(s: Seq<u8>) -> Seq<u8> {
    s.push(0)
}

/// NUL-terminate a byte string.
pub fn c_bytes(s: &Vec<u8>) -> (r: Vec<u8>)
    ensures
        r@ == c_str(s@),
{
    let mut r = crate::toks::bytes_clone(s);
    r.push(0);
    r
}

} // verus!
