//! The descriptor model: the typed tree that a validated module description
//! becomes. Built once by the validator, consumed by the lowering engine,
//! never mutated afterwards.
use vstd::prelude::*;

verus! {

/// The four scalar types a parameter can have.
#[derive(Debug, PartialEq, Eq, Clone, Copy, Structural)]
pub enum ScalarType {
    Int64,
    Float32,
    Boolean,
    Str,
}

/// The tags a parameter entry can carry.
#[derive(Debug, PartialEq, Eq, Clone, Copy, Structural)]
pub enum Tag {
    Deprecated,
    Rgb,
    Font,
    Savefile,
    Loadfile,
    Password,
    Directory,
}

/// A literal value: integers, floats (kept as their spelling, so that no
/// floating-point arithmetic ever happens here), booleans and strings.
#[derive(Debug, PartialEq, Eq)]
pub enum Literal {
    Int(i64),
    Float(Vec<u8>),
    Bool(bool),
    Str(Vec<u8>),
}

/// Mathematical value of a literal.
pub enum LitV {
    Int(i64),
    Float(Seq<u8>),
    Bool(bool),
    Str(Seq<u8>),
}

impl View for Literal {
    type V = LitV;

    open spec fn view(&self) -> LitV {
        match self {
            Literal::Int(v) => LitV::Int(*v),
            Literal::Float(v) => LitV::Float(v@),
            Literal::Bool(v) => LitV::Bool(*v),
            Literal::Str(v) => LitV::Str(v@),
        }
    }
}

/// A labeled grouping boundary applied to the parameters that follow it.
#[derive(Debug, PartialEq, Eq)]
pub struct SectionDescriptor {
    pub name: Vec<u8>,
    pub description: Option<Vec<u8>>,
}

/// Mathematical value of a section.
pub struct SecV {
    pub name: Seq<u8>,
    pub description: Option<Seq<u8>>,
}

impl View for SectionDescriptor {
    type V = SecV;

    open spec fn view(&self) -> SecV {
        SecV { name: self.name@, description: crate::toks::ob(&self.description) }
    }
}

/// The named role a module fulfills, with its relative priority score.
#[derive(Debug, PartialEq, Eq)]
pub struct CapabilityDescriptor {
    pub name: Vec<u8>,
    pub score: i32,
}

/// Mathematical value of a capability.
pub struct CapV {
    pub name: Seq<u8>,
    pub score: i32,
}

impl View for CapabilityDescriptor {
    type V = CapV;

    open spec fn view(&self) -> CapV {
        CapV { name: self.name@, score: self.score }
    }
}

/// One validated parameter.
#[derive(Debug, PartialEq, Eq)]
pub struct ParameterDescriptor {
    pub name: Vec<u8>,
    pub scalar_type: ScalarType,
    /// A fully-bounded closed interval; only on numeric parameters.
    pub range: Option<(Literal, Literal)>,
    pub default_value: Literal,
    pub text: Vec<u8>,
    pub long_text: Vec<u8>,
    /// Overrides the module-level prefix when present.
    pub prefix: Option<Vec<u8>>,
    pub section: Option<SectionDescriptor>,
    pub tags: Vec<Tag>,
}

/// Mathematical value of a parameter.
pub struct ParamV {
    pub name: Seq<u8>,
    pub scalar_type: ScalarType,
    pub range: Option<(LitV, LitV)>,
    pub default_value: LitV,
    pub text: Seq<u8>,
    pub long_text: Seq<u8>,
    pub prefix: Option<Seq<u8>>,
    pub section: Option<SecV>,
    pub tags: Seq<Tag>,
}

impl View for ParameterDescriptor {
    type V = ParamV;

    open spec fn view(&self) -> ParamV {
        ParamV {
            name: self.name@,
            scalar_type: self.scalar_type,
            range: match &self.range {
                Some(r) => Some((r.0@, r.1@)),
                None => None,
            },
            default_value: self.default_value@,
            text: self.text@,
            long_text: self.long_text@,
            prefix: crate::toks::ob(&self.prefix),
            section: match &self.section {
                Some(s) => Some(s@),
                None => None,
            },
            tags: self.tags@,
        }
    }
}

/// One validated module body: everything a module or submodule declares.
#[derive(Debug, PartialEq, Eq)]
pub struct ModuleBody {
    /// Identifier naming the module's logical type.
    pub kind: Vec<u8>,
    /// Identifier naming the activation/deactivation provider.
    pub loader: Vec<u8>,
    /// Classification bucket, consumed verbatim.
    pub category: Vec<u8>,
    pub capability: CapabilityDescriptor,
    pub description: Vec<u8>,
    pub help: Option<Vec<u8>>,
    pub shortname: Option<Vec<u8>>,
    /// Namespace applied to parameter registration keys.
    pub prefix: Option<Vec<u8>>,
    pub params: Option<Vec<ParameterDescriptor>>,
    pub shortcuts: Option<Vec<Vec<u8>>>,
}

/// Mathematical value of a module body.
pub struct BodyV {
    pub kind: Seq<u8>,
    pub loader: Seq<u8>,
    pub category: Seq<u8>,
    pub capability: CapV,
    pub description: Seq<u8>,
    pub help: Option<Seq<u8>>,
    pub shortname: Option<Seq<u8>>,
    pub prefix: Option<Seq<u8>>,
    pub params: Option<Seq<ParamV>>,
    pub shortcuts: Option<Seq<Seq<u8>>>,
}

impl View for ModuleBody {
    type V = BodyV;

    open spec fn view(&self) -> BodyV {
        BodyV {
            kind: self.kind@,
            loader: self.loader@,
            category: self.category@,
            capability: self.capability@,
            description: self.description@,
            help: crate::toks::ob(&self.help),
            shortname: crate::toks::ob(&self.shortname),
            prefix: crate::toks::ob(&self.prefix),
            params: match &self.params {
                Some(ps) => Some(ps@.map_values(|p: ParameterDescriptor| p@)),
                None => None,
            },
            shortcuts: match &self.shortcuts {
                Some(ss) => Some(ss@.map_values(|s: Vec<u8>| s@)),
                None => None,
            },
        }
    }
}

/// A whole validated compilation unit: the primary module body and its
/// submodules. A submodule is itself a plain body, so by construction it can
/// carry no submodules of its own (nesting depth is at most one).
#[derive(Debug, PartialEq, Eq)]
pub struct ModuleDescriptor {
    pub primary: ModuleBody,
    pub submodules: Option<Vec<ModuleBody>>,
}

/// Mathematical value of a module descriptor.
pub struct ModV {
    pub primary: BodyV,
    pub submodules: Option<Seq<BodyV>>,
}

impl View for ModuleDescriptor {
    type V = ModV;

    open spec fn view(&self) -> ModV {
        ModV {
            primary: self.primary@,
            submodules: match &self.submodules {
                Some(ss) => Some(ss@.map_values(|b: ModuleBody| b@)),
                None => None,
            },
        }
    }
}

} // verus!
