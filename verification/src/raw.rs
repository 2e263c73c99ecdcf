//! The raw parse tree: what structural parsing produces before semantic
//! validation. Every field that the grammar makes optional, or whose
//! presence only the validator enforces, is an `Option` here. Positions of
//! the tokens that semantic diagnostics may need to name are kept alongside.
use vstd::prelude::*;
use crate::descriptor::{LitV, Literal, SecV, SectionDescriptor, Tag};
use crate::toks::ob;

verus! {

/// A range as written: either bound may be missing, and the range may be
/// half-open; the validator rejects those forms.
#[derive(Debug, PartialEq, Eq)]
pub struct RawRange {
    pub from: Option<Literal>,
    pub to: Option<Literal>,
    pub closed: bool,
    pub pos: usize,
}

/// Mathematical value of a raw range.
pub struct RawRangeV {
    pub from: Option<LitV>,
    pub to: Option<LitV>,
    pub closed: bool,
    pub pos: int,
}

/// View of an optional literal.
pub open spec fn olit(o: &Option<Literal>) -> Option<LitV> {
    match o {
        Some(l) => Some(l@),
        None => None,
    }
}

impl View for RawRange {
    type V = RawRangeV;

    open spec fn view(&self) -> RawRangeV {
        RawRangeV {
            from: olit(&self.from),
            to: olit(&self.to),
            closed: self.closed,
            pos: self.pos as int,
        }
    }
}

/// A parameter as written: the name and declared type name, the entries of
/// its braced body as far as they were given, and its annotations.
#[derive(Debug, PartialEq, Eq)]
pub struct RawParam {
    /// Position of the name token.
    pub pos: usize,
    pub name: Vec<u8>,
    /// The declared scalar type's name, not yet checked.
    pub scalar_name: Vec<u8>,
    /// Position of the type name token.
    pub scalar_pos: usize,
    pub default_value: Option<Literal>,
    pub range: Option<RawRange>,
    pub text: Option<Vec<u8>>,
    pub long_text: Option<Vec<u8>>,
    pub prefix: Option<Vec<u8>>,
    pub section: Option<SectionDescriptor>,
    pub tags: Vec<Tag>,
}

/// Mathematical value of a raw parameter.
pub struct RawParamV {
    pub pos: int,
    pub name: Seq<u8>,
    pub scalar_name: Seq<u8>,
    pub scalar_pos: int,
    pub default_value: Option<LitV>,
    pub range: Option<RawRangeV>,
    pub text: Option<Seq<u8>>,
    pub long_text: Option<Seq<u8>>,
    pub prefix: Option<Seq<u8>>,
    pub section: Option<SecV>,
    pub tags: Seq<Tag>,
}

impl View for RawParam {
    type V = RawParamV;

    open spec fn view(&self) -> RawParamV {
        RawParamV {
            pos: self.pos as int,
            name: self.name@,
            scalar_name: self.scalar_name@,
            scalar_pos: self.scalar_pos as int,
            default_value: olit(&self.default_value),
            range: match &self.range {
                Some(r) => Some(r@),
                None => None,
            },
            text: ob(&self.text),
            long_text: ob(&self.long_text),
            prefix: ob(&self.prefix),
            section: match &self.section {
                Some(s) => Some(s@),
                None => None,
            },
            tags: self.tags@,
        }
    }
}

/// A capability as written: name, score and the score token's position.
#[derive(Debug, PartialEq, Eq)]
pub struct RawCapability {
    pub name: Vec<u8>,
    pub score: i64,
    pub pos: usize,
}

/// Mathematical value of a raw capability.
pub struct RawCapV {
    pub name: Seq<u8>,
    pub score: i64,
    pub pos: int,
}

impl View for RawCapability {
    type V = RawCapV;

    open spec fn view(&self) -> RawCapV {
        RawCapV { name: self.name@, score: self.score, pos: self.pos as int }
    }
}

/// A module body as written. A later occurrence of a key silently
/// overwrites an earlier one.
#[derive(Debug, PartialEq, Eq)]
pub struct RawBody {
    pub kind: Option<Vec<u8>>,
    pub loader: Option<Vec<u8>>,
    pub category: Option<Vec<u8>>,
    pub capability: Option<RawCapability>,
    pub description: Option<Vec<u8>>,
    pub help: Option<Vec<u8>>,
    pub shortname: Option<Vec<u8>>,
    pub prefix: Option<Vec<u8>>,
    pub params: Option<Vec<RawParam>>,
    pub shortcuts: Option<Vec<Vec<u8>>>,
    /// The position just after the body's last token, where conditions
    /// detected at the end are reported.
    pub end_pos: usize,
}

/// Mathematical value of a raw module body.
pub struct RawBodyV {
    pub kind: Option<Seq<u8>>,
    pub loader: Option<Seq<u8>>,
    pub category: Option<Seq<u8>>,
    pub capability: Option<RawCapV>,
    pub description: Option<Seq<u8>>,
    pub help: Option<Seq<u8>>,
    pub shortname: Option<Seq<u8>>,
    pub prefix: Option<Seq<u8>>,
    pub params: Option<Seq<RawParamV>>,
    pub shortcuts: Option<Seq<Seq<u8>>>,
    pub end_pos: int,
}

impl View for RawBody {
    type V = RawBodyV;

    open spec fn view(&self) -> RawBodyV {
        RawBodyV {
            kind: ob(&self.kind),
            loader: ob(&self.loader),
            category: ob(&self.category),
            capability: match &self.capability {
                Some(c) => Some(c@),
                None => None,
            },
            description: ob(&self.description),
            help: ob(&self.help),
            shortname: ob(&self.shortname),
            prefix: ob(&self.prefix),
            params: match &self.params {
                Some(ps) => Some(ps@.map_values(|p: RawParam| p@)),
                None => None,
            },
            shortcuts: match &self.shortcuts {
                Some(ss) => Some(ss@.map_values(|s: Vec<u8>| s@)),
                None => None,
            },
            end_pos: self.end_pos as int,
        }
    }
}

/// A whole compilation unit as written: the primary body and the bodies of
/// the submodules, which the grammar keeps flat (a submodule body may not
/// declare submodules of its own).
#[derive(Debug, PartialEq, Eq)]
pub struct RawModule {
    pub primary: RawBody,
    pub submodules: Option<Vec<RawBody>>,
}

/// Mathematical value of a raw module.
pub struct RawModuleV {
    pub primary: RawBodyV,
    pub submodules: Option<Seq<RawBodyV>>,
}

impl View for RawModule {
    type V = RawModuleV;

    open spec fn view(&self) -> RawModuleV {
        RawModuleV {
            primary: self.primary@,
            submodules: match &self.submodules {
                Some(ss) => Some(ss@.map_values(|b: RawBody| b@)),
                None => None,
            },
        }
    }
}

/// The state a module body's parse starts from: nothing seen yet.
pub open spec fn empty_body() -> RawBodyV {
    RawBodyV {
        kind: None,
        loader: None,
        category: None,
        capability: None,
        description: None,
        help: None,
        shortname: None,
        prefix: None,
        params: None,
        shortcuts: None,
        end_pos: 0,
    }
}

/// The state a module parse starts from.
pub open spec fn empty_module() -> RawModuleV {
    RawModuleV { primary: empty_body(), submodules: None }
}

/// An empty raw module body.
pub fn new_body() -> (r: RawBody)
    ensures
        r@ == empty_body(),
{
    RawBody {
        kind: None,
        loader: None,
        category: None,
        capability: None,
        description: None,
        help: None,
        shortname: None,
        prefix: None,
        params: None,
        shortcuts: None,
        end_pos: 0,
    }
}

/// An empty raw module.
pub fn new_module() -> (r: RawModule)
    ensures
        r@ == empty_module(),
{
    RawModule { primary: new_body(), submodules: None }
}

} // verus!
