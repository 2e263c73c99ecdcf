//! Positioned diagnostics. Every failure of the compiler names the offending
//! token position and the violated rule; the first violation aborts the whole
//! compilation.
use vstd::prelude::*;

verus! {

/// The required keys whose absence is reported by name.
#[derive(Debug, PartialEq, Eq, Clone, Copy, Structural)]
pub enum ReqKey {
    TypeKey,
    LoaderName,
    Capability,
    Category,
    Description,
    SectionName,
    DefaultValue,
    Text,
    LongText,
}

/// The error taxonomy: each compilation failure is one of these.
#[derive(Debug, PartialEq, Eq)]
pub enum ErrorKind {
    /// Malformed token sequence: wrong separator, missing delimiter, a token
    /// where another was expected.
    Grammar,
    /// A key outside the fixed grammar, carrying the unknown key's name.
    UnknownKey(Vec<u8>),
    /// A mandatory key is absent.
    MissingRequiredKey(ReqKey),
    /// An unsupported scalar type, a default literal disagreeing with the
    /// declared scalar type, or a score too wide for the protocol.
    TypeConstraint,
    /// A range on a non-numeric parameter, a half-open or open range, or
    /// range bounds disagreeing with the parameter's scalar type.
    RangeConstraint,
    /// An annotation that its context does not permit, or a malformed one.
    AnnotationConflict,
    /// Parameters are present but no prefix is resolvable.
    PrefixMissing,
    /// A submodule body carrying its own submodules.
    Nesting,
}

/// Mathematical value of an error kind.
pub enum ErrKV {
    Grammar,
    UnknownKey(Seq<u8>),
    MissingRequiredKey(ReqKey),
    TypeConstraint,
    RangeConstraint,
    AnnotationConflict,
    PrefixMissing,
    Nesting,
}

impl View for ErrorKind {
    type V = ErrKV;

    open spec fn view(&self) -> ErrKV {
        match self {
            ErrorKind::Grammar => ErrKV::Grammar,
            ErrorKind::UnknownKey(k) => ErrKV::UnknownKey(k@),
            ErrorKind::MissingRequiredKey(k) => ErrKV::MissingRequiredKey(*k),
            ErrorKind::TypeConstraint => ErrKV::TypeConstraint,
            ErrorKind::RangeConstraint => ErrKV::RangeConstraint,
            ErrorKind::AnnotationConflict => ErrKV::AnnotationConflict,
            ErrorKind::PrefixMissing => ErrKV::PrefixMissing,
            ErrorKind::Nesting => ErrKV::Nesting,
        }
    }
}

/// A positioned diagnostic: the index of the offending token (or the input
/// length, for conditions detected at the end) and the violated rule.
#[derive(Debug, PartialEq, Eq)]
pub struct Diag {
    pub pos: usize,
    pub kind: ErrorKind,
}

/// Mathematical value of a diagnostic.
pub struct DiagV {
    pub pos: int,
    pub kind: ErrKV,
}

impl View for Diag {
    type V = DiagV;

    open spec fn view(&self) -> DiagV {
        DiagV { pos: self.pos as int, kind: self.kind@ }
    }
}

} // verus!
