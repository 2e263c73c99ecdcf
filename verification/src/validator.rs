//! The semantic validator: runs after structural parsing and enforces the
//! cross-field invariants the grammar alone cannot express, in a fixed
//! order of primacy — mandatory keys, score width, prefix resolvability,
//! then per parameter the scalar type and default agreement, the range
//! rules, and the tag context rules; submodule bodies pass the same checks.
//! The first violation aborts the whole compilation. On success it builds
//! the validated descriptor.
use vstd::prelude::*;
use vstd::string::StringSliceAdditionalSpecFns;
use crate::descriptor::{CapabilityDescriptor, CapV, LitV, Literal, ModuleBody, ModuleDescriptor,
    ModV, BodyV, ParameterDescriptor, ParamV, ScalarType, Tag};
use crate::diag::{Diag, DiagV, ErrKV, ErrorKind, ReqKey};
use crate::raw::{RawBody, RawBodyV, RawModule, RawModuleV, RawParam, RawParamV};
use crate::toks::{bytes_clone, bytes_eq, opt_bytes_clone, txt};

verus! {

/// The scalar type a type name denotes, if it is one of the four supported.
pub open spec fn scalar_of_name(n: Seq<u8>) -> Option<ScalarType> {
    if n == txt("i64") {
        Some(ScalarType::Int64)
    } else if n == txt("f32") {
        Some(ScalarType::Float32)
    } else if n == txt("bool") {
        Some(ScalarType::Boolean)
    } else if n == txt("str") {
        Some(ScalarType::Str)
    } else {
        None
    }
}

/// The scalar type a type name denotes, if any.
pub fn scalar_name(n: &Vec<u8>) -> (r: Option<ScalarType>)
    ensures
        r == scalar_of_name(n@),
{
    if bytes_eq(n, "i64".as_bytes()) {
        Some(ScalarType::Int64)
    } else if bytes_eq(n, "f32".as_bytes()) {
        Some(ScalarType::Float32)
    } else if bytes_eq(n, "bool".as_bytes()) {
        Some(ScalarType::Boolean)
    } else if bytes_eq(n, "str".as_bytes()) {
        Some(ScalarType::Str)
    } else {
        None
    }
}

/// Whether a default literal's type agrees with the declared scalar type.
pub open spec fn default_agrees(st: ScalarType, l: LitV) -> bool {
    match st {
        ScalarType::Int64 => l is Int,
        ScalarType::Float32 => l is Float,
        ScalarType::Boolean => l is Bool,
        ScalarType::Str => l is Str,
    }
}

/// Whether a range bound literal agrees with the declared scalar type.
pub open spec fn bound_agrees(st: ScalarType, l: LitV) -> bool {
    match st {
        ScalarType::Int64 => l is Int,
        ScalarType::Float32 => l is Float,
        _ => false,
    }
}

/// Whether a tag is permitted on a parameter of the given scalar type: rgb
/// only on integers; the string-item tags only on strings; deprecated on
/// any parameter.
pub open spec fn tag_permitted(st: ScalarType, tag: Tag) -> bool {
    match tag {
        Tag::Deprecated => true,
        Tag::Rgb => st == ScalarType::Int64,
        Tag::Font => st == ScalarType::Str,
        Tag::Savefile => st == ScalarType::Str,
        Tag::Loadfile => st == ScalarType::Str,
        Tag::Password => st == ScalarType::Str,
        Tag::Directory => st == ScalarType::Str,
    }
}

/// The first missing mandatory key of a body, reported at the body's end.
pub open spec fn val_mandatory(b: RawBodyV) -> Option<DiagV> {
    if b.kind is None {
        Some(DiagV { pos: b.end_pos, kind: ErrKV::MissingRequiredKey(ReqKey::TypeKey) })
    } else if b.loader is None {
        Some(DiagV { pos: b.end_pos, kind: ErrKV::MissingRequiredKey(ReqKey::LoaderName) })
    } else if b.capability is None {
        Some(DiagV { pos: b.end_pos, kind: ErrKV::MissingRequiredKey(ReqKey::Capability) })
    } else if b.category is None {
        Some(DiagV { pos: b.end_pos, kind: ErrKV::MissingRequiredKey(ReqKey::Category) })
    } else if b.description is None {
        Some(DiagV { pos: b.end_pos, kind: ErrKV::MissingRequiredKey(ReqKey::Description) })
    } else {
        None
    }
}

/// A score must fit the protocol's 32-bit signed score field.
pub open spec fn val_score(b: RawBodyV) -> Option<DiagV> {
    match b.capability {
        Some(c) => if c.score < i32::MIN || c.score > i32::MAX {
            Some(DiagV { pos: c.pos, kind: ErrKV::TypeConstraint })
        } else {
            None
        },
        None => None,
    }
}

/// If parameters are present, every parameter must have a resolvable
/// prefix: its own, or the module's.
pub open spec fn val_prefix(b: RawBodyV) -> Option<DiagV> {
    match b.params {
        Some(ps) => if b.prefix is None && (exists|k: int|
            0 <= k < ps.len() && ps[k].prefix is None) {
            Some(DiagV { pos: b.end_pos, kind: ErrKV::PrefixMissing })
        } else {
            None
        },
        None => None,
    }
}

/// The first parameter whose scalar type is unsupported, whose required
/// body entries are absent, or whose default literal disagrees with its
/// scalar type.
pub open spec fn val_types(ps: Seq<RawParamV>, k: int) -> Option<DiagV>
    decreases ps.len() - k,
        when 0 <= k <= ps.len()
{
    if k >= ps.len() {
        None
    } else {
        let p = ps[k];
        match scalar_of_name(p.scalar_name) {
            None => Some(DiagV { pos: p.scalar_pos, kind: ErrKV::TypeConstraint }),
            Some(st) => match p.default_value {
                None => Some(DiagV { pos: p.pos, kind: ErrKV::MissingRequiredKey(ReqKey::DefaultValue) }),
                Some(l) => if p.text is None {
                    Some(DiagV { pos: p.pos, kind: ErrKV::MissingRequiredKey(ReqKey::Text) })
                } else if p.long_text is None {
                    Some(DiagV { pos: p.pos, kind: ErrKV::MissingRequiredKey(ReqKey::LongText) })
                } else if !default_agrees(st, l) {
                    Some(DiagV { pos: p.pos, kind: ErrKV::TypeConstraint })
                } else {
                    val_types(ps, k + 1)
                },
            },
        }
    }
}

/// The first parameter with an ill-formed range: a range on a non-numeric
/// parameter, a half-open range, a missing bound, or bounds disagreeing
/// with the scalar type.
pub open spec fn val_ranges(ps: Seq<RawParamV>, k: int) -> Option<DiagV>
    decreases ps.len() - k,
        when 0 <= k <= ps.len()
{
    if k >= ps.len() {
        None
    } else {
        let p = ps[k];
        match p.range {
            None => val_ranges(ps, k + 1),
            Some(r) => {
                let numeric = scalar_of_name(p.scalar_name) == Some(ScalarType::Int64)
                    || scalar_of_name(p.scalar_name) == Some(ScalarType::Float32);
                if !numeric {
                    Some(DiagV { pos: r.pos, kind: ErrKV::RangeConstraint })
                } else if !r.closed {
                    Some(DiagV { pos: r.pos, kind: ErrKV::RangeConstraint })
                } else {
                    match (r.from, r.to) {
                        (Some(a), Some(bnd)) => {
                            let st = match scalar_of_name(p.scalar_name) {
                                Some(st) => st,
                                None => ScalarType::Int64,
                            };
                            if bound_agrees(st, a) && bound_agrees(st, bnd) {
                                val_ranges(ps, k + 1)
                            } else {
                                Some(DiagV { pos: r.pos, kind: ErrKV::RangeConstraint })
                            }
                        },
                        _ => Some(DiagV { pos: r.pos, kind: ErrKV::RangeConstraint }),
                    }
                }
            },
        }
    }
}

/// The first tag of a list not permitted for the given scalar type.
pub open spec fn val_tag_list(tags: Seq<Tag>, st: ScalarType, m: int, pos: int) -> Option<DiagV>
    decreases tags.len() - m,
        when 0 <= m <= tags.len()
{
    if m >= tags.len() {
        None
    } else if !tag_permitted(st, tags[m]) {
        Some(DiagV { pos, kind: ErrKV::AnnotationConflict })
    } else {
        val_tag_list(tags, st, m + 1, pos)
    }
}

/// The first parameter carrying a tag that its context does not permit.
pub open spec fn val_tags(ps: Seq<RawParamV>, k: int) -> Option<DiagV>
    decreases ps.len() - k,
        when 0 <= k <= ps.len()
{
    if k >= ps.len() {
        None
    } else {
        let p = ps[k];
        match scalar_of_name(p.scalar_name) {
            None => val_tags(ps, k + 1),
            Some(st) => match val_tag_list(p.tags, st, 0, p.pos) {
                Some(e) => Some(e),
                None => val_tags(ps, k + 1),
            },
        }
    }
}

/// The validated form of a parameter (meaningful once the checks passed).
pub open spec fn desc_param(p: RawParamV) -> ParamV {
    ParamV {
        name: p.name,
        scalar_type: match scalar_of_name(p.scalar_name) {
            Some(st) => st,
            None => ScalarType::Int64,
        },
        range: match p.range {
            Some(r) => match (r.from, r.to) {
                (Some(a), Some(bnd)) => Some((a, bnd)),
                _ => None,
            },
            None => None,
        },
        default_value: match p.default_value {
            Some(l) => l,
            None => LitV::Int(0),
        },
        text: match p.text {
            Some(v) => v,
            None => Seq::empty(),
        },
        long_text: match p.long_text {
            Some(v) => v,
            None => Seq::empty(),
        },
        prefix: p.prefix,
        section: p.section,
        tags: p.tags,
    }
}

/// The validated form of a module body.
pub open spec fn desc_body(b: RawBodyV) -> BodyV {
    BodyV {
        kind: match b.kind {
            Some(v) => v,
            None => Seq::empty(),
        },
        loader: match b.loader {
            Some(v) => v,
            None => Seq::empty(),
        },
        category: match b.category {
            Some(v) => v,
            None => Seq::empty(),
        },
        capability: match b.capability {
            Some(c) => CapV { name: c.name, score: c.score as i32 },
            None => CapV { name: Seq::empty(), score: 0 },
        },
        description: match b.description {
            Some(v) => v,
            None => Seq::empty(),
        },
        help: b.help,
        shortname: b.shortname,
        prefix: b.prefix,
        params: match b.params {
            Some(ps) => Some(ps.map_values(|p: RawParamV| desc_param(p))),
            None => None,
        },
        shortcuts: b.shortcuts,
    }
}

/// The whole validation of one body, in the order of primacy, producing
/// the validated body exactly when every check passes.
pub open spec fn val_body(b: RawBodyV) -> Result<BodyV, DiagV> {
    match val_mandatory(b) {
        Some(e) => Err(e),
        None => match val_score(b) {
            Some(e) => Err(e),
            None => match val_prefix(b) {
                Some(e) => Err(e),
                None => {
                    let ps = match b.params {
                        Some(ps) => ps,
                        None => Seq::empty(),
                    };
                    match val_types(ps, 0) {
                        Some(e) => Err(e),
                        None => match val_ranges(ps, 0) {
                            Some(e) => Err(e),
                            None => match val_tags(ps, 0) {
                                Some(e) => Err(e),
                                None => Ok(desc_body(b)),
                            },
                        },
                    }
                },
            },
        },
    }
}

/// Validation of the submodule bodies, in declaration order.
pub open spec fn val_subs(subs: Seq<RawBodyV>, k: int, acc: Seq<BodyV>) -> Result<
    Seq<BodyV>,
    DiagV,
>
    decreases subs.len() - k,
        when 0 <= k <= subs.len()
{
    if k >= subs.len() {
        Ok(acc)
    } else {
        match val_body(subs[k]) {
            Err(e) => Err(e),
            Ok(b) => val_subs(subs, k + 1, acc.push(b)),
        }
    }
}

/// The whole validation of a parsed module: the primary body first, then
/// each submodule body under the same rules.
pub open spec fn val_module(m: RawModuleV) -> Result<ModV, DiagV> {
    match val_body(m.primary) {
        Err(e) => Err(e),
        Ok(b) => match m.submodules {
            None => Ok(ModV { primary: b, submodules: None }),
            Some(subs) => match val_subs(subs, 0, Seq::empty()) {
                Err(e) => Err(e),
                Ok(bs) => Ok(ModV { primary: b, submodules: Some(bs) }),
            },
        },
    }
}


/// A body that passed validation has a resolvable prefix for every one of
/// its parameters, so it satisfies the lowering engine's precondition.
pub proof fn lemma_val_body_prefixes(b: RawBodyV, d: BodyV)
    requires
        val_body(b) == Ok::<BodyV, DiagV>(d),
    ensures
        crate::lower::body_prefixes_resolvable(d),
{
    match b.params {
        Some(ps) => {
            let dps = d.params->Some_0;
            assert(dps == ps.map_values(|p: RawParamV| desc_param(p)));
            assert forall|k: int| 0 <= k < dps.len() implies crate::lower::prefix_resolvable(
                d.prefix,
                #[trigger] dps[k],
            ) by {
                assert(dps[k] == desc_param(ps[k]));
                if b.prefix is None {
                    assert(val_prefix(b) is None);
                    assert(!(exists|j: int| 0 <= j < ps.len() && ps[j].prefix is None));
                    assert(ps[k].prefix is Some);
                }
            }
        },
        None => {},
    }
}

/// Every body that `val_subs` lets through satisfies the lowering
/// engine's prefix precondition, provided those already collected do.
pub proof fn lemma_val_subs_prefixes(subs: Seq<RawBodyV>, k: int, acc: Seq<BodyV>, out: Seq<BodyV>)
    requires
        0 <= k <= subs.len(),
        val_subs(subs, k, acc) == Ok::<Seq<BodyV>, DiagV>(out),
        forall|j: int|
            0 <= j < acc.len() ==> crate::lower::body_prefixes_resolvable(#[trigger] acc[j]),
    ensures
        forall|j: int|
            0 <= j < out.len() ==> crate::lower::body_prefixes_resolvable(#[trigger] out[j]),
    decreases subs.len() - k,
{
    if k >= subs.len() {
        assert(out == acc);
    } else {
        match val_body(subs[k]) {
            Err(e) => {
                assert(false);
            },
            Ok(b) => {
                lemma_val_body_prefixes(subs[k], b);
                assert(forall|j: int|
                    0 <= j < acc.push(b).len() ==> crate::lower::body_prefixes_resolvable(
                        #[trigger] acc.push(b)[j],
                    ));
                lemma_val_subs_prefixes(subs, k + 1, acc.push(b), out);
            },
        }
    }
}

/// A descriptor that passed validation satisfies the lowering engine's
/// prefix precondition: every parameter of every body has a resolvable
/// prefix.
pub proof fn lemma_validated_prefixes_resolvable(raw: RawModuleV, d: ModV)
    requires
        val_module(raw) == Ok::<ModV, DiagV>(d),
    ensures
        crate::lower::unit_prefixes_resolvable(d),
{
    match val_body(raw.primary) {
        Err(e) => {
            assert(false);
        },
        Ok(b) => {
            lemma_val_body_prefixes(raw.primary, b);
            match raw.submodules {
                None => {},
                Some(subs) => {
                    match val_subs(subs, 0, Seq::empty()) {
                        Err(e) => {
                            assert(false);
                        },
                        Ok(bs) => {
                            lemma_val_subs_prefixes(subs, 0, Seq::empty(), bs);
                        },
                    }
                },
            }
        },
    }
}

/// A fresh copy of a literal.
pub fn literal_clone(l: &Literal) -> (r: Literal)
    ensures
        r@ == l@,
{
    match l {
        Literal::Int(v) => Literal::Int(*v),
        Literal::Float(s) => Literal::Float(bytes_clone(s)),
        Literal::Bool(b) => Literal::Bool(*b),
        Literal::Str(s) => Literal::Str(bytes_clone(s)),
    }
}

/// The validated form of a parameter.
fn build_param(p: &RawParam) -> (r: ParameterDescriptor)
    ensures
        r@ == desc_param(p@),
{
    let scalar_type = match scalar_name(&p.scalar_name) {
        Some(st) => st,
        None => ScalarType::Int64,
    };
    let range = match &p.range {
        Some(r) => match (&r.from, &r.to) {
            (Some(a), Some(bnd)) => Some((literal_clone(a), literal_clone(bnd))),
            _ => None,
        },
        None => None,
    };
    let default_value = match &p.default_value {
        Some(l) => literal_clone(l),
        None => Literal::Int(0),
    };
    let text = match &p.text {
        Some(v) => bytes_clone(v),
        None => Vec::new(),
    };
    let long_text = match &p.long_text {
        Some(v) => bytes_clone(v),
        None => Vec::new(),
    };
    let section = match &p.section {
        Some(s) => Some(crate::parser::section_clone(s)),
        None => None,
    };
    let mut tags: Vec<Tag> = Vec::new();
    let mut m: usize = 0;
    while m < p.tags.len()
        invariant
            0 <= m <= p.tags.len(),
            tags@ =~= p.tags@.take(m as int),
        decreases p.tags.len() - m,
    {
        tags.push(p.tags[m]);
        proof {
            assert(tags@ =~= p.tags@.take(m + 1));
        }
        m += 1;
    }
    proof {
        assert(p.tags@.take(p.tags@.len() as int) =~= p.tags@);
    }
    ParameterDescriptor {
        name: bytes_clone(&p.name),
        scalar_type,
        range,
        default_value,
        text,
        long_text,
        prefix: opt_bytes_clone(&p.prefix),
        section,
        tags,
    }
}

/// The whole validation of one body: every check of `val_body`, in its
/// order, and the validated body on success.
#[verifier::loop_isolation(false)]
pub fn validate_body(b: &RawBody) -> (r: Result<ModuleBody, Diag>)
    ensures
        match r {
            Ok(d) => val_body(b@) == Ok::<BodyV, DiagV>(d@),
            Err(e) => val_body(b@) == Err::<BodyV, DiagV>(e@),
        },
{
    let kind = match &b.kind {
        Some(v) => bytes_clone(v),
        None => {
            return Err(
                Diag { pos: b.end_pos, kind: ErrorKind::MissingRequiredKey(ReqKey::TypeKey) },
            );
        },
    };
    let loader = match &b.loader {
        Some(v) => bytes_clone(v),
        None => {
            return Err(
                Diag { pos: b.end_pos, kind: ErrorKind::MissingRequiredKey(ReqKey::LoaderName) },
            );
        },
    };
    let capability = match &b.capability {
        Some(c) => c,
        None => {
            return Err(
                Diag { pos: b.end_pos, kind: ErrorKind::MissingRequiredKey(ReqKey::Capability) },
            );
        },
    };
    let category = match &b.category {
        Some(v) => bytes_clone(v),
        None => {
            return Err(
                Diag { pos: b.end_pos, kind: ErrorKind::MissingRequiredKey(ReqKey::Category) },
            );
        },
    };
    let description = match &b.description {
        Some(v) => bytes_clone(v),
        None => {
            return Err(
                Diag { pos: b.end_pos, kind: ErrorKind::MissingRequiredKey(ReqKey::Description) },
            );
        },
    };
    if capability.score < -2147483648i64 || capability.score > 2147483647i64 {
        return Err(Diag { pos: capability.pos, kind: ErrorKind::TypeConstraint });
    }
    let ghost psv: Seq<RawParamV> = match b@.params {
        Some(ps) => ps,
        None => Seq::empty(),
    };
    match &b.params {
        Some(ps) => {
            if b.prefix.is_none() {
                let mut k: usize = 0;
                while k < ps.len()
                    invariant
                        0 <= k <= ps.len(),
                        psv == ps@.map_values(|p: RawParam| p@),
                        forall|j: int| 0 <= j < k ==> psv[j].prefix is Some,
                    decreases ps.len() - k,
                {
                    if ps[k].prefix.is_none() {
                        proof {
                            assert(psv[k as int].prefix is None);
                        }
                        return Err(Diag { pos: b.end_pos, kind: ErrorKind::PrefixMissing });
                    }
                    k += 1;
                }
            }
        },
        None => {},
    }
    proof {
        assert(val_prefix(b@) is None);
    }
    match &b.params {
        Some(ps) => {
            let mut k: usize = 0;
            while k < ps.len()
                invariant
                    0 <= k <= ps.len(),
                    psv == ps@.map_values(|p: RawParam| p@),
                    val_types(psv, 0) == val_types(psv, k as int),
                decreases ps.len() - k,
            {
                let p = &ps[k];
                proof {
                    assert(psv[k as int] == ps@[k as int]@);
                }
                let st = match scalar_name(&p.scalar_name) {
                    Some(st) => st,
                    None => {
                        return Err(Diag { pos: p.scalar_pos, kind: ErrorKind::TypeConstraint });
                    },
                };
                let l = match &p.default_value {
                    Some(l) => l,
                    None => {
                        return Err(
                            Diag {
                                pos: p.pos,
                                kind: ErrorKind::MissingRequiredKey(ReqKey::DefaultValue),
                            },
                        );
                    },
                };
                if p.text.is_none() {
                    return Err(
                        Diag { pos: p.pos, kind: ErrorKind::MissingRequiredKey(ReqKey::Text) },
                    );
                }
                if p.long_text.is_none() {
                    return Err(
                        Diag { pos: p.pos, kind: ErrorKind::MissingRequiredKey(ReqKey::LongText) },
                    );
                }
                let agrees = match (st, l) {
                    (ScalarType::Int64, Literal::Int(_)) => true,
                    (ScalarType::Float32, Literal::Float(_)) => true,
                    (ScalarType::Boolean, Literal::Bool(_)) => true,
                    (ScalarType::Str, Literal::Str(_)) => true,
                    _ => false,
                };
                if !agrees {
                    return Err(Diag { pos: p.pos, kind: ErrorKind::TypeConstraint });
                }
                k += 1;
            }
            let mut k2: usize = 0;
            while k2 < ps.len()
                invariant
                    0 <= k2 <= ps.len(),
                    psv == ps@.map_values(|p: RawParam| p@),
                    val_ranges(psv, 0) == val_ranges(psv, k2 as int),
                decreases ps.len() - k2,
            {
                let p = &ps[k2];
                proof {
                    assert(psv[k2 as int] == ps@[k2 as int]@);
                }
                match &p.range {
                    None => {},
                    Some(r) => {
                        let sc = scalar_name(&p.scalar_name);
                        let numeric = match sc {
                            Some(ScalarType::Int64) => true,
                            Some(ScalarType::Float32) => true,
                            _ => false,
                        };
                        if !numeric {
                            return Err(Diag { pos: r.pos, kind: ErrorKind::RangeConstraint });
                        }
                        if !r.closed {
                            return Err(Diag { pos: r.pos, kind: ErrorKind::RangeConstraint });
                        }
                        match (&r.from, &r.to) {
                            (Some(a), Some(bnd)) => {
                                let st = match sc {
                                    Some(st) => st,
                                    None => ScalarType::Int64,
                                };
                                let a_ok = match (st, a) {
                                    (ScalarType::Int64, Literal::Int(_)) => true,
                                    (ScalarType::Float32, Literal::Float(_)) => true,
                                    _ => false,
                                };
                                let b_ok = match (st, bnd) {
                                    (ScalarType::Int64, Literal::Int(_)) => true,
                                    (ScalarType::Float32, Literal::Float(_)) => true,
                                    _ => false,
                                };
                                if !(a_ok && b_ok) {
                                    return Err(
                                        Diag { pos: r.pos, kind: ErrorKind::RangeConstraint },
                                    );
                                }
                            },
                            _ => {
                                return Err(Diag { pos: r.pos, kind: ErrorKind::RangeConstraint });
                            },
                        }
                    },
                }
                k2 += 1;
            }
            let mut k3: usize = 0;
            while k3 < ps.len()
                invariant
                    0 <= k3 <= ps.len(),
                    psv == ps@.map_values(|p: RawParam| p@),
                    val_tags(psv, 0) == val_tags(psv, k3 as int),
                decreases ps.len() - k3,
            {
                let p = &ps[k3];
                proof {
                    assert(psv[k3 as int] == ps@[k3 as int]@);
                }
                match scalar_name(&p.scalar_name) {
                    None => {},
                    Some(st) => {
                        let mut m: usize = 0;
                        while m < p.tags.len()
                            invariant
                                0 <= m <= p.tags.len(),
                                val_tag_list(p.tags@, st, 0, p@.pos) == val_tag_list(
                                    p.tags@,
                                    st,
                                    m as int,
                                    p@.pos,
                                ),
                            decreases p.tags.len() - m,
                        {
                            let tag = p.tags[m];
                            let ok = match tag {
                                Tag::Deprecated => true,
                                Tag::Rgb => st == ScalarType::Int64,
                                Tag::Font => st == ScalarType::Str,
                                Tag::Savefile => st == ScalarType::Str,
                                Tag::Loadfile => st == ScalarType::Str,
                                Tag::Password => st == ScalarType::Str,
                                Tag::Directory => st == ScalarType::Str,
                            };
                            if !ok {
                                return Err(
                                    Diag { pos: p.pos, kind: ErrorKind::AnnotationConflict },
                                );
                            }
                            m += 1;
                        }
                    },
                }
                k3 += 1;
            }
        },
        None => {},
    }
    proof {
        assert(val_types(psv, 0) is None);
        assert(val_ranges(psv, 0) is None);
        assert(val_tags(psv, 0) is None);
    }
    let params: Option<Vec<ParameterDescriptor>> = match &b.params {
        Some(ps) => {
            let mut out: Vec<ParameterDescriptor> = Vec::new();
            let mut k: usize = 0;
            while k < ps.len()
                invariant
                    0 <= k <= ps.len(),
                    psv == ps@.map_values(|p: RawParam| p@),
                    out@.len() == k,
                    forall|j: int| 0 <= j < k ==> out@[j]@ == desc_param(psv[j]),
                decreases ps.len() - k,
            {
                let d = build_param(&ps[k]);
                out.push(d);
                proof {
                    assert(out@[k as int]@ == desc_param(psv[k as int]));
                }
                k += 1;
            }
            proof {
                assert(out@.map_values(|p: ParameterDescriptor| p@) =~~= psv.map_values(
                    |p: RawParamV| desc_param(p),
                ));
            }
            Some(out)
        },
        None => None,
    };
    let shortcuts: Option<Vec<Vec<u8>>> = match &b.shortcuts {
        Some(ss) => {
            let mut out: Vec<Vec<u8>> = Vec::new();
            let mut k: usize = 0;
            while k < ss.len()
                invariant
                    0 <= k <= ss.len(),
                    out@.len() == k,
                    forall|j: int| 0 <= j < k ==> out@[j]@ == ss@[j]@,
                decreases ss.len() - k,
            {
                out.push(bytes_clone(&ss[k]));
                k += 1;
            }
            proof {
                assert(out@.map_values(|s: Vec<u8>| s@) =~~= ss@.map_values(|s: Vec<u8>| s@));
            }
            Some(out)
        },
        None => None,
    };
    let d = ModuleBody {
        kind,
        loader,
        category,
        capability: CapabilityDescriptor {
            name: bytes_clone(&capability.name),
            score: capability.score as i32,
        },
        description,
        help: opt_bytes_clone(&b.help),
        shortname: opt_bytes_clone(&b.shortname),
        prefix: opt_bytes_clone(&b.prefix),
        params,
        shortcuts,
    };
    proof {
        assert(d@ == desc_body(b@));
    }
    Ok(d)
}

/// The whole validation of a parsed module: primary body, then each
/// submodule body under the same rules.
#[verifier::loop_isolation(false)]
pub fn validate(raw: &RawModule) -> (r: Result<ModuleDescriptor, Diag>)
    ensures
        match r {
            Ok(d) => val_module(raw@) == Ok::<ModV, DiagV>(d@),
            Err(e) => val_module(raw@) == Err::<ModV, DiagV>(e@),
        },
{
    let primary = match validate_body(&raw.primary) {
        Ok(b) => b,
        Err(e) => {
            return Err(e);
        },
    };
    match &raw.submodules {
        None => Ok(ModuleDescriptor { primary, submodules: None }),
        Some(subs) => {
            let ghost subsv = subs@.map_values(|b: RawBody| b@);
            let mut out: Vec<ModuleBody> = Vec::new();
            proof {
                assert(out@.map_values(|b: ModuleBody| b@) =~= Seq::<BodyV>::empty());
            }
            let mut k: usize = 0;
            while k < subs.len()
                invariant
                    0 <= k <= subs.len(),
                    subsv == subs@.map_values(|b: RawBody| b@),
                    out@.len() == k,
                    val_subs(subsv, 0, Seq::empty()) == val_subs(
                        subsv,
                        k as int,
                        out@.map_values(|b: ModuleBody| b@),
                    ),
                decreases subs.len() - k,
            {
                let ghost accv = out@.map_values(|b: ModuleBody| b@);
                match validate_body(&subs[k]) {
                    Err(e) => {
                        proof {
                            assert(subsv[k as int] == subs@[k as int]@);
                        }
                        return Err(e);
                    },
                    Ok(b) => {
                        proof {
                            assert(subsv[k as int] == subs@[k as int]@);
                        }
                        out.push(b);
                        proof {
                            assert(out@.map_values(|b: ModuleBody| b@) =~= accv.push(
                                out@[k as int]@,
                            ));
                        }
                    },
                }
                k += 1;
            }
            Ok(ModuleDescriptor { primary, submodules: Some(out) })
        },
    }
}

} // verus!
