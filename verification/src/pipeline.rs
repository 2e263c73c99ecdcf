//! The whole compilation pipeline: parse, then validate. The result is a
//! pure function of the token stream, so repeated compilation of the same
//! input yields the identical descriptor — and, through the lowering
//! engine's own exact contract, the identical operation sequence and
//! derived names.
use vstd::prelude::*;
use vstd::string::StringSliceAdditionalSpecFns;
use crate::descriptor::{ModuleDescriptor, ModV, ScalarType};
use crate::diag::{Diag, DiagV};
use crate::parser::{parse_module, sp_module};
use crate::toks::{Tok, TokV, tv, txt};
use crate::validator::{val_module, validate};

verus! {

/// What compiling a token stream yields: the validated descriptor of the
/// parse result, or the first diagnostic of either phase.
pub open spec fn compile_spec(t: Seq<TokV>) -> Result<ModV, DiagV> {
    match sp_module(t) {
        Ok(raw) => val_module(raw),
        Err(e) => Err(e),
    }
}

/// Parse and validate a module description. The result equals
/// `compile_spec` of the stream's view exactly: compilation is
/// deterministic, and on failure no descriptor — and so no operation —
/// is produced. A descriptor it returns satisfies the lowering engine's
/// prefix precondition (`validator::lemma_validated_prefixes_resolvable`).
pub fn compile(toks: &Vec<Tok>) -> (r: Result<ModuleDescriptor, Diag>)
    ensures
        match r {
            Ok(d) => compile_spec(tv(toks@)) == Ok::<ModV, DiagV>(d@),
            Err(e) => compile_spec(tv(toks@)) == Err::<ModV, DiagV>(e@),
        },
{
    match parse_module(toks) {
        Err(e) => Err(e),
        Ok(raw) => validate(&raw),
    }
}

/// One field of the parameter-holder record: the parameter's name and its
/// scalar type (strings are carried as owned text by the holder's user).
#[derive(Debug, PartialEq, Eq)]
pub struct HolderField {
    pub name: Vec<u8>,
    pub scalar_type: ScalarType,
}

/// Mathematical value of a holder field.
pub struct HolderFieldV {
    pub name: Seq<u8>,
    pub scalar_type: ScalarType,
}

impl View for HolderField {
    type V = HolderFieldV;

    open spec fn view(&self) -> HolderFieldV {
        HolderFieldV { name: self.name@, scalar_type: self.scalar_type }
    }
}

/// The parameter-holder record shape: its derived name (the module's kind
/// with a fixed suffix) and one field per parameter, in declaration order.
#[derive(Debug, PartialEq, Eq)]
pub struct ParamHolder {
    pub name: Vec<u8>,
    pub fields: Vec<HolderField>,
}

/// Mathematical value of a parameter holder.
pub struct ParamHolderV {
    pub name: Seq<u8>,
    pub fields: Seq<HolderFieldV>,
}

impl View for ParamHolder {
    type V = ParamHolderV;

    open spec fn view(&self) -> ParamHolderV {
        ParamHolderV {
            name: self.name@,
            fields: self.fields@.map_values(|f: HolderField| f@),
        }
    }
}

/// The holder a validated body gives rise to: present exactly when the
/// body declares parameters.
pub open spec fn holder_of(b: crate::descriptor::BodyV) -> Option<ParamHolderV> {
    match b.params {
        None => None,
        Some(ps) => Some(
            ParamHolderV {
                name: b.kind + txt("Args"),
                fields: ps.map_values(
                    |p: crate::descriptor::ParamV|
                        HolderFieldV { name: p.name, scalar_type: p.scalar_type },
                ),
            },
        ),
    }
}

/// The parameter-holder record of the primary module, if it has
/// parameters.
#[verifier::loop_isolation(false)]
pub fn param_holder(m: &ModuleDescriptor) -> (r: Option<ParamHolder>)
    ensures
        match r {
            Some(h) => holder_of(m@.primary) == Some(h@),
            None => holder_of(m@.primary) is None,
        },
{
    match &m.primary.params {
        None => None,
        Some(ps) => {
            let ghost psv = ps@.map_values(|p: crate::descriptor::ParameterDescriptor| p@);
            let mut name = crate::toks::bytes_clone(&m.primary.kind);
            crate::names::append_text(&mut name, "Args");
            let mut fields: Vec<HolderField> = Vec::new();
            let mut i: usize = 0;
            while i < ps.len()
                invariant
                    0 <= i <= ps.len(),
                    fields@.len() == i,
                    forall|j: int| 0 <= j < i ==> fields@[j]@ == (HolderFieldV {
                        name: psv[j].name,
                        scalar_type: psv[j].scalar_type,
                    }),
                decreases ps.len() - i,
            {
                fields.push(
                    HolderField {
                        name: crate::toks::bytes_clone(&ps[i].name),
                        scalar_type: ps[i].scalar_type,
                    },
                );
                i += 1;
            }
            let h = ParamHolder { name, fields };
            proof {
                assert(h@.fields =~~= psv.map_values(
                    |p: crate::descriptor::ParamV|
                        HolderFieldV { name: p.name, scalar_type: p.scalar_type },
                ));
            }
            Some(h)
        },
    }
}

/// Determinism: two compilations of the same token stream yield the same
/// result — the same descriptor on success, the same diagnostic on
/// failure. `compile` returns exactly `compile_spec` of its input, so this
/// carries over to every run of the executable pipeline; and since the
/// lowering engine and the name deriver return exact functions of the
/// descriptor, the operation sequence and the derived names are identical
/// as well.
pub proof fn lemma_compilation_deterministic(
    t: Seq<TokV>,
    r1: Result<ModV, DiagV>,
    r2: Result<ModV, DiagV>,
)
    requires
        r1 == compile_spec(t),
        r2 == compile_spec(t),
    ensures
        r1 == r2,
{
}

/// The fixed protocol version identifier, NUL-terminated, emitted
/// verbatim.
pub fn api_version() -> (r: Vec<u8>)
    ensures
        r@ == crate::ops::c_str(txt("4.0.6")),
{
    let v = crate::toks::text_bytes("4.0.6");
    crate::ops::c_bytes(&v)
}

} // verus!
