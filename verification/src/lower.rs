//! The lowering engine: walks a validated descriptor and emits the ordered
//! sequence of registration operations, in the fixed order the protocol
//! expects, recursing once into submodules.
use vstd::prelude::*;
use crate::descriptor::{LitV, Literal, ModV, ModuleBody, ModuleDescriptor, BodyV, ParamV,
    ParameterDescriptor, ScalarType, Tag};
use crate::names::{close_label, close_label_of, key_of, module_name, module_name_of, open_label,
    open_label_of, param_key};
use crate::ops::{c_bytes, c_str, opsv, FixV, FixedValue, ItemKind, Op, OpV};
use crate::toks::ob;

verus! {

/// Whether a parameter carries a tag.
pub open spec fn tagged(tags: Seq<Tag>, t: Tag) -> bool {
    tags.contains(t)
}

/// Whether a parameter's prefix is resolvable: its own, or the module's.
/// Validation enforces this for every descriptor it produces, and the
/// lowering functions require it.
pub open spec fn prefix_resolvable(mp: Option<Seq<u8>>, p: ParamV) -> bool {
    p.prefix is Some || mp is Some
}

/// Whether every parameter of a body has a resolvable prefix.
pub open spec fn body_prefixes_resolvable(b: BodyV) -> bool {
    match b.params {
        Some(ps) => forall|k: int| 0 <= k < ps.len() ==> prefix_resolvable(
            b.prefix,
            #[trigger] ps[k],
        ),
        None => true,
    }
}

/// Whether every parameter of every body of a unit has a resolvable
/// prefix.
pub open spec fn unit_prefixes_resolvable(m: ModV) -> bool {
    body_prefixes_resolvable(m.primary) && (match m.submodules {
        Some(subs) => forall|i: int|
            0 <= i < subs.len() ==> body_prefixes_resolvable(#[trigger] subs[i]),
        None => true,
    })
}

/// The prefix that applies to a parameter: its own, or else the module's.
/// (The final arm keeps the function total; the lowering functions require
/// a resolvable prefix, so it is never reached from them.)
pub open spec fn resolved_prefix(mp: Option<Seq<u8>>, p: ParamV) -> Seq<u8> {
    match p.prefix {
        Some(x) => x,
        None => match mp {
            Some(y) => y,
            None => Seq::empty(),
        },
    }
}

/// The concrete config-item kind of a parameter, derived from its scalar
/// type and tags. String tags are tried in a fixed precedence order.
pub open spec fn item_kind_of(p: ParamV) -> ItemKind {
    match p.scalar_type {
        ScalarType::Int64 => if tagged(p.tags, Tag::Rgb) {
            ItemKind::Rgb
        } else {
            ItemKind::Integer
        },
        ScalarType::Float32 => ItemKind::Float,
        ScalarType::Boolean => ItemKind::Bool,
        ScalarType::Str => if tagged(p.tags, Tag::Font) {
            ItemKind::Font
        } else if tagged(p.tags, Tag::Savefile) {
            ItemKind::Savefile
        } else if tagged(p.tags, Tag::Loadfile) {
            ItemKind::Loadfile
        } else if tagged(p.tags, Tag::Password) {
            ItemKind::Password
        } else if tagged(p.tags, Tag::Directory) {
            ItemKind::Directory
        } else {
            ItemKind::Text
        },
    }
}

/// A literal coerced to the protocol's fixed-width representation.
pub open spec fn fixed_of(l: LitV) -> FixV {
    match l {
        LitV::Int(v) => FixV::Int(v),
        LitV::Bool(b) => FixV::Int(if b { 1 } else { 0 }),
        LitV::Float(s) => FixV::Float(s),
        LitV::Str(s) => FixV::Bytes(c_str(s)),
    }
}

/// The section operations of a parameter that starts a new section.
pub open spec fn section_ops(p: ParamV) -> Seq<OpV> {
    match p.section {
        Some(s) => seq![
            OpV::CreateConfigSection,
            OpV::SetConfigSectionDesc(
                c_str(s.name),
                match s.description {
                    Some(d) => Some(c_str(d)),
                    None => None,
                },
            ),
        ],
        None => seq![],
    }
}

/// The four operations every parameter emits: item creation, description,
/// registration key, default value.
pub open spec fn core_ops(mp: Option<Seq<u8>>, p: ParamV) -> Seq<OpV> {
    seq![
        OpV::CreateConfigItem(item_kind_of(p)),
        OpV::SetConfigDesc(c_str(p.text), c_str(p.long_text)),
        OpV::SetConfigName(c_str(key_of(resolved_prefix(mp, p), p.name))),
        OpV::SetConfigValue(fixed_of(p.default_value)),
    ]
}

/// The removal marker of a deprecated parameter.
pub open spec fn removed_ops(p: ParamV) -> Seq<OpV> {
    if tagged(p.tags, Tag::Deprecated) {
        seq![OpV::SetConfigRemoved]
    } else {
        seq![]
    }
}

/// The range operation of a parameter. The rgb tag forces the fixed bound
/// [0, 0xFFFFFF], overriding any explicit range.
pub open spec fn range_ops(p: ParamV) -> Seq<OpV> {
    if tagged(p.tags, Tag::Rgb) {
        seq![OpV::SetConfigRange(FixV::Int(0), FixV::Int(0xFFFFFF))]
    } else {
        match p.range {
            Some(r) => seq![OpV::SetConfigRange(fixed_of(r.0), fixed_of(r.1))],
            None => seq![],
        }
    }
}

/// All operations of one parameter, in emission order.
pub open spec fn param_ops(mp: Option<Seq<u8>>, p: ParamV) -> Seq<OpV> {
    section_ops(p) + core_ops(mp, p) + removed_ops(p) + range_ops(p)
}

/// All operations of a parameter list, in declaration order.
pub open spec fn params_ops(mp: Option<Seq<u8>>, ps: Seq<ParamV>) -> Seq<OpV>
    decreases ps.len(),
{
    if ps.len() == 0 {
        seq![]
    } else {
        params_ops(mp, ps.drop_last()) + param_ops(mp, ps.last())
    }
}

/// The shortcut payloads, each NUL-terminated.
pub open spec fn shortcut_payload(ss: Seq<Seq<u8>>) -> Seq<Seq<u8>> {
    ss.map_values(|s: Seq<u8>| c_str(s))
}

/// All operations of one module body, in emission order: capability, score
/// and description first; then the optional help, shortname and shortcuts;
/// then the open callback, the close callback when a deactivation function
/// exists, the config subcategory, and finally the parameters.
pub open spec fn body_ops(b: BodyV, has_deactivation: bool) -> Seq<OpV> {
    seq![
        OpV::SetCapability(c_str(b.capability.name)),
        OpV::SetScore(b.capability.score),
        OpV::SetDescription(c_str(b.description)),
    ] + (match b.help {
        Some(h) => seq![OpV::SetHelp(c_str(h))],
        None => seq![],
    }) + (match b.shortname {
        Some(s) => seq![OpV::SetShortname(c_str(s))],
        None => seq![],
    }) + (match b.shortcuts {
        Some(ss) => seq![OpV::SetShortcuts(shortcut_payload(ss))],
        None => seq![],
    }) + seq![OpV::SetOpenCallback(c_str(open_label_of(b.kind)))] + (if has_deactivation {
        seq![OpV::SetCloseCallback(c_str(close_label_of(b.kind)))]
    } else {
        seq![]
    }) + seq![OpV::CreateConfigSubcategory(b.category)] + (match b.params {
        Some(ps) => params_ops(b.prefix, ps),
        None => seq![],
    })
}

/// All operations of the submodules, in declaration order: each submodule
/// is introduced by a module-creation operation and then emits its body.
/// `deacts[1 + i]` says whether submodule `i` has a deactivation function.
pub open spec fn subs_ops(subs: Seq<BodyV>, deacts: Seq<bool>) -> Seq<OpV>
    decreases subs.len(),
{
    if subs.len() == 0 {
        seq![]
    } else {
        subs_ops(subs.drop_last(), deacts) + seq![OpV::CreateModule] + body_ops(
            subs.last(),
            deacts[subs.len() as int],
        )
    }
}

/// The whole operation sequence of a compilation unit: module creation and
/// the registration name first, then the primary body, then the submodules.
/// `deacts[0]` says whether the primary module has a deactivation function.
pub open spec fn unit_ops(m: ModV, deacts: Seq<bool>) -> Seq<OpV> {
    seq![OpV::CreateModule, OpV::SetName(c_str(module_name_of(m.primary.kind)))] + body_ops(
        m.primary,
        deacts[0],
    ) + (match m.submodules {
        Some(subs) => subs_ops(subs, deacts),
        None => seq![],
    })
}

/// Whether a parameter carries a tag.
pub fn has_tag(tags: &Vec<Tag>, t: Tag) -> (r: bool)
    ensures
        r == tagged(tags@, t),
{
    let mut i: usize = 0;
    while i < tags.len()
        invariant
            0 <= i <= tags.len(),
            forall|j: int| 0 <= j < i ==> tags@[j] != t,
        decreases tags.len() - i,
    {
        if tags[i] == t {
            proof {
                assert(tags@.contains(t));
            }
            return true;
        }
        i += 1;
    }
    proof {
        assert(forall|j: int| 0 <= j < tags@.len() ==> tags@[j] != t);
    }
    false
}

/// The concrete config-item kind of a parameter.
pub fn item_kind(p: &ParameterDescriptor) -> (r: ItemKind)
    ensures
        r == item_kind_of(p@),
{
    match p.scalar_type {
        ScalarType::Int64 => if has_tag(&p.tags, Tag::Rgb) {
            ItemKind::Rgb
        } else {
            ItemKind::Integer
        },
        ScalarType::Float32 => ItemKind::Float,
        ScalarType::Boolean => ItemKind::Bool,
        ScalarType::Str => if has_tag(&p.tags, Tag::Font) {
            ItemKind::Font
        } else if has_tag(&p.tags, Tag::Savefile) {
            ItemKind::Savefile
        } else if has_tag(&p.tags, Tag::Loadfile) {
            ItemKind::Loadfile
        } else if has_tag(&p.tags, Tag::Password) {
            ItemKind::Password
        } else if has_tag(&p.tags, Tag::Directory) {
            ItemKind::Directory
        } else {
            ItemKind::Text
        },
    }
}

/// A literal coerced to the protocol's fixed-width representation.
pub fn fixed_value(l: &Literal) -> (r: FixedValue)
    ensures
        r@ == fixed_of(l@),
{
    match l {
        Literal::Int(v) => FixedValue::Int(*v),
        Literal::Bool(b) => FixedValue::Int(if *b { 1 } else { 0 }),
        Literal::Float(s) => FixedValue::Float(crate::toks::bytes_clone(s)),
        Literal::Str(s) => FixedValue::Bytes(c_bytes(s)),
    }
}

/// Push one operation, keeping the view in step.
fn push_op(ops: &mut Vec<Op>, op: Op)
    ensures
        opsv(final(ops)@) == opsv(old(ops)@).push(op@),
{
    let ghost before = ops@;
    ops.push(op);
    proof {
        assert(opsv(ops@) =~= opsv(before).push(op@));
    }
}

/// All operations of one parameter, in emission order.
pub fn lower_param(mp: &Option<Vec<u8>>, p: &ParameterDescriptor) -> (r: Vec<Op>)
    requires
        prefix_resolvable(ob(mp), p@),
    ensures
        opsv(r@) == param_ops(ob(mp), p@),
{
    let mut ops: Vec<Op> = Vec::new();
    match &p.section {
        Some(s) => {
            push_op(&mut ops, Op::CreateConfigSection);
            let desc = match &s.description {
                Some(d) => Some(c_bytes(d)),
                None => None,
            };
            push_op(&mut ops, Op::SetConfigSectionDesc(c_bytes(&s.name), desc));
        },
        None => {},
    }
    proof {
        assert(opsv(ops@) =~= section_ops(p@));
    }
    push_op(&mut ops, Op::CreateConfigItem(item_kind(p)));
    push_op(&mut ops, Op::SetConfigDesc(c_bytes(&p.text), c_bytes(&p.long_text)));
    let pfx = match &p.prefix {
        Some(x) => crate::toks::bytes_clone(x),
        None => match mp {
            Some(y) => crate::toks::bytes_clone(y),
            None => Vec::new(),
        },
    };
    proof {
        assert(pfx@ == resolved_prefix(ob(mp), p@));
    }
    let key = param_key(&pfx, &p.name);
    push_op(&mut ops, Op::SetConfigName(c_bytes(&key)));
    push_op(&mut ops, Op::SetConfigValue(fixed_value(&p.default_value)));
    proof {
        assert(opsv(ops@) =~= section_ops(p@) + core_ops(ob(mp), p@));
    }
    if has_tag(&p.tags, Tag::Deprecated) {
        push_op(&mut ops, Op::SetConfigRemoved);
    }
    proof {
        assert(opsv(ops@) =~= section_ops(p@) + core_ops(ob(mp), p@) + removed_ops(p@));
    }
    if has_tag(&p.tags, Tag::Rgb) {
        push_op(&mut ops, Op::SetConfigRange(FixedValue::Int(0), FixedValue::Int(0xFFFFFF)));
    } else {
        match &p.range {
            Some(r) => {
                push_op(&mut ops, Op::SetConfigRange(fixed_value(&r.0), fixed_value(&r.1)));
            },
            None => {},
        }
    }
    proof {
        assert(opsv(ops@) =~= param_ops(ob(mp), p@));
    }
    ops
}

/// All operations of one module body, in emission order.
pub fn lower_body(b: &ModuleBody, has_deactivation: bool) -> (r: Vec<Op>)
    requires
        body_prefixes_resolvable(b@),
    ensures
        opsv(r@) == body_ops(b@, has_deactivation),
{
    let mut ops: Vec<Op> = Vec::new();
    push_op(&mut ops, Op::SetCapability(c_bytes(&b.capability.name)));
    push_op(&mut ops, Op::SetScore(b.capability.score));
    push_op(&mut ops, Op::SetDescription(c_bytes(&b.description)));
    match &b.help {
        Some(h) => push_op(&mut ops, Op::SetHelp(c_bytes(h))),
        None => {},
    }
    match &b.shortname {
        Some(s) => push_op(&mut ops, Op::SetShortname(c_bytes(s))),
        None => {},
    }
    match &b.shortcuts {
        Some(ss) => {
            let ghost ssv = ss@.map_values(|s: Vec<u8>| s@);
            let mut payload: Vec<Vec<u8>> = Vec::new();
            let mut i: usize = 0;
            while i < ss.len()
                invariant
                    0 <= i <= ss.len(),
                    ssv == ss@.map_values(|s: Vec<u8>| s@),
                    payload@.len() == i,
                    forall|k: int| 0 <= k < i ==> payload@[k]@ == c_str(ssv[k]),
                decreases ss.len() - i,
            {
                payload.push(c_bytes(&ss[i]));
                proof {
                    assert(payload@[i as int]@ == c_str(ssv[i as int]));
                }
                i += 1;
            }
            proof {
                assert(payload@.map_values(|s: Vec<u8>| s@) =~~= shortcut_payload(ssv));
            }
            push_op(&mut ops, Op::SetShortcuts(payload));
        },
        None => {},
    }
    push_op(&mut ops, Op::SetOpenCallback(c_bytes(&open_label(&b.kind))));
    if has_deactivation {
        push_op(&mut ops, Op::SetCloseCallback(c_bytes(&close_label(&b.kind))));
    }
    push_op(&mut ops, Op::CreateConfigSubcategory(crate::toks::bytes_clone(&b.category)));
    let ghost head = opsv(ops@);
    match &b.params {
        Some(ps) => {
            let ghost psv = ps@.map_values(|p: ParameterDescriptor| p@);
            let mut i: usize = 0;
            while i < ps.len()
                invariant
                    0 <= i <= ps.len(),
                    psv == ps@.map_values(|p: ParameterDescriptor| p@),
                    b@.params == Some(psv),
                    body_prefixes_resolvable(b@),
                    opsv(ops@) =~= head + params_ops(b@.prefix, psv.take(i as int)),
                decreases ps.len() - i,
            {
                proof {
                    assert(ob(&b.prefix) == b@.prefix);
                    let ps2 = b@.params->Some_0;
                    assert(ps2 == psv);
                    assert(prefix_resolvable(b@.prefix, ps2[i as int]));
                    assert(prefix_resolvable(b@.prefix, psv[i as int]));
                }
                let mut pops = lower_param(&b.prefix, &ps[i]);
                let ghost popsv = opsv(pops@);
                proof {
                    assert(ob(&b.prefix) == b@.prefix);
                    assert(psv.take(i + 1).drop_last() =~= psv.take(i as int));
                    assert(psv.take(i + 1).last() == psv[i as int]);
                }
                let ghost before = ops@;
                ops.append(&mut pops);
                proof {
                    assert(opsv(ops@) =~= opsv(before) + popsv);
                    assert(opsv(ops@) =~= head + params_ops(b@.prefix, psv.take(i + 1)));
                }
                i += 1;
            }
            proof {
                assert(psv.take(psv.len() as int) =~= psv);
            }
        },
        None => {},
    }
    proof {
        assert(opsv(ops@) =~= body_ops(b@, has_deactivation));
    }
    ops
}

/// The number of module bodies in a unit: the primary plus the submodules.
pub open spec fn body_count(m: ModV) -> int {
    1 + (match m.submodules {
        Some(s) => s.len() as int,
        None => 0,
    })
}

/// The whole operation sequence of a compilation unit. `deacts[0]` says
/// whether the primary module has a deactivation function, `deacts[1 + i]`
/// the same for submodule `i`; the close callback of each module is emitted
/// exactly when its entry is true.
pub fn lower_unit(m: &ModuleDescriptor, deacts: &Vec<bool>) -> (r: Vec<Op>)
    requires
        deacts@.len() == body_count(m@),
        unit_prefixes_resolvable(m@),
    ensures
        opsv(r@) == unit_ops(m@, deacts@),
{
    let mut ops: Vec<Op> = Vec::new();
    push_op(&mut ops, Op::CreateModule);
    push_op(&mut ops, Op::SetName(c_bytes(&module_name(&m.primary.kind))));
    let mut body = lower_body(&m.primary, deacts[0]);
    let ghost bops = opsv(body@);
    let ghost intro = opsv(ops@);
    ops.append(&mut body);
    proof {
        assert(opsv(ops@) =~= intro + bops);
        assert(opsv(ops@) =~= intro + body_ops(m@.primary, deacts@[0]));
    }
    let ghost head = opsv(ops@);
    match &m.submodules {
        Some(subs) => {
            let ghost subsv = subs@.map_values(|b: ModuleBody| b@);
            let mut i: usize = 0;
            while i < subs.len()
                invariant
                    0 <= i <= subs.len(),
                    subsv == subs@.map_values(|b: ModuleBody| b@),
                    m@.submodules == Some(subsv),
                    unit_prefixes_resolvable(m@),
                    deacts@.len() == 1 + subsv.len(),
                    opsv(ops@) =~= head + subs_ops(subsv.take(i as int), deacts@),
                decreases subs.len() - i,
            {
                push_op(&mut ops, Op::CreateModule);
                proof {
                    let subs2 = m@.submodules->Some_0;
                    assert(subs2 == subsv);
                    assert(body_prefixes_resolvable(subs2[i as int]));
                    assert(body_prefixes_resolvable(subsv[i as int]));
                }
                let mut sops = lower_body(&subs[i], deacts[1 + i]);
                let ghost sopsv = opsv(sops@);
                let ghost before = ops@;
                ops.append(&mut sops);
                proof {
                    assert(subsv.take(i + 1).drop_last() =~= subsv.take(i as int));
                    assert(subsv.take(i + 1).last() == subsv[i as int]);
                    assert(subsv.take(i + 1).len() == i + 1);
                    assert(opsv(ops@) =~= opsv(before) + sopsv);
                    assert(opsv(ops@) =~= head + subs_ops(subsv.take(i + 1), deacts@));
                }
                i += 1;
            }
            proof {
                assert(subsv.take(subsv.len() as int) =~= subsv);
            }
        },
        None => {},
    }
    proof {
        assert(opsv(ops@) =~= unit_ops(m@, deacts@));
    }
    ops
}

/// The rgb tag forces the fixed range bound [0, 0xFFFFFF]: a parameter
/// tagged rgb emits exactly that range operation, whatever explicit range
/// it declares.
pub proof fn lemma_rgb_range_override(p: ParamV)
    requires
        p.tags.contains(Tag::Rgb),
    ensures
        range_ops(p) == seq![OpV::SetConfigRange(FixV::Int(0), FixV::Int(0xFFFFFF))],
        forall|r: Option<(LitV, LitV)>|
            range_ops(ParamV { range: r, ..p }) == seq![
                OpV::SetConfigRange(FixV::Int(0), FixV::Int(0xFFFFFF)),
            ],
{
}

/// A deprecated integer parameter with no range and no section emits
/// exactly: item creation, description, key, value, removal marker —
/// in that order, with no range operation.
pub proof fn lemma_deprecated_item_order(mp: Option<Seq<u8>>, p: ParamV)
    requires
        p.scalar_type == ScalarType::Int64,
        p.tags.contains(Tag::Deprecated),
        !p.tags.contains(Tag::Rgb),
        p.range is None,
        p.section is None,
    ensures
        param_ops(mp, p) == seq![
            OpV::CreateConfigItem(ItemKind::Integer),
            OpV::SetConfigDesc(c_str(p.text), c_str(p.long_text)),
            OpV::SetConfigName(c_str(key_of(resolved_prefix(mp, p), p.name))),
            OpV::SetConfigValue(fixed_of(p.default_value)),
            OpV::SetConfigRemoved,
        ],
{
    assert(param_ops(mp, p) =~= seq![
        OpV::CreateConfigItem(ItemKind::Integer),
        OpV::SetConfigDesc(c_str(p.text), c_str(p.long_text)),
        OpV::SetConfigName(c_str(key_of(resolved_prefix(mp, p), p.name))),
        OpV::SetConfigValue(fixed_of(p.default_value)),
        OpV::SetConfigRemoved,
    ]);
}

} // verus!
