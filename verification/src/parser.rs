//! The grammar-driven parser: a recursive-descent parser over the token
//! stream, producing the raw parse tree or the first positioned diagnostic.
//! Every executable parsing function mirrors a specification function on the
//! token stream's view and returns exactly its result, so parsing is a pure
//! function of the input.
use vstd::prelude::*;
use vstd::string::StringSliceAdditionalSpecFns;
use crate::descriptor::{LitV, Literal, SecV, SectionDescriptor, Tag};
use crate::diag::{Diag, DiagV, ErrKV, ErrorKind, ReqKey};
use crate::raw::{empty_module, new_module, RawBody, RawBodyV, RawCapability, RawCapV, RawModule,
    RawModuleV, RawParam, RawParamV, RawRange, RawRangeV};
use crate::toks::{bytes_clone, bytes_eq, is_assign, is_at, is_bang, is_close_brace,
    is_close_bracket, is_close_paren, is_colon, is_comma, is_dotdot, is_dotdotassign,
    is_open_brace, is_open_bracket, is_open_paren, is_pound, ob, Tok, TokV, tv, txt};

verus! {

/// A grammar diagnostic at a position.
pub open spec fn gram(i: int) -> DiagV {
    DiagV { pos: i, kind: ErrKV::Grammar }
}

/// An annotation-conflict diagnostic at a position.
pub open spec fn conflict(i: int) -> DiagV {
    DiagV { pos: i, kind: ErrKV::AnnotationConflict }
}

/// Whether position `i` ends the current body: the end of the stream, or,
/// inside a braced submodule body, its closing brace.
pub open spec fn at_end(t: Seq<TokV>, i: int, eb: bool) -> bool {
    i >= t.len() || (eb && t[i] == TokV::CloseBrace)
}

/// A position clamped into `(i, t.len()]`, used only to state termination
/// of the specification parser; on every path the parser actually takes it
/// is the identity.
pub open spec fn nxt(t: Seq<TokV>, i: int, j: int) -> int {
    if j <= i {
        i + 1
    } else if j > t.len() {
        t.len() as int
    } else {
        j
    }
}

/// A position clamped into `[i, t.len()]`; identity on actual paths.
pub open spec fn nxt0(t: Seq<TokV>, i: int, j: int) -> int {
    if j < i {
        i
    } else if j > t.len() {
        t.len() as int
    } else {
        j
    }
}

/// One expected punctuation token.
pub open spec fn sp_punct(t: Seq<TokV>, i: int, k: TokV) -> Result<int, DiagV> {
    if 0 <= i < t.len() && t[i] == k {
        Ok(i + 1)
    } else {
        Err(gram(i))
    }
}

/// One identifier token.
pub open spec fn sp_ident(t: Seq<TokV>, i: int) -> Result<(Seq<u8>, int), DiagV> {
    if 0 <= i < t.len() {
        match t[i] {
            TokV::Ident(n) => Ok((n, i + 1)),
            _ => Err(gram(i)),
        }
    } else {
        Err(gram(i))
    }
}

/// One string literal token.
pub open spec fn sp_str(t: Seq<TokV>, i: int) -> Result<(Seq<u8>, int), DiagV> {
    if 0 <= i < t.len() {
        match t[i] {
            TokV::StrLit(s) => Ok((s, i + 1)),
            _ => Err(gram(i)),
        }
    } else {
        Err(gram(i))
    }
}

/// One literal token; numeric literals may carry a leading minus.
pub open spec fn sp_literal(t: Seq<TokV>, i: int) -> Result<(LitV, int), DiagV> {
    if 0 <= i < t.len() {
        match t[i] {
            TokV::StrLit(s) => Ok((LitV::Str(s), i + 1)),
            TokV::IntLit(v) => Ok((LitV::Int(v), i + 1)),
            TokV::FloatLit(s) => Ok((LitV::Float(s), i + 1)),
            TokV::BoolLit(b) => Ok((LitV::Bool(b), i + 1)),
            TokV::Minus => sp_num_lit(t, i),
            _ => Err(gram(i)),
        }
    } else {
        Err(gram(i))
    }
}

/// A capability score: an integer literal, optionally negated.
pub open spec fn sp_score(t: Seq<TokV>, i: int) -> Result<(i64, int), DiagV> {
    if 0 <= i < t.len() {
        match t[i] {
            TokV::IntLit(v) => Ok((v, i + 1)),
            TokV::Minus => if i + 1 < t.len() {
                match t[i + 1] {
                    TokV::IntLit(v) => if v == i64::MIN {
                        Err(gram(i + 1))
                    } else {
                        Ok((((-(v as int)) as i64), i + 2))
                    },
                    _ => Err(gram(i + 1)),
                }
            } else {
                Err(gram(i + 1))
            },
            _ => Err(gram(i)),
        }
    } else {
        Err(gram(i))
    }
}

/// One numeric literal for a range bound, optionally negated.
pub open spec fn sp_num_lit(t: Seq<TokV>, i: int) -> Result<(LitV, int), DiagV> {
    if 0 <= i < t.len() {
        match t[i] {
            TokV::IntLit(v) => Ok((LitV::Int(v), i + 1)),
            TokV::FloatLit(s) => Ok((LitV::Float(s), i + 1)),
            TokV::Minus => if i + 1 < t.len() {
                match t[i + 1] {
                    TokV::IntLit(v) => if v == i64::MIN {
                        Err(gram(i + 1))
                    } else {
                        Ok((LitV::Int((-(v as int)) as i64), i + 2))
                    },
                    TokV::FloatLit(s) => Ok((LitV::Float(seq![45u8] + s), i + 2)),
                    _ => Err(gram(i + 1)),
                }
            } else {
                Err(gram(i + 1))
            },
            _ => Err(gram(i)),
        }
    } else {
        Err(gram(i))
    }
}

/// The separator inside a delimited list: nothing before the closing token,
/// otherwise a comma. The closing token itself is not consumed.
pub open spec fn sp_list_sep(t: Seq<TokV>, i: int, close: TokV) -> Result<int, DiagV> {
    if 0 <= i < t.len() && t[i] == close {
        Ok(i)
    } else {
        sp_punct(t, i, TokV::Comma)
    }
}

/// The separator after a module-body entry: nothing at the body's end,
/// otherwise a comma.
pub open spec fn sp_sep(t: Seq<TokV>, i: int, eb: bool) -> Result<int, DiagV> {
    if at_end(t, i, eb) {
        Ok(i)
    } else {
        sp_punct(t, i, TokV::Comma)
    }
}

/// The `name = "..."`/`description = "..."` entries of a section
/// annotation, up to and through the closing parenthesis.
pub open spec fn sp_section_args(
    t: Seq<TokV>,
    i: int,
    name: Option<Seq<u8>>,
    desc: Option<Seq<u8>>,
) -> Result<(SecV, int), DiagV>
    decreases t.len() - i,
        when 0 <= i <= t.len()
{
    if i >= t.len() {
        Err(gram(i))
    } else if t[i] == TokV::CloseParen {
        match name {
            Some(n) => Ok((SecV { name: n, description: desc }, i + 1)),
            None => Err(DiagV { pos: i, kind: ErrKV::MissingRequiredKey(ReqKey::SectionName) }),
        }
    } else {
        match sp_ident(t, i) {
            Err(e) => Err(e),
            Ok((key, j)) => if key == txt("name") || key == txt("description") {
                match sp_punct(t, j, TokV::Assign) {
                    Err(e) => Err(e),
                    Ok(j2) => match sp_str(t, j2) {
                        Err(e) => Err(e),
                        Ok((v, j3)) => match sp_list_sep(t, j3, TokV::CloseParen) {
                            Err(e) => Err(e),
                            Ok(j4) => if key == txt("name") {
                                sp_section_args(t, nxt(t, i, j4), Some(v), desc)
                            } else {
                                sp_section_args(t, nxt(t, i, j4), name, Some(v))
                            },
                        },
                    },
                }
            } else {
                Err(DiagV { pos: i, kind: ErrKV::UnknownKey(key) })
            },
        }
    }
}

/// The argument of an annotation. A parenthesized payload on a tag is
/// carried opaquely (only the deprecated tag accepts one, and its content
/// is ignored).
#[derive(Debug, PartialEq, Eq)]
pub enum Arg {
    NoArg,
    LitArg(Literal),
    SectionArg(SectionDescriptor),
    PayloadArg,
}

/// Mathematical value of an annotation argument.
pub enum ArgV {
    NoArg,
    LitArg(LitV),
    SectionArg(SecV),
    PayloadArg,
}

impl View for Arg {
    type V = ArgV;

    open spec fn view(&self) -> ArgV {
        match self {
            Arg::NoArg => ArgV::NoArg,
            Arg::LitArg(l) => ArgV::LitArg(l@),
            Arg::SectionArg(s) => ArgV::SectionArg(s@),
            Arg::PayloadArg => ArgV::PayloadArg,
        }
    }
}

/// Skip a parenthesized payload: everything up to and through the
/// parenthesis closing the one already opened, counting nested pairs.
pub open spec fn sp_skip_parens(t: Seq<TokV>, i: int, depth: int) -> Result<int, DiagV>
    decreases t.len() - i,
        when 0 <= i <= t.len()
{
    if i >= t.len() {
        Err(gram(i))
    } else if t[i] == TokV::CloseParen {
        if depth == 0 {
            Ok(i + 1)
        } else {
            sp_skip_parens(t, i + 1, depth - 1)
        }
    } else if t[i] == TokV::OpenParen {
        sp_skip_parens(t, i + 1, depth + 1)
    } else {
        sp_skip_parens(t, i + 1, depth)
    }
}

/// One annotation as written: its marker form (section-style markers carry
/// an extra bang), its name, its argument, and its position.
#[derive(Debug, PartialEq, Eq)]
pub struct Attr {
    pub inner: bool,
    pub name: Vec<u8>,
    pub arg: Arg,
    pub pos: usize,
}

/// Mathematical value of an annotation.
pub struct AttrV {
    pub inner: bool,
    pub name: Seq<u8>,
    pub arg: ArgV,
    pub pos: int,
}

impl View for Attr {
    type V = AttrV;

    open spec fn view(&self) -> AttrV {
        AttrV { inner: self.inner, name: self.name@, arg: self.arg@, pos: self.pos as int }
    }
}

/// The view of a sequence of annotations.
pub open spec fn av(a: Seq<Attr>) -> Seq<AttrV> {
    a.map_values(|x: Attr| x@)
}

/// One annotation: a pound marker, an optional bang, and a bracketed name
/// with an optional `= literal` or parenthesized section argument.
pub open spec fn sp_attr(t: Seq<TokV>, i: int) -> Result<(AttrV, int), DiagV> {
    if !(0 <= i < t.len() && t[i] == TokV::Pound) {
        Err(gram(i))
    } else {
        let (inner, j) = if i + 1 < t.len() && t[i + 1] == TokV::Bang {
            (true, i + 2)
        } else {
            (false, i + 1)
        };
        match sp_punct(t, j, TokV::OpenBracket) {
            Err(e) => Err(e),
            Ok(j2) => match sp_ident(t, j2) {
                Err(e) => Err(e),
                Ok((name, j3)) => if j3 < t.len() {
                    match t[j3] {
                        TokV::CloseBracket => Ok(
                            (AttrV { inner, name, arg: ArgV::NoArg, pos: i }, j3 + 1),
                        ),
                        TokV::Assign => match sp_literal(t, j3 + 1) {
                            Err(e) => Err(e),
                            Ok((l, j4)) => match sp_punct(t, j4, TokV::CloseBracket) {
                                Err(e) => Err(e),
                                Ok(j5) => Ok(
                                    (AttrV { inner, name, arg: ArgV::LitArg(l), pos: i }, j5),
                                ),
                            },
                        },
                        TokV::OpenParen => if name == txt("section") {
                            match sp_section_args(t, nxt0(t, i, j3 + 1), None, None) {
                                Err(e) => Err(e),
                                Ok((sec, j4)) => match sp_punct(t, j4, TokV::CloseBracket) {
                                    Err(e) => Err(e),
                                    Ok(j5) => Ok(
                                        (
                                            AttrV {
                                                inner,
                                                name,
                                                arg: ArgV::SectionArg(sec),
                                                pos: i,
                                            },
                                            j5,
                                        ),
                                    ),
                                },
                            }
                        } else {
                            match sp_skip_parens(t, nxt0(t, i, j3 + 1), 0) {
                                Err(e) => Err(e),
                                Ok(j4) => match sp_punct(t, j4, TokV::CloseBracket) {
                                    Err(e) => Err(e),
                                    Ok(j5) => Ok(
                                        (AttrV { inner, name, arg: ArgV::PayloadArg, pos: i }, j5),
                                    ),
                                },
                            }
                        },
                        _ => Err(gram(j3)),
                    }
                } else {
                    Err(gram(j3))
                },
            },
        }
    }
}

/// All annotations standing before an entry.
pub open spec fn sp_attrs(t: Seq<TokV>, i: int, acc: Seq<AttrV>) -> Result<
    (Seq<AttrV>, int),
    DiagV,
>
    decreases t.len() - i,
        when 0 <= i <= t.len()
{
    if 0 <= i < t.len() && t[i] == TokV::Pound {
        match sp_attr(t, i) {
            Err(e) => Err(e),
            Ok((a, j)) => sp_attrs(t, nxt(t, i, j), acc.push(a)),
        }
    } else {
        Ok((acc, i))
    }
}

/// The `name = "..."`/`description = "..."` entries of a section
/// annotation.
pub fn p_section_args(
    t: &Vec<Tok>,
    i: usize,
    name: Option<Vec<u8>>,
    desc: Option<Vec<u8>>,
) -> (r: Result<(SectionDescriptor, usize), Diag>)
    requires
        i <= t@.len(),
    ensures
        match r {
            Ok((v, j)) => i < j <= t@.len() && sp_section_args(tv(t@), i as int, ob(&name), ob(&desc))
                == Ok::<(SecV, int), DiagV>((v@, j as int)),
            Err(e) => sp_section_args(tv(t@), i as int, ob(&name), ob(&desc)) == Err::<
                (SecV, int),
                DiagV,
            >(e@),
        },
    decreases t@.len() - i,
{
    let ghost s = tv(t@);
    if i >= t.len() {
        return Err(Diag { pos: i, kind: ErrorKind::Grammar });
    }
    proof {
        assert(s[i as int] == t@[i as int]@);
    }
    match &t[i] {
        Tok::CloseParen => {
            match name {
                Some(n) => Ok((SectionDescriptor { name: n, description: desc }, i + 1)),
                None => Err(Diag { pos: i, kind: ErrorKind::MissingRequiredKey(ReqKey::SectionName) }),
            }
        },
        Tok::Ident(key) => {
            let is_name = bytes_eq(key, "name".as_bytes());
            let is_desc = bytes_eq(key, "description".as_bytes());
            if !(is_name || is_desc) {
                return Err(Diag { pos: i, kind: ErrorKind::UnknownKey(bytes_clone(key)) });
            }
            let j = i + 1;
            if !(j < t.len() && is_assign(&t[j])) {
                proof {
                    assert(j < t@.len() ==> s[j as int] == t@[j as int]@);
                }
                return Err(Diag { pos: j, kind: ErrorKind::Grammar });
            }
            proof {
                assert(s[j as int] == t@[j as int]@);
            }
            let j2 = j + 1;
            if j2 >= t.len() {
                return Err(Diag { pos: j2, kind: ErrorKind::Grammar });
            }
            proof {
                assert(s[j2 as int] == t@[j2 as int]@);
            }
            let v = match &t[j2] {
                Tok::StrLit(sv) => bytes_clone(sv),
                _ => {
                    return Err(Diag { pos: j2, kind: ErrorKind::Grammar });
                },
            };
            let j3 = j2 + 1;
            let j4: usize;
            if j3 < t.len() && is_close_paren(&t[j3]) {
                proof {
                    assert(s[j3 as int] == t@[j3 as int]@);
                }
                j4 = j3;
            } else if j3 < t.len() && is_comma(&t[j3]) {
                proof {
                    assert(s[j3 as int] == t@[j3 as int]@);
                }
                j4 = j3 + 1;
            } else {
                proof {
                    assert(j3 < t@.len() ==> s[j3 as int] == t@[j3 as int]@);
                }
                return Err(Diag { pos: j3, kind: ErrorKind::Grammar });
            }
            proof {
                assert(nxt(s, i as int, j4 as int) == j4 as int);
            }
            if is_name {
                p_section_args(t, j4, Some(v), desc)
            } else {
                p_section_args(t, j4, name, Some(v))
            }
        },
        _ => Err(Diag { pos: i, kind: ErrorKind::Grammar }),
    }
}

/// One annotation.
pub fn p_attr(t: &Vec<Tok>, i: usize) -> (r: Result<(Attr, usize), Diag>)
    requires
        i <= t@.len(),
    ensures
        match r {
            Ok((v, j)) => i < j <= t@.len() && sp_attr(tv(t@), i as int) == Ok::<
                (AttrV, int),
                DiagV,
            >((v@, j as int)),
            Err(e) => sp_attr(tv(t@), i as int) == Err::<(AttrV, int), DiagV>(e@),
        },
{
    let ghost s = tv(t@);
    if !(i < t.len() && is_pound(&t[i])) {
        proof {
            assert(i < t@.len() ==> s[i as int] == t@[i as int]@);
        }
        return Err(Diag { pos: i, kind: ErrorKind::Grammar });
    }
    proof {
        assert(s[i as int] == t@[i as int]@);
    }
    let inner = i + 1 < t.len() && is_bang(&t[i + 1]);
    proof {
        assert(i + 1 < t@.len() ==> s[i as int + 1] == t@[i as int + 1]@);
    }
    let j = if inner {
        i + 2
    } else {
        i + 1
    };
    if !(j < t.len() && is_open_bracket(&t[j])) {
        proof {
            assert(j < t@.len() ==> s[j as int] == t@[j as int]@);
        }
        return Err(Diag { pos: j, kind: ErrorKind::Grammar });
    }
    proof {
        assert(s[j as int] == t@[j as int]@);
    }
    let j2 = j + 1;
    if j2 >= t.len() {
        return Err(Diag { pos: j2, kind: ErrorKind::Grammar });
    }
    proof {
        assert(s[j2 as int] == t@[j2 as int]@);
    }
    let name = match &t[j2] {
        Tok::Ident(n) => bytes_clone(n),
        _ => {
            return Err(Diag { pos: j2, kind: ErrorKind::Grammar });
        },
    };
    let j3 = j2 + 1;
    if j3 >= t.len() {
        return Err(Diag { pos: j3, kind: ErrorKind::Grammar });
    }
    proof {
        assert(s[j3 as int] == t@[j3 as int]@);
    }
    match &t[j3] {
        Tok::CloseBracket => Ok((Attr { inner, name, arg: Arg::NoArg, pos: i }, j3 + 1)),
        Tok::Assign => {
            match p_literal(t, j3 + 1) {
                Err(e) => Err(e),
                Ok((l, j4)) => {
                    if !(j4 < t.len() && is_close_bracket(&t[j4])) {
                        proof {
                            assert(j4 < t@.len() ==> s[j4 as int] == t@[j4 as int]@);
                        }
                        return Err(Diag { pos: j4, kind: ErrorKind::Grammar });
                    }
                    proof {
                        assert(s[j4 as int] == t@[j4 as int]@);
                    }
                    Ok((Attr { inner, name, arg: Arg::LitArg(l), pos: i }, j4 + 1))
                },
            }
        },
        Tok::OpenParen => {
            if bytes_eq(&name, "section".as_bytes()) {
                proof {
                    assert(nxt0(s, i as int, j3 as int + 1) == j3 as int + 1);
                }
                match p_section_args(t, j3 + 1, None, None) {
                    Err(e) => Err(e),
                    Ok((sec, j4)) => {
                        if !(j4 < t.len() && is_close_bracket(&t[j4])) {
                            proof {
                                assert(j4 < t@.len() ==> s[j4 as int] == t@[j4 as int]@);
                            }
                            return Err(Diag { pos: j4, kind: ErrorKind::Grammar });
                        }
                        proof {
                            assert(s[j4 as int] == t@[j4 as int]@);
                        }
                        Ok((Attr { inner, name, arg: Arg::SectionArg(sec), pos: i }, j4 + 1))
                    },
                }
            } else {
                proof {
                    assert(nxt0(s, i as int, j3 as int + 1) == j3 as int + 1);
                }
                match p_skip_parens(t, j3 + 1, 0) {
                    Err(e) => Err(e),
                    Ok(j4) => {
                        if !(j4 < t.len() && is_close_bracket(&t[j4])) {
                            proof {
                                assert(j4 < t@.len() ==> s[j4 as int] == t@[j4 as int]@);
                            }
                            return Err(Diag { pos: j4, kind: ErrorKind::Grammar });
                        }
                        proof {
                            assert(s[j4 as int] == t@[j4 as int]@);
                        }
                        Ok((Attr { inner, name, arg: Arg::PayloadArg, pos: i }, j4 + 1))
                    },
                }
            }
        },
        _ => Err(Diag { pos: j3, kind: ErrorKind::Grammar }),
    }
}

/// All annotations standing before an entry.
pub fn p_attrs(t: &Vec<Tok>, i: usize, acc: Vec<Attr>) -> (r: Result<(Vec<Attr>, usize), Diag>)
    requires
        i <= t@.len(),
    ensures
        match r {
            Ok((v, j)) => i <= j <= t@.len() && sp_attrs(tv(t@), i as int, av(acc@))
                == Ok::<(Seq<AttrV>, int), DiagV>((av(v@), j as int)),
            Err(e) => sp_attrs(tv(t@), i as int, av(acc@)) == Err::<
                (Seq<AttrV>, int),
                DiagV,
            >(e@),
        },
    decreases t@.len() - i,
{
    let ghost s = tv(t@);
    let ghost acc0 = av(acc@);
    if i < t.len() && is_pound(&t[i]) {
        proof {
            assert(s[i as int] == t@[i as int]@);
        }
        match p_attr(t, i) {
            Err(e) => Err(e),
            Ok((a, j)) => {
                let mut acc2 = acc;
                acc2.push(a);
                proof {
                    assert(av(acc2@) =~= acc0.push(a@));
                    assert(nxt(s, i as int, j as int) == j as int);
                }
                p_attrs(t, j, acc2)
            },
        }
    } else {
        proof {
            assert(i < t@.len() ==> s[i as int] == t@[i as int]@);
        }
        Ok((acc, i))
    }
}

/// The tag an annotation name denotes, if any.
pub open spec fn tag_of_name(n: Seq<u8>) -> Option<Tag> {
    if n == txt("deprecated") {
        Some(Tag::Deprecated)
    } else if n == txt("rgb") {
        Some(Tag::Rgb)
    } else if n == txt("font") {
        Some(Tag::Font)
    } else if n == txt("savefile") {
        Some(Tag::Savefile)
    } else if n == txt("loadfile") {
        Some(Tag::Loadfile)
    } else if n == txt("password") {
        Some(Tag::Password)
    } else if n == txt("directory") {
        Some(Tag::Directory)
    } else {
        None
    }
}

/// The tag an annotation name denotes, if any.
pub fn tag_name(n: &Vec<u8>) -> (r: Option<Tag>)
    ensures
        r == tag_of_name(n@),
{
    if bytes_eq(n, "deprecated".as_bytes()) {
        Some(Tag::Deprecated)
    } else if bytes_eq(n, "rgb".as_bytes()) {
        Some(Tag::Rgb)
    } else if bytes_eq(n, "font".as_bytes()) {
        Some(Tag::Font)
    } else if bytes_eq(n, "savefile".as_bytes()) {
        Some(Tag::Savefile)
    } else if bytes_eq(n, "loadfile".as_bytes()) {
        Some(Tag::Loadfile)
    } else if bytes_eq(n, "password".as_bytes()) {
        Some(Tag::Password)
    } else if bytes_eq(n, "directory".as_bytes()) {
        Some(Tag::Directory)
    } else {
        None
    }
}

/// The interpretation of a parameter entry's annotations: section-style
/// markers must carry a section argument; plain markers must name a tag of
/// the fixed set, and only the deprecated tag may carry a payload. A later
/// section marker overwrites an earlier one.
pub open spec fn sp_param_attr_interp(
    attrs: Seq<AttrV>,
    k: int,
    section: Option<SecV>,
    tags: Seq<Tag>,
) -> Result<(Option<SecV>, Seq<Tag>), DiagV>
    decreases attrs.len() - k,
        when 0 <= k <= attrs.len()
{
    if k >= attrs.len() {
        Ok((section, tags))
    } else {
        let a = attrs[k];
        if a.inner {
            if a.name == txt("section") {
                match a.arg {
                    ArgV::SectionArg(s) => sp_param_attr_interp(attrs, k + 1, Some(s), tags),
                    _ => Err(conflict(a.pos)),
                }
            } else {
                Err(conflict(a.pos))
            }
        } else {
            match tag_of_name(a.name) {
                Some(tag) => {
                    let arg_ok = match a.arg {
                        ArgV::NoArg => true,
                        ArgV::LitArg(_) => tag == Tag::Deprecated,
                        ArgV::SectionArg(_) => false,
                        ArgV::PayloadArg => tag == Tag::Deprecated,
                    };
                    if arg_ok {
                        sp_param_attr_interp(attrs, k + 1, section, tags.push(tag))
                    } else {
                        Err(conflict(a.pos))
                    }
                },
                None => Err(conflict(a.pos)),
            }
        }
    }
}

/// A fresh copy of a section.
pub fn section_clone(s: &SectionDescriptor) -> (r: SectionDescriptor)
    ensures
        r@ == s@,
{
    SectionDescriptor {
        name: bytes_clone(&s.name),
        description: crate::toks::opt_bytes_clone(&s.description),
    }
}

/// The interpretation of a parameter entry's annotations.
pub fn p_param_attr_interp(
    attrs: &Vec<Attr>,
    k: usize,
    section: Option<SectionDescriptor>,
    tags: Vec<Tag>,
) -> (r: Result<(Option<SectionDescriptor>, Vec<Tag>), Diag>)
    requires
        k <= attrs@.len(),
    ensures
        match r {
            Ok((sec2, tags2)) => sp_param_attr_interp(av(attrs@), k as int, osec(&section), tags@)
                == Ok::<(Option<SecV>, Seq<Tag>), DiagV>((osec(&sec2), tags2@)),
            Err(e) => sp_param_attr_interp(av(attrs@), k as int, osec(&section), tags@) == Err::<
                (Option<SecV>, Seq<Tag>),
                DiagV,
            >(e@),
        },
    decreases attrs@.len() - k,
{
    if k >= attrs.len() {
        return Ok((section, tags));
    }
    let a = &attrs[k];
    proof {
        assert(av(attrs@)[k as int] == attrs@[k as int]@);
    }
    if a.inner {
        if bytes_eq(&a.name, "section".as_bytes()) {
            match &a.arg {
                Arg::SectionArg(s) => p_param_attr_interp(attrs, k + 1, Some(section_clone(s)), tags),
                _ => Err(Diag { pos: a.pos, kind: ErrorKind::AnnotationConflict }),
            }
        } else {
            Err(Diag { pos: a.pos, kind: ErrorKind::AnnotationConflict })
        }
    } else {
        match tag_name(&a.name) {
            Some(tag) => {
                let arg_ok = match &a.arg {
                    Arg::NoArg => true,
                    Arg::LitArg(_) => tag == Tag::Deprecated,
                    Arg::SectionArg(_) => false,
                    Arg::PayloadArg => tag == Tag::Deprecated,
                };
                if arg_ok {
                    let mut tags2 = tags;
                    tags2.push(tag);
                    proof {
                        assert(tags2@ =~= tags@.push(tag));
                    }
                    p_param_attr_interp(attrs, k + 1, section, tags2)
                } else {
                    Err(Diag { pos: a.pos, kind: ErrorKind::AnnotationConflict })
                }
            },
            None => Err(Diag { pos: a.pos, kind: ErrorKind::AnnotationConflict }),
        }
    }
}

/// View of an optional section.
pub open spec fn osec(o: &Option<SectionDescriptor>) -> Option<SecV> {
    match o {
        Some(s) => Some(s@),
        None => None,
    }
}

/// A range bound list: an optional lower bound, the range separator, and an
/// optional upper bound ending at the entry separator.
pub open spec fn sp_range(t: Seq<TokV>, i: int) -> Result<(RawRangeV, int), DiagV> {
    let from_absent = 0 <= i < t.len() && (t[i] == TokV::DotDot || t[i] == TokV::DotDotAssign);
    let from_step: Result<(Option<LitV>, int), DiagV> = if from_absent {
        Ok((None, i))
    } else {
        match sp_num_lit(t, i) {
            Err(e) => Err(e),
            Ok((l, j)) => Ok((Some(l), j)),
        }
    };
    match from_step {
        Err(e) => Err(e),
        Ok((from, j)) => {
            let dots: Result<(bool, int), DiagV> = if 0 <= j < t.len() && t[j]
                == TokV::DotDotAssign {
                Ok((true, j + 1))
            } else if 0 <= j < t.len() && t[j] == TokV::DotDot {
                Ok((false, j + 1))
            } else {
                Err(gram(j))
            };
            match dots {
                Err(e) => Err(e),
                Ok((closed, k)) => {
                    let to_absent = k >= t.len() || t[k] == TokV::Comma || t[k]
                        == TokV::CloseBrace;
                    if to_absent {
                        Ok((RawRangeV { from, to: None, closed, pos: i }, k))
                    } else {
                        match sp_num_lit(t, k) {
                            Err(e) => Err(e),
                            Ok((l, m)) => Ok(
                                (RawRangeV { from, to: Some(l), closed, pos: i }, m),
                            ),
                        }
                    }
                },
            }
        },
    }
}

/// One numeric literal for a range bound, optionally negated.
pub fn p_num_lit(t: &Vec<Tok>, i: usize) -> (r: Result<(Literal, usize), Diag>)
    requires
        i <= t@.len(),
    ensures
        match r {
            Ok((v, j)) => i < j <= t@.len() && sp_num_lit(tv(t@), i as int) == Ok::<
                (LitV, int),
                DiagV,
            >((v@, j as int)),
            Err(e) => sp_num_lit(tv(t@), i as int) == Err::<(LitV, int), DiagV>(e@),
        },
{
    let ghost s = tv(t@);
    if i >= t.len() {
        return Err(Diag { pos: i, kind: ErrorKind::Grammar });
    }
    proof {
        assert(s[i as int] == t@[i as int]@);
    }
    match &t[i] {
        Tok::IntLit(v) => Ok((Literal::Int(*v), i + 1)),
        Tok::FloatLit(x) => Ok((Literal::Float(bytes_clone(x)), i + 1)),
        Tok::Minus => {
            if i + 1 >= t.len() {
                return Err(Diag { pos: i + 1, kind: ErrorKind::Grammar });
            }
            proof {
                assert(s[i as int + 1] == t@[i as int + 1]@);
            }
            match &t[i + 1] {
                Tok::IntLit(v) => {
                    if *v == i64::MIN {
                        Err(Diag { pos: i + 1, kind: ErrorKind::Grammar })
                    } else {
                        Ok((Literal::Int(-*v), i + 2))
                    }
                },
                Tok::FloatLit(x) => {
                    let mut sv: Vec<u8> = Vec::new();
                    sv.push(45);
                    crate::names::append_bytes(&mut sv, x);
                    proof {
                        assert(sv@ =~= seq![45u8] + x@);
                    }
                    Ok((Literal::Float(sv), i + 2))
                },
                _ => Err(Diag { pos: i + 1, kind: ErrorKind::Grammar }),
            }
        },
        _ => Err(Diag { pos: i, kind: ErrorKind::Grammar }),
    }
}

/// One literal token; numeric literals may carry a leading minus.
pub fn p_literal(t: &Vec<Tok>, i: usize) -> (r: Result<(Literal, usize), Diag>)
    requires
        i <= t@.len(),
    ensures
        match r {
            Ok((v, j)) => i < j <= t@.len() && sp_literal(tv(t@), i as int) == Ok::<
                (LitV, int),
                DiagV,
            >((v@, j as int)),
            Err(e) => sp_literal(tv(t@), i as int) == Err::<(LitV, int), DiagV>(e@),
        },
{
    let ghost s = tv(t@);
    if i >= t.len() {
        return Err(Diag { pos: i, kind: ErrorKind::Grammar });
    }
    proof {
        assert(s[i as int] == t@[i as int]@);
    }
    match &t[i] {
        Tok::StrLit(x) => Ok((Literal::Str(bytes_clone(x)), i + 1)),
        Tok::IntLit(x) => Ok((Literal::Int(*x), i + 1)),
        Tok::FloatLit(x) => Ok((Literal::Float(bytes_clone(x)), i + 1)),
        Tok::BoolLit(x) => Ok((Literal::Bool(*x), i + 1)),
        Tok::Minus => p_num_lit(t, i),
        _ => Err(Diag { pos: i, kind: ErrorKind::Grammar }),
    }
}

/// A capability score: an integer literal, optionally negated.
pub fn p_score(t: &Vec<Tok>, i: usize) -> (r: Result<(i64, usize), Diag>)
    requires
        i <= t@.len(),
    ensures
        match r {
            Ok((v, j)) => i < j <= t@.len() && sp_score(tv(t@), i as int) == Ok::<
                (i64, int),
                DiagV,
            >((v, j as int)),
            Err(e) => sp_score(tv(t@), i as int) == Err::<(i64, int), DiagV>(e@),
        },
{
    let ghost s = tv(t@);
    if i >= t.len() {
        return Err(Diag { pos: i, kind: ErrorKind::Grammar });
    }
    proof {
        assert(s[i as int] == t@[i as int]@);
    }
    match &t[i] {
        Tok::IntLit(v) => Ok((*v, i + 1)),
        Tok::Minus => {
            if i + 1 >= t.len() {
                return Err(Diag { pos: i + 1, kind: ErrorKind::Grammar });
            }
            proof {
                assert(s[i as int + 1] == t@[i as int + 1]@);
            }
            match &t[i + 1] {
                Tok::IntLit(v) => {
                    if *v == i64::MIN {
                        Err(Diag { pos: i + 1, kind: ErrorKind::Grammar })
                    } else {
                        Ok((-*v, i + 2))
                    }
                },
                _ => Err(Diag { pos: i + 1, kind: ErrorKind::Grammar }),
            }
        },
        _ => Err(Diag { pos: i, kind: ErrorKind::Grammar }),
    }
}

/// Skip a parenthesized payload, counting nested pairs.
pub fn p_skip_parens(t: &Vec<Tok>, i: usize, depth: usize) -> (r: Result<usize, Diag>)
    requires
        i <= t@.len(),
        depth <= i,
    ensures
        match r {
            Ok(j) => i < j <= t@.len() && sp_skip_parens(tv(t@), i as int, depth as int) == Ok::<
                int,
                DiagV,
            >(j as int),
            Err(e) => sp_skip_parens(tv(t@), i as int, depth as int) == Err::<int, DiagV>(e@),
        },
    decreases t@.len() - i,
{
    let ghost s = tv(t@);
    if i >= t.len() {
        return Err(Diag { pos: i, kind: ErrorKind::Grammar });
    }
    proof {
        assert(s[i as int] == t@[i as int]@);
    }
    if is_close_paren(&t[i]) {
        if depth == 0 {
            Ok(i + 1)
        } else {
            p_skip_parens(t, i + 1, depth - 1)
        }
    } else if is_open_paren(&t[i]) {
        p_skip_parens(t, i + 1, depth + 1)
    } else {
        p_skip_parens(t, i + 1, depth)
    }
}

/// A range bound pair as written.
pub fn p_range(t: &Vec<Tok>, i: usize) -> (r: Result<(RawRange, usize), Diag>)
    requires
        i <= t@.len(),
    ensures
        match r {
            Ok((v, j)) => i <= j <= t@.len() && sp_range(tv(t@), i as int) == Ok::<
                (RawRangeV, int),
                DiagV,
            >((v@, j as int)),
            Err(e) => sp_range(tv(t@), i as int) == Err::<(RawRangeV, int), DiagV>(e@),
        },
{
    let ghost s = tv(t@);
    proof {
        assert(i < t@.len() ==> s[i as int] == t@[i as int]@);
    }
    let from_absent = i < t.len() && (is_dotdot(&t[i]) || is_dotdotassign(&t[i]));
    let from: Option<Literal>;
    let j: usize;
    if from_absent {
        from = None;
        j = i;
    } else {
        match p_num_lit(t, i) {
            Err(e) => {
                return Err(e);
            },
            Ok((l, j2)) => {
                from = Some(l);
                j = j2;
            },
        }
    }
    proof {
        assert(j < t@.len() ==> s[j as int] == t@[j as int]@);
    }
    let closed: bool;
    let k: usize;
    if j < t.len() && is_dotdotassign(&t[j]) {
        closed = true;
        k = j + 1;
    } else if j < t.len() && is_dotdot(&t[j]) {
        closed = false;
        k = j + 1;
    } else {
        return Err(Diag { pos: j, kind: ErrorKind::Grammar });
    }
    proof {
        assert(k < t@.len() ==> s[k as int] == t@[k as int]@);
    }
    let to_absent = k >= t.len() || is_comma(&t[k]) || is_close_brace(&t[k]);
    if to_absent {
        Ok((RawRange { from, to: None, closed, pos: i }, k))
    } else {
        match p_num_lit(t, k) {
            Err(e) => Err(e),
            Ok((l, m)) => Ok((RawRange { from, to: Some(l), closed, pos: i }, m)),
        }
    }
}

/// The braced body of a parameter: `default`, `range`, `text`, `long_text`
/// entries in any order, comma-separated; a `default` entry always takes a
/// trailing comma. Consumes the closing brace.
pub open spec fn sp_param_body(t: Seq<TokV>, i: int, p: RawParamV) -> Result<
    (RawParamV, int),
    DiagV,
>
    decreases t.len() - i,
        when 0 <= i <= t.len()
{
    if i >= t.len() {
        Err(gram(i))
    } else if t[i] == TokV::CloseBrace {
        Ok((p, i + 1))
    } else {
        match sp_ident(t, i) {
            Err(e) => Err(e),
            Ok((key, j)) => if key == txt("default") {
                match sp_punct(t, j, TokV::Colon) {
                    Err(e) => Err(e),
                    Ok(j2) => match sp_literal(t, j2) {
                        Err(e) => Err(e),
                        Ok((l, j3)) => match sp_punct(t, j3, TokV::Comma) {
                            Err(e) => Err(e),
                            Ok(j4) => sp_param_body(
                                t,
                                nxt(t, i, j4),
                                RawParamV { default_value: Some(l), ..p },
                            ),
                        },
                    },
                }
            } else if key == txt("range") {
                match sp_punct(t, j, TokV::Colon) {
                    Err(e) => Err(e),
                    Ok(j2) => match sp_range(t, j2) {
                        Err(e) => Err(e),
                        Ok((rg, j3)) => match sp_list_sep(t, j3, TokV::CloseBrace) {
                            Err(e) => Err(e),
                            Ok(j4) => sp_param_body(
                                t,
                                nxt(t, i, j4),
                                RawParamV { range: Some(rg), ..p },
                            ),
                        },
                    },
                }
            } else if key == txt("text") || key == txt("long_text") {
                match sp_punct(t, j, TokV::Colon) {
                    Err(e) => Err(e),
                    Ok(j2) => match sp_str(t, j2) {
                        Err(e) => Err(e),
                        Ok((v, j3)) => match sp_list_sep(t, j3, TokV::CloseBrace) {
                            Err(e) => Err(e),
                            Ok(j4) => if key == txt("text") {
                                sp_param_body(t, nxt(t, i, j4), RawParamV { text: Some(v), ..p })
                            } else {
                                sp_param_body(
                                    t,
                                    nxt(t, i, j4),
                                    RawParamV { long_text: Some(v), ..p },
                                )
                            },
                        },
                    },
                }
            } else {
                Err(DiagV { pos: i, kind: ErrKV::UnknownKey(key) })
            },
        }
    }
}

/// The braced body of a parameter.
pub fn p_param_body(t: &Vec<Tok>, i: usize, p: RawParam) -> (r: Result<(RawParam, usize), Diag>)
    requires
        i <= t@.len(),
    ensures
        match r {
            Ok((v, j)) => i < j <= t@.len() && sp_param_body(tv(t@), i as int, p@) == Ok::<
                (RawParamV, int),
                DiagV,
            >((v@, j as int)),
            Err(e) => sp_param_body(tv(t@), i as int, p@) == Err::<(RawParamV, int), DiagV>(e@),
        },
    decreases t@.len() - i,
{
    let ghost s = tv(t@);
    if i >= t.len() {
        return Err(Diag { pos: i, kind: ErrorKind::Grammar });
    }
    proof {
        assert(s[i as int] == t@[i as int]@);
    }
    if is_close_brace(&t[i]) {
        return Ok((p, i + 1));
    }
    let key = match &t[i] {
        Tok::Ident(n) => n,
        _ => {
            return Err(Diag { pos: i, kind: ErrorKind::Grammar });
        },
    };
    let j = i + 1;
    if bytes_eq(key, "default".as_bytes()) {
        if !(j < t.len() && is_colon(&t[j])) {
            proof {
                assert(j < t@.len() ==> s[j as int] == t@[j as int]@);
            }
            return Err(Diag { pos: j, kind: ErrorKind::Grammar });
        }
        proof {
            assert(s[j as int] == t@[j as int]@);
        }
        let j2 = j + 1;
        let (l, j3) = match p_literal(t, j2) {
            Err(e) => {
                return Err(e);
            },
            Ok(x) => x,
        };
        if !(j3 < t.len() && is_comma(&t[j3])) {
            proof {
                assert(j3 < t@.len() ==> s[j3 as int] == t@[j3 as int]@);
            }
            return Err(Diag { pos: j3, kind: ErrorKind::Grammar });
        }
        proof {
            assert(s[j3 as int] == t@[j3 as int]@);
        }
        let j4 = j3 + 1;
        let mut p2 = p;
        p2.default_value = Some(l);
        proof {
            assert(nxt(s, i as int, j4 as int) == j4 as int);
        }
        p_param_body(t, j4, p2)
    } else if bytes_eq(key, "range".as_bytes()) {
        if !(j < t.len() && is_colon(&t[j])) {
            proof {
                assert(j < t@.len() ==> s[j as int] == t@[j as int]@);
            }
            return Err(Diag { pos: j, kind: ErrorKind::Grammar });
        }
        proof {
            assert(s[j as int] == t@[j as int]@);
        }
        match p_range(t, j + 1) {
            Err(e) => Err(e),
            Ok((rg, j3)) => {
                let j4: usize;
                if j3 < t.len() && is_close_brace(&t[j3]) {
                    proof {
                        assert(s[j3 as int] == t@[j3 as int]@);
                    }
                    j4 = j3;
                } else if j3 < t.len() && is_comma(&t[j3]) {
                    proof {
                        assert(s[j3 as int] == t@[j3 as int]@);
                    }
                    j4 = j3 + 1;
                } else {
                    proof {
                        assert(j3 < t@.len() ==> s[j3 as int] == t@[j3 as int]@);
                    }
                    return Err(Diag { pos: j3, kind: ErrorKind::Grammar });
                }
                let mut p2 = p;
                p2.range = Some(rg);
                proof {
                    assert(nxt(s, i as int, j4 as int) == j4 as int);
                }
                p_param_body(t, j4, p2)
            },
        }
    } else {
        let is_text = bytes_eq(key, "text".as_bytes());
        let is_long = bytes_eq(key, "long_text".as_bytes());
        if !(is_text || is_long) {
            return Err(Diag { pos: i, kind: ErrorKind::UnknownKey(bytes_clone(key)) });
        }
        if !(j < t.len() && is_colon(&t[j])) {
            proof {
                assert(j < t@.len() ==> s[j as int] == t@[j as int]@);
            }
            return Err(Diag { pos: j, kind: ErrorKind::Grammar });
        }
        proof {
            assert(s[j as int] == t@[j as int]@);
        }
        let j2 = j + 1;
        if j2 >= t.len() {
            return Err(Diag { pos: j2, kind: ErrorKind::Grammar });
        }
        proof {
            assert(s[j2 as int] == t@[j2 as int]@);
        }
        let v = match &t[j2] {
            Tok::StrLit(x) => bytes_clone(x),
            _ => {
                return Err(Diag { pos: j2, kind: ErrorKind::Grammar });
            },
        };
        let j3 = j2 + 1;
        let j4: usize;
        if j3 < t.len() && is_close_brace(&t[j3]) {
            proof {
                assert(s[j3 as int] == t@[j3 as int]@);
            }
            j4 = j3;
        } else if j3 < t.len() && is_comma(&t[j3]) {
            proof {
                assert(s[j3 as int] == t@[j3 as int]@);
            }
            j4 = j3 + 1;
        } else {
            proof {
                assert(j3 < t@.len() ==> s[j3 as int] == t@[j3 as int]@);
            }
            return Err(Diag { pos: j3, kind: ErrorKind::Grammar });
        }
        let mut p2 = p;
        if is_text {
            p2.text = Some(v);
        } else {
            p2.long_text = Some(v);
        }
        proof {
            assert(nxt(s, i as int, j4 as int) == j4 as int);
        }
        p_param_body(t, j4, p2)
    }
}

/// One parameter entry: annotations, `name: scalar_type { body }`, with
/// `default`, `text` and `long_text` required by the sub-grammar.
pub open spec fn sp_param(t: Seq<TokV>, i: int) -> Result<(RawParamV, int), DiagV> {
    match sp_attrs(t, i, Seq::empty()) {
        Err(e) => Err(e),
        Ok((attrs, j0)) => match sp_param_attr_interp(attrs, 0, None, Seq::empty()) {
            Err(e) => Err(e),
            Ok((section, tags)) => match sp_ident(t, j0) {
                Err(e) => Err(e),
                Ok((name, j1)) => match sp_punct(t, j1, TokV::Colon) {
                    Err(e) => Err(e),
                    Ok(j2) => match sp_ident(t, j2) {
                        Err(e) => Err(e),
                        Ok((sn, j3)) => match sp_punct(t, j3, TokV::OpenBrace) {
                            Err(e) => Err(e),
                            Ok(j4) => match sp_param_body(
                                t,
                                j4,
                                RawParamV {
                                    pos: j0,
                                    name,
                                    scalar_name: sn,
                                    scalar_pos: j2,
                                    default_value: None,
                                    range: None,
                                    text: None,
                                    long_text: None,
                                    prefix: None,
                                    section,
                                    tags,
                                },
                            ) {
                                Err(e) => Err(e),
                                Ok((p, m)) => if p.default_value is None {
                                    Err(
                                        DiagV {
                                            pos: m,
                                            kind: ErrKV::MissingRequiredKey(ReqKey::DefaultValue),
                                        },
                                    )
                                } else if p.text is None {
                                    Err(
                                        DiagV { pos: m, kind: ErrKV::MissingRequiredKey(ReqKey::Text) },
                                    )
                                } else if p.long_text is None {
                                    Err(
                                        DiagV {
                                            pos: m,
                                            kind: ErrKV::MissingRequiredKey(ReqKey::LongText),
                                        },
                                    )
                                } else {
                                    Ok((p, m))
                                },
                            },
                        },
                    },
                },
            },
        },
    }
}

/// One parameter entry.
pub fn p_param(t: &Vec<Tok>, i: usize) -> (r: Result<(RawParam, usize), Diag>)
    requires
        i <= t@.len(),
    ensures
        match r {
            Ok((v, j)) => i < j <= t@.len() && sp_param(tv(t@), i as int) == Ok::<
                (RawParamV, int),
                DiagV,
            >((v@, j as int)),
            Err(e) => sp_param(tv(t@), i as int) == Err::<(RawParamV, int), DiagV>(e@),
        },
{
    let ghost s = tv(t@);
    let empty_attrs: Vec<Attr> = Vec::new();
    proof {
        assert(av(empty_attrs@) =~= Seq::<AttrV>::empty());
    }
    let (attrs, j0) = match p_attrs(t, i, empty_attrs) {
        Err(e) => {
            return Err(e);
        },
        Ok(x) => x,
    };
    let empty_tags: Vec<Tag> = Vec::new();
    let (section, tags) = match p_param_attr_interp(&attrs, 0, None, empty_tags) {
        Err(e) => {
            return Err(e);
        },
        Ok(x) => x,
    };
    if j0 >= t.len() {
        return Err(Diag { pos: j0, kind: ErrorKind::Grammar });
    }
    proof {
        assert(s[j0 as int] == t@[j0 as int]@);
    }
    let name = match &t[j0] {
        Tok::Ident(n) => bytes_clone(n),
        _ => {
            return Err(Diag { pos: j0, kind: ErrorKind::Grammar });
        },
    };
    let j1 = j0 + 1;
    if !(j1 < t.len() && is_colon(&t[j1])) {
        proof {
            assert(j1 < t@.len() ==> s[j1 as int] == t@[j1 as int]@);
        }
        return Err(Diag { pos: j1, kind: ErrorKind::Grammar });
    }
    proof {
        assert(s[j1 as int] == t@[j1 as int]@);
    }
    let j2 = j1 + 1;
    if j2 >= t.len() {
        return Err(Diag { pos: j2, kind: ErrorKind::Grammar });
    }
    proof {
        assert(s[j2 as int] == t@[j2 as int]@);
    }
    let sn = match &t[j2] {
        Tok::Ident(n) => bytes_clone(n),
        _ => {
            return Err(Diag { pos: j2, kind: ErrorKind::Grammar });
        },
    };
    let j3 = j2 + 1;
    if !(j3 < t.len() && is_open_brace(&t[j3])) {
        proof {
            assert(j3 < t@.len() ==> s[j3 as int] == t@[j3 as int]@);
        }
        return Err(Diag { pos: j3, kind: ErrorKind::Grammar });
    }
    proof {
        assert(s[j3 as int] == t@[j3 as int]@);
    }
    let j4 = j3 + 1;
    let p0 = RawParam {
        pos: j0,
        name,
        scalar_name: sn,
        scalar_pos: j2,
        default_value: None,
        range: None,
        text: None,
        long_text: None,
        prefix: None,
        section,
        tags,
    };
    match p_param_body(t, j4, p0) {
        Err(e) => Err(e),
        Ok((p, m)) => {
            if p.default_value.is_none() {
                Err(Diag { pos: m, kind: ErrorKind::MissingRequiredKey(ReqKey::DefaultValue) })
            } else if p.text.is_none() {
                Err(Diag { pos: m, kind: ErrorKind::MissingRequiredKey(ReqKey::Text) })
            } else if p.long_text.is_none() {
                Err(Diag { pos: m, kind: ErrorKind::MissingRequiredKey(ReqKey::LongText) })
            } else {
                Ok((p, m))
            }
        },
    }
}

/// The parameter list inside the braces of a `params` entry, up to and
/// through the closing brace; entries are comma-separated, with an optional
/// trailing comma.
pub open spec fn sp_param_list(t: Seq<TokV>, i: int, acc: Seq<RawParamV>) -> Result<
    (Seq<RawParamV>, int),
    DiagV,
>
    decreases t.len() - i,
        when 0 <= i <= t.len()
{
    if i >= t.len() {
        Err(gram(i))
    } else if t[i] == TokV::CloseBrace {
        Ok((acc, i + 1))
    } else {
        match sp_param(t, i) {
            Err(e) => Err(e),
            Ok((p, j)) => match sp_list_sep(t, j, TokV::CloseBrace) {
                Err(e) => Err(e),
                Ok(j2) => sp_param_list(t, nxt(t, i, j2), acc.push(p)),
            },
        }
    }
}

/// The view of a sequence of raw parameters.
pub open spec fn rpv(v: Seq<RawParam>) -> Seq<RawParamV> {
    v.map_values(|p: RawParam| p@)
}

/// The parameter list inside the braces of a `params` entry.
pub fn p_param_list(t: &Vec<Tok>, i: usize, acc: Vec<RawParam>) -> (r: Result<
    (Vec<RawParam>, usize),
    Diag,
>)
    requires
        i <= t@.len(),
    ensures
        match r {
            Ok((v, j)) => i < j <= t@.len() && sp_param_list(tv(t@), i as int, rpv(acc@)) == Ok::<
                (Seq<RawParamV>, int),
                DiagV,
            >((rpv(v@), j as int)),
            Err(e) => sp_param_list(tv(t@), i as int, rpv(acc@)) == Err::<
                (Seq<RawParamV>, int),
                DiagV,
            >(e@),
        },
    decreases t@.len() - i,
{
    let ghost s = tv(t@);
    let ghost acc0 = rpv(acc@);
    if i >= t.len() {
        return Err(Diag { pos: i, kind: ErrorKind::Grammar });
    }
    proof {
        assert(s[i as int] == t@[i as int]@);
    }
    if is_close_brace(&t[i]) {
        return Ok((acc, i + 1));
    }
    match p_param(t, i) {
        Err(e) => Err(e),
        Ok((p, j)) => {
            let j2: usize;
            if j < t.len() && is_close_brace(&t[j]) {
                proof {
                    assert(s[j as int] == t@[j as int]@);
                }
                j2 = j;
            } else if j < t.len() && is_comma(&t[j]) {
                proof {
                    assert(s[j as int] == t@[j as int]@);
                }
                j2 = j + 1;
            } else {
                proof {
                    assert(j < t@.len() ==> s[j as int] == t@[j as int]@);
                }
                return Err(Diag { pos: j, kind: ErrorKind::Grammar });
            }
            let mut acc2 = acc;
            acc2.push(p);
            proof {
                assert(rpv(acc2@) =~= acc0.push(p@));
                assert(nxt(s, i as int, j2 as int) == j2 as int);
            }
            p_param_list(t, j2, acc2)
        },
    }
}

/// The string-literal list inside the brackets of a `shortcuts` entry, up
/// to and through the closing bracket.
pub open spec fn sp_strlist(t: Seq<TokV>, i: int, acc: Seq<Seq<u8>>) -> Result<
    (Seq<Seq<u8>>, int),
    DiagV,
>
    decreases t.len() - i,
        when 0 <= i <= t.len()
{
    if i >= t.len() {
        Err(gram(i))
    } else if t[i] == TokV::CloseBracket {
        Ok((acc, i + 1))
    } else {
        match sp_str(t, i) {
            Err(e) => Err(e),
            Ok((v, j)) => match sp_list_sep(t, j, TokV::CloseBracket) {
                Err(e) => Err(e),
                Ok(j2) => sp_strlist(t, nxt(t, i, j2), acc.push(v)),
            },
        }
    }
}

/// The view of a sequence of byte vectors.
pub open spec fn bv(v: Seq<Vec<u8>>) -> Seq<Seq<u8>> {
    v.map_values(|s: Vec<u8>| s@)
}

/// The string-literal list inside the brackets of a `shortcuts` entry.
pub fn p_strlist(t: &Vec<Tok>, i: usize, acc: Vec<Vec<u8>>) -> (r: Result<
    (Vec<Vec<u8>>, usize),
    Diag,
>)
    requires
        i <= t@.len(),
    ensures
        match r {
            Ok((v, j)) => i < j <= t@.len() && sp_strlist(tv(t@), i as int, bv(acc@)) == Ok::<
                (Seq<Seq<u8>>, int),
                DiagV,
            >((bv(v@), j as int)),
            Err(e) => sp_strlist(tv(t@), i as int, bv(acc@)) == Err::<(Seq<Seq<u8>>, int), DiagV>(
                e@,
            ),
        },
    decreases t@.len() - i,
{
    let ghost s = tv(t@);
    let ghost acc0 = bv(acc@);
    if i >= t.len() {
        return Err(Diag { pos: i, kind: ErrorKind::Grammar });
    }
    proof {
        assert(s[i as int] == t@[i as int]@);
    }
    if is_close_bracket(&t[i]) {
        return Ok((acc, i + 1));
    }
    let v = match &t[i] {
        Tok::StrLit(x) => bytes_clone(x),
        _ => {
            return Err(Diag { pos: i, kind: ErrorKind::Grammar });
        },
    };
    let j = i + 1;
    let j2: usize;
    if j < t.len() && is_close_bracket(&t[j]) {
        proof {
            assert(s[j as int] == t@[j as int]@);
        }
        j2 = j;
    } else if j < t.len() && is_comma(&t[j]) {
        proof {
            assert(s[j as int] == t@[j as int]@);
        }
        j2 = j + 1;
    } else {
        proof {
            assert(j < t@.len() ==> s[j as int] == t@[j as int]@);
        }
        return Err(Diag { pos: j, kind: ErrorKind::Grammar });
    }
    let mut acc2 = acc;
    acc2.push(v);
    proof {
        assert(bv(acc2@) =~= acc0.push(v@));
        assert(nxt(s, i as int, j2 as int) == j2 as int);
    }
    p_strlist(t, j2, acc2)
}

/// The prefix annotation that a `params` entry must carry: exactly one
/// plain annotation `prefix = "..."`.
pub open spec fn sp_prefix_attr(attrs: Seq<AttrV>, key_pos: int) -> Result<Seq<u8>, DiagV> {
    if attrs.len() != 1 {
        Err(conflict(key_pos))
    } else {
        let a = attrs[0];
        if a.inner {
            Err(conflict(a.pos))
        } else if a.name != txt("prefix") {
            Err(conflict(a.pos))
        } else {
            match a.arg {
                ArgV::LitArg(l) => match l {
                    LitV::Str(s) => Ok(s),
                    _ => Err(conflict(a.pos)),
                },
                _ => Err(conflict(a.pos)),
            }
        }
    }
}

/// The prefix annotation that a `params` entry must carry.
pub fn p_prefix_attr(attrs: &Vec<Attr>, key_pos: usize) -> (r: Result<Vec<u8>, Diag>)
    ensures
        match r {
            Ok(v) => sp_prefix_attr(av(attrs@), key_pos as int) == Ok::<Seq<u8>, DiagV>(v@),
            Err(e) => sp_prefix_attr(av(attrs@), key_pos as int) == Err::<Seq<u8>, DiagV>(e@),
        },
{
    if attrs.len() != 1 {
        return Err(Diag { pos: key_pos, kind: ErrorKind::AnnotationConflict });
    }
    let a = &attrs[0];
    proof {
        assert(av(attrs@)[0] == attrs@[0]@);
    }
    if a.inner {
        return Err(Diag { pos: a.pos, kind: ErrorKind::AnnotationConflict });
    }
    if !bytes_eq(&a.name, "prefix".as_bytes()) {
        return Err(Diag { pos: a.pos, kind: ErrorKind::AnnotationConflict });
    }
    match &a.arg {
        Arg::LitArg(l) => match l {
            Literal::Str(s) => Ok(bytes_clone(s)),
            _ => Err(Diag { pos: a.pos, kind: ErrorKind::AnnotationConflict }),
        },
        _ => Err(Diag { pos: a.pos, kind: ErrorKind::AnnotationConflict }),
    }
}

/// One module-body entry, after its annotations were read: the key, its
/// value, and its trailing separator. The `type` entry always takes a
/// trailing comma; any other entry takes one only when more entries follow.
/// Only `params` accepts an annotation (its prefix); `submodules` is
/// refused inside a submodule body.
pub open spec fn sp_entry(
    t: Seq<TokV>,
    i: int,
    st: RawModuleV,
    attrs: Seq<AttrV>,
    allow_subs: bool,
    eb: bool,
) -> Result<(RawModuleV, int), DiagV>
    decreases t.len() - i, 0int,
        when 0 <= i <= t.len()
{
    match sp_ident(t, i) {
        Err(e) => Err(e),
        Ok((key, j)) => if key == txt("type") {
            if attrs.len() > 0 {
                Err(conflict(attrs[0].pos))
            } else {
                match sp_punct(t, j, TokV::Colon) {
                    Err(e) => Err(e),
                    Ok(j1) => match sp_ident(t, j1) {
                        Err(e) => Err(e),
                        Ok((kind, j2)) => match sp_punct(t, j2, TokV::OpenParen) {
                            Err(e) => Err(e),
                            Ok(j3) => match sp_ident(t, j3) {
                                Err(e) => Err(e),
                                Ok((loader, j4)) => match sp_punct(t, j4, TokV::CloseParen) {
                                    Err(e) => Err(e),
                                    Ok(j5) => match sp_punct(t, j5, TokV::Comma) {
                                        Err(e) => Err(e),
                                        Ok(j6) => Ok(
                                            (
                                                RawModuleV {
                                                    primary: RawBodyV {
                                                        kind: Some(kind),
                                                        loader: Some(loader),
                                                        ..st.primary
                                                    },
                                                    ..st
                                                },
                                                j6,
                                            ),
                                        ),
                                    },
                                },
                            },
                        },
                    },
                }
            }
        } else if key == txt("capability") {
            if attrs.len() > 0 {
                Err(conflict(attrs[0].pos))
            } else {
                match sp_punct(t, j, TokV::Colon) {
                    Err(e) => Err(e),
                    Ok(j1) => match sp_str(t, j1) {
                        Err(e) => Err(e),
                        Ok((cap, j2)) => match sp_punct(t, j2, TokV::At) {
                            Err(e) => Err(e),
                            Ok(j3) => match sp_score(t, j3) {
                                Err(e) => Err(e),
                                Ok((v, j3b)) => match sp_sep(t, j3b, eb) {
                                    Err(e) => Err(e),
                                    Ok(j4) => Ok(
                                        (
                                            RawModuleV {
                                                primary: RawBodyV {
                                                    capability: Some(
                                                        RawCapV { name: cap, score: v, pos: j3 },
                                                    ),
                                                    ..st.primary
                                                },
                                                ..st
                                            },
                                            j4,
                                        ),
                                    ),
                                },
                            },
                        },
                    },
                }
            }
        } else if key == txt("category") {
            if attrs.len() > 0 {
                Err(conflict(attrs[0].pos))
            } else {
                match sp_punct(t, j, TokV::Colon) {
                    Err(e) => Err(e),
                    Ok(j1) => match sp_ident(t, j1) {
                        Err(e) => Err(e),
                        Ok((v, j2)) => match sp_sep(t, j2, eb) {
                            Err(e) => Err(e),
                            Ok(j3) => Ok(
                                (
                                    RawModuleV {
                                        primary: RawBodyV { category: Some(v), ..st.primary },
                                        ..st
                                    },
                                    j3,
                                ),
                            ),
                        },
                    },
                }
            }
        } else if key == txt("description") || key == txt("help") || key == txt("shortname") {
            if attrs.len() > 0 {
                Err(conflict(attrs[0].pos))
            } else {
                match sp_punct(t, j, TokV::Colon) {
                    Err(e) => Err(e),
                    Ok(j1) => match sp_str(t, j1) {
                        Err(e) => Err(e),
                        Ok((v, j2)) => match sp_sep(t, j2, eb) {
                            Err(e) => Err(e),
                            Ok(j3) => if key == txt("description") {
                                Ok(
                                    (
                                        RawModuleV {
                                            primary: RawBodyV {
                                                description: Some(v),
                                                ..st.primary
                                            },
                                            ..st
                                        },
                                        j3,
                                    ),
                                )
                            } else if key == txt("help") {
                                Ok(
                                    (
                                        RawModuleV {
                                            primary: RawBodyV { help: Some(v), ..st.primary },
                                            ..st
                                        },
                                        j3,
                                    ),
                                )
                            } else {
                                Ok(
                                    (
                                        RawModuleV {
                                            primary: RawBodyV { shortname: Some(v), ..st.primary },
                                            ..st
                                        },
                                        j3,
                                    ),
                                )
                            },
                        },
                    },
                }
            }
        } else if key == txt("shortcuts") {
            if attrs.len() > 0 {
                Err(conflict(attrs[0].pos))
            } else {
                match sp_punct(t, j, TokV::Colon) {
                    Err(e) => Err(e),
                    Ok(j1) => match sp_punct(t, j1, TokV::OpenBracket) {
                        Err(e) => Err(e),
                        Ok(j2) => match sp_strlist(t, nxt0(t, i, j2), Seq::empty()) {
                            Err(e) => Err(e),
                            Ok((ss, j3)) => match sp_sep(t, j3, eb) {
                                Err(e) => Err(e),
                                Ok(j4) => Ok(
                                    (
                                        RawModuleV {
                                            primary: RawBodyV { shortcuts: Some(ss), ..st.primary },
                                            ..st
                                        },
                                        j4,
                                    ),
                                ),
                            },
                        },
                    },
                }
            }
        } else if key == txt("params") {
            match sp_prefix_attr(attrs, i) {
                Err(e) => Err(e),
                Ok(pfx) => match sp_punct(t, j, TokV::Colon) {
                    Err(e) => Err(e),
                    Ok(j1) => match sp_punct(t, j1, TokV::OpenBrace) {
                        Err(e) => Err(e),
                        Ok(j2) => match sp_param_list(t, nxt0(t, i, j2), Seq::empty()) {
                            Err(e) => Err(e),
                            Ok((ps, j3)) => match sp_sep(t, j3, eb) {
                                Err(e) => Err(e),
                                Ok(j4) => Ok(
                                    (
                                        RawModuleV {
                                            primary: RawBodyV {
                                                prefix: Some(pfx),
                                                params: Some(ps),
                                                ..st.primary
                                            },
                                            ..st
                                        },
                                        j4,
                                    ),
                                ),
                            },
                        },
                    },
                },
            }
        } else if key == txt("submodules") {
            if attrs.len() > 0 {
                Err(conflict(attrs[0].pos))
            } else if !allow_subs {
                Err(DiagV { pos: i, kind: ErrKV::Nesting })
            } else {
                match sp_punct(t, j, TokV::Colon) {
                    Err(e) => Err(e),
                    Ok(j1) => match sp_punct(t, j1, TokV::OpenBracket) {
                        Err(e) => Err(e),
                        Ok(j2) => match sp_sub_list(t, nxt(t, i, j2), Seq::empty()) {
                            Err(e) => Err(e),
                            Ok((subs, j3)) => match sp_sep(t, j3, eb) {
                                Err(e) => Err(e),
                                Ok(j4) => Ok(
                                    (RawModuleV { submodules: Some(subs), ..st }, j4),
                                ),
                            },
                        },
                    },
                }
            }
        } else {
            Err(DiagV { pos: i, kind: ErrKV::UnknownKey(key) })
        },
    }
}

/// The entries of a module body, from the current position to the body's
/// end, folding each entry into the state. The end position is recorded in
/// the body for diagnostics raised later.
pub open spec fn sp_entries(
    t: Seq<TokV>,
    i: int,
    st: RawModuleV,
    allow_subs: bool,
    eb: bool,
) -> Result<(RawModuleV, int), DiagV>
    decreases t.len() - i, 1int,
        when 0 <= i <= t.len()
{
    if at_end(t, i, eb) {
        Ok((RawModuleV { primary: RawBodyV { end_pos: i, ..st.primary }, ..st }, i))
    } else {
        match sp_attrs(t, i, Seq::empty()) {
            Err(e) => Err(e),
            Ok((attrs, j)) => match sp_entry(t, nxt0(t, i, j), st, attrs, allow_subs, eb) {
                Err(e) => Err(e),
                Ok((st2, k)) => sp_entries(t, nxt(t, i, k), st2, allow_subs, eb),
            },
        }
    }
}

/// The bracketed submodule list: each element is a braced module body,
/// parsed with submodule declarations refused; elements are
/// comma-separated. Consumes the closing bracket.
pub open spec fn sp_sub_list(t: Seq<TokV>, i: int, acc: Seq<RawBodyV>) -> Result<
    (Seq<RawBodyV>, int),
    DiagV,
>
    decreases t.len() - i, 0int,
        when 0 <= i <= t.len()
{
    if i >= t.len() {
        Err(gram(i))
    } else if t[i] == TokV::CloseBracket {
        Ok((acc, i + 1))
    } else if t[i] != TokV::OpenBrace {
        Err(gram(i))
    } else {
        match sp_entries(t, i + 1, empty_module(), false, true) {
            Err(e) => Err(e),
            Ok((m, j)) => match sp_punct(t, j, TokV::CloseBrace) {
                Err(e) => Err(e),
                Ok(j1) => match sp_list_sep(t, j1, TokV::CloseBracket) {
                    Err(e) => Err(e),
                    Ok(j2) => sp_sub_list(t, nxt(t, i, j2), acc.push(m.primary)),
                },
            },
        }
    }
}

/// A whole module description: its entries from the first token to the end
/// of the stream.
pub open spec fn sp_module(t: Seq<TokV>) -> Result<RawModuleV, DiagV> {
    match sp_entries(t, 0, empty_module(), true, false) {
        Err(e) => Err(e),
        Ok((m, i)) => Ok(m),
    }
}

/// The separator after a module-body entry.
pub fn p_sep(t: &Vec<Tok>, i: usize, eb: bool) -> (r: Result<usize, Diag>)
    requires
        i <= t@.len(),
    ensures
        match r {
            Ok(j) => i <= j <= t@.len() && sp_sep(tv(t@), i as int, eb) == Ok::<int, DiagV>(
                j as int,
            ),
            Err(e) => sp_sep(tv(t@), i as int, eb) == Err::<int, DiagV>(e@),
        },
{
    let ghost s = tv(t@);
    proof {
        assert(i < t@.len() ==> s[i as int] == t@[i as int]@);
    }
    if i >= t.len() || (eb && is_close_brace(&t[i])) {
        Ok(i)
    } else if is_comma(&t[i]) {
        Ok(i + 1)
    } else {
        Err(Diag { pos: i, kind: ErrorKind::Grammar })
    }
}

/// One module-body entry, after its annotations were read.
pub fn p_entry(
    t: &Vec<Tok>,
    i: usize,
    st: RawModule,
    attrs: &Vec<Attr>,
    allow_subs: bool,
    eb: bool,
) -> (r: Result<(RawModule, usize), Diag>)
    requires
        i <= t@.len(),
    ensures
        match r {
            Ok((v, k)) => i < k <= t@.len() && sp_entry(
                tv(t@),
                i as int,
                st@,
                av(attrs@),
                allow_subs,
                eb,
            ) == Ok::<(RawModuleV, int), DiagV>((v@, k as int)),
            Err(e) => sp_entry(tv(t@), i as int, st@, av(attrs@), allow_subs, eb) == Err::<
                (RawModuleV, int),
                DiagV,
            >(e@),
        },
    decreases t@.len() - i, 0int,
{
    let ghost s = tv(t@);
    let ghost st0 = st@;
    if i >= t.len() {
        return Err(Diag { pos: i, kind: ErrorKind::Grammar });
    }
    proof {
        assert(s[i as int] == t@[i as int]@);
        assert(attrs@.len() > 0 ==> av(attrs@)[0] == attrs@[0]@);
    }
    let key = match &t[i] {
        Tok::Ident(n) => n,
        _ => {
            return Err(Diag { pos: i, kind: ErrorKind::Grammar });
        },
    };
    let j = i + 1;
    if bytes_eq(key, "type".as_bytes()) {
        if attrs.len() > 0 {
            return Err(Diag { pos: attrs[0].pos, kind: ErrorKind::AnnotationConflict });
        }
        if !(j < t.len() && is_colon(&t[j])) {
            proof {
                assert(j < t@.len() ==> s[j as int] == t@[j as int]@);
            }
            return Err(Diag { pos: j, kind: ErrorKind::Grammar });
        }
        proof {
            assert(s[j as int] == t@[j as int]@);
        }
        let j1 = j + 1;
        if j1 >= t.len() {
            return Err(Diag { pos: j1, kind: ErrorKind::Grammar });
        }
        proof {
            assert(s[j1 as int] == t@[j1 as int]@);
        }
        let kind = match &t[j1] {
            Tok::Ident(n) => bytes_clone(n),
            _ => {
                return Err(Diag { pos: j1, kind: ErrorKind::Grammar });
            },
        };
        let j2 = j1 + 1;
        if !(j2 < t.len() && is_open_paren(&t[j2])) {
            proof {
                assert(j2 < t@.len() ==> s[j2 as int] == t@[j2 as int]@);
            }
            return Err(Diag { pos: j2, kind: ErrorKind::Grammar });
        }
        proof {
            assert(s[j2 as int] == t@[j2 as int]@);
        }
        let j3 = j2 + 1;
        if j3 >= t.len() {
            return Err(Diag { pos: j3, kind: ErrorKind::Grammar });
        }
        proof {
            assert(s[j3 as int] == t@[j3 as int]@);
        }
        let loader = match &t[j3] {
            Tok::Ident(n) => bytes_clone(n),
            _ => {
                return Err(Diag { pos: j3, kind: ErrorKind::Grammar });
            },
        };
        let j4 = j3 + 1;
        if !(j4 < t.len() && is_close_paren(&t[j4])) {
            proof {
                assert(j4 < t@.len() ==> s[j4 as int] == t@[j4 as int]@);
            }
            return Err(Diag { pos: j4, kind: ErrorKind::Grammar });
        }
        proof {
            assert(s[j4 as int] == t@[j4 as int]@);
        }
        let j5 = j4 + 1;
        if !(j5 < t.len() && is_comma(&t[j5])) {
            proof {
                assert(j5 < t@.len() ==> s[j5 as int] == t@[j5 as int]@);
            }
            return Err(Diag { pos: j5, kind: ErrorKind::Grammar });
        }
        proof {
            assert(s[j5 as int] == t@[j5 as int]@);
        }
        let mut st2 = st;
        st2.primary.kind = Some(kind);
        st2.primary.loader = Some(loader);
        Ok((st2, j5 + 1))
    } else if bytes_eq(key, "capability".as_bytes()) {
        if attrs.len() > 0 {
            return Err(Diag { pos: attrs[0].pos, kind: ErrorKind::AnnotationConflict });
        }
        if !(j < t.len() && is_colon(&t[j])) {
            proof {
                assert(j < t@.len() ==> s[j as int] == t@[j as int]@);
            }
            return Err(Diag { pos: j, kind: ErrorKind::Grammar });
        }
        proof {
            assert(s[j as int] == t@[j as int]@);
        }
        let j1 = j + 1;
        if j1 >= t.len() {
            return Err(Diag { pos: j1, kind: ErrorKind::Grammar });
        }
        proof {
            assert(s[j1 as int] == t@[j1 as int]@);
        }
        let cap = match &t[j1] {
            Tok::StrLit(x) => bytes_clone(x),
            _ => {
                return Err(Diag { pos: j1, kind: ErrorKind::Grammar });
            },
        };
        let j2 = j1 + 1;
        if !(j2 < t.len() && is_at(&t[j2])) {
            proof {
                assert(j2 < t@.len() ==> s[j2 as int] == t@[j2 as int]@);
            }
            return Err(Diag { pos: j2, kind: ErrorKind::Grammar });
        }
        proof {
            assert(s[j2 as int] == t@[j2 as int]@);
        }
        let j3 = j2 + 1;
        let (score, j3b) = match p_score(t, j3) {
            Err(e) => {
                return Err(e);
            },
            Ok(x) => x,
        };
        match p_sep(t, j3b, eb) {
            Err(e) => Err(e),
            Ok(j4) => {
                let mut st2 = st;
                st2.primary.capability = Some(RawCapability { name: cap, score, pos: j3 });
                Ok((st2, j4))
            },
        }
    } else if bytes_eq(key, "category".as_bytes()) {
        if attrs.len() > 0 {
            return Err(Diag { pos: attrs[0].pos, kind: ErrorKind::AnnotationConflict });
        }
        if !(j < t.len() && is_colon(&t[j])) {
            proof {
                assert(j < t@.len() ==> s[j as int] == t@[j as int]@);
            }
            return Err(Diag { pos: j, kind: ErrorKind::Grammar });
        }
        proof {
            assert(s[j as int] == t@[j as int]@);
        }
        let j1 = j + 1;
        if j1 >= t.len() {
            return Err(Diag { pos: j1, kind: ErrorKind::Grammar });
        }
        proof {
            assert(s[j1 as int] == t@[j1 as int]@);
        }
        let v = match &t[j1] {
            Tok::Ident(n) => bytes_clone(n),
            _ => {
                return Err(Diag { pos: j1, kind: ErrorKind::Grammar });
            },
        };
        match p_sep(t, j1 + 1, eb) {
            Err(e) => Err(e),
            Ok(j3) => {
                let mut st2 = st;
                st2.primary.category = Some(v);
                Ok((st2, j3))
            },
        }
    } else {
        let is_description = bytes_eq(key, "description".as_bytes());
        let is_help = bytes_eq(key, "help".as_bytes());
        let is_shortname = bytes_eq(key, "shortname".as_bytes());
        if is_description || is_help || is_shortname {
            if attrs.len() > 0 {
                return Err(Diag { pos: attrs[0].pos, kind: ErrorKind::AnnotationConflict });
            }
            if !(j < t.len() && is_colon(&t[j])) {
                proof {
                    assert(j < t@.len() ==> s[j as int] == t@[j as int]@);
                }
                return Err(Diag { pos: j, kind: ErrorKind::Grammar });
            }
            proof {
                assert(s[j as int] == t@[j as int]@);
            }
            let j1 = j + 1;
            if j1 >= t.len() {
                return Err(Diag { pos: j1, kind: ErrorKind::Grammar });
            }
            proof {
                assert(s[j1 as int] == t@[j1 as int]@);
            }
            let v = match &t[j1] {
                Tok::StrLit(x) => bytes_clone(x),
                _ => {
                    return Err(Diag { pos: j1, kind: ErrorKind::Grammar });
                },
            };
            match p_sep(t, j1 + 1, eb) {
                Err(e) => Err(e),
                Ok(j3) => {
                    let mut st2 = st;
                    if is_description {
                        st2.primary.description = Some(v);
                    } else if is_help {
                        st2.primary.help = Some(v);
                    } else {
                        st2.primary.shortname = Some(v);
                    }
                    Ok((st2, j3))
                },
            }
        } else if bytes_eq(key, "shortcuts".as_bytes()) {
            if attrs.len() > 0 {
                return Err(Diag { pos: attrs[0].pos, kind: ErrorKind::AnnotationConflict });
            }
            if !(j < t.len() && is_colon(&t[j])) {
                proof {
                    assert(j < t@.len() ==> s[j as int] == t@[j as int]@);
                }
                return Err(Diag { pos: j, kind: ErrorKind::Grammar });
            }
            proof {
                assert(s[j as int] == t@[j as int]@);
            }
            let j1 = j + 1;
            if !(j1 < t.len() && is_open_bracket(&t[j1])) {
                proof {
                    assert(j1 < t@.len() ==> s[j1 as int] == t@[j1 as int]@);
                }
                return Err(Diag { pos: j1, kind: ErrorKind::Grammar });
            }
            proof {
                assert(s[j1 as int] == t@[j1 as int]@);
            }
            let j2 = j1 + 1;
            let empty_list: Vec<Vec<u8>> = Vec::new();
            proof {
                assert(nxt0(s, i as int, j2 as int) == j2 as int);
                assert(bv(empty_list@) =~= Seq::<Seq<u8>>::empty());
            }
            match p_strlist(t, j2, empty_list) {
                Err(e) => Err(e),
                Ok((ss, j3)) => match p_sep(t, j3, eb) {
                    Err(e) => Err(e),
                    Ok(j4) => {
                        let mut st2 = st;
                        st2.primary.shortcuts = Some(ss);
                        Ok((st2, j4))
                    },
                },
            }
        } else if bytes_eq(key, "params".as_bytes()) {
            match p_prefix_attr(attrs, i) {
                Err(e) => Err(e),
                Ok(pfx) => {
                    if !(j < t.len() && is_colon(&t[j])) {
                        proof {
                            assert(j < t@.len() ==> s[j as int] == t@[j as int]@);
                        }
                        return Err(Diag { pos: j, kind: ErrorKind::Grammar });
                    }
                    proof {
                        assert(s[j as int] == t@[j as int]@);
                    }
                    let j1 = j + 1;
                    if !(j1 < t.len() && is_open_brace(&t[j1])) {
                        proof {
                            assert(j1 < t@.len() ==> s[j1 as int] == t@[j1 as int]@);
                        }
                        return Err(Diag { pos: j1, kind: ErrorKind::Grammar });
                    }
                    proof {
                        assert(s[j1 as int] == t@[j1 as int]@);
                    }
                    let j2 = j1 + 1;
                    let empty_params: Vec<RawParam> = Vec::new();
                    proof {
                        assert(nxt0(s, i as int, j2 as int) == j2 as int);
                        assert(rpv(empty_params@) =~= Seq::<RawParamV>::empty());
                    }
                    match p_param_list(t, j2, empty_params) {
                        Err(e) => Err(e),
                        Ok((ps, j3)) => match p_sep(t, j3, eb) {
                            Err(e) => Err(e),
                            Ok(j4) => {
                                let mut st2 = st;
                                st2.primary.prefix = Some(pfx);
                                st2.primary.params = Some(ps);
                                Ok((st2, j4))
                            },
                        },
                    }
                },
            }
        } else if bytes_eq(key, "submodules".as_bytes()) {
            if attrs.len() > 0 {
                return Err(Diag { pos: attrs[0].pos, kind: ErrorKind::AnnotationConflict });
            }
            if !allow_subs {
                return Err(Diag { pos: i, kind: ErrorKind::Nesting });
            }
            if !(j < t.len() && is_colon(&t[j])) {
                proof {
                    assert(j < t@.len() ==> s[j as int] == t@[j as int]@);
                }
                return Err(Diag { pos: j, kind: ErrorKind::Grammar });
            }
            proof {
                assert(s[j as int] == t@[j as int]@);
            }
            let j1 = j + 1;
            if !(j1 < t.len() && is_open_bracket(&t[j1])) {
                proof {
                    assert(j1 < t@.len() ==> s[j1 as int] == t@[j1 as int]@);
                }
                return Err(Diag { pos: j1, kind: ErrorKind::Grammar });
            }
            proof {
                assert(s[j1 as int] == t@[j1 as int]@);
            }
            let j2 = j1 + 1;
            let empty_subs: Vec<RawBody> = Vec::new();
            proof {
                assert(nxt(s, i as int, j2 as int) == j2 as int);
                assert(rbv(empty_subs@) =~= Seq::<RawBodyV>::empty());
            }
            match p_sub_list(t, j2, empty_subs) {
                Err(e) => Err(e),
                Ok((subs, j3)) => match p_sep(t, j3, eb) {
                    Err(e) => Err(e),
                    Ok(j4) => {
                        let mut st2 = st;
                        st2.submodules = Some(subs);
                        Ok((st2, j4))
                    },
                },
            }
        } else {
            Err(Diag { pos: i, kind: ErrorKind::UnknownKey(bytes_clone(key)) })
        }
    }
}

/// The entries of a module body, from the current position to its end.
pub fn p_entries(t: &Vec<Tok>, i: usize, st: RawModule, allow_subs: bool, eb: bool) -> (r: Result<
    (RawModule, usize),
    Diag,
>)
    requires
        i <= t@.len(),
    ensures
        match r {
            Ok((v, j)) => i <= j <= t@.len() && sp_entries(tv(t@), i as int, st@, allow_subs, eb)
                == Ok::<(RawModuleV, int), DiagV>((v@, j as int)),
            Err(e) => sp_entries(tv(t@), i as int, st@, allow_subs, eb) == Err::<
                (RawModuleV, int),
                DiagV,
            >(e@),
        },
    decreases t@.len() - i, 1int,
{
    let ghost s = tv(t@);
    proof {
        assert(i < t@.len() ==> s[i as int] == t@[i as int]@);
    }
    if i >= t.len() || (eb && is_close_brace(&t[i])) {
        let mut st2 = st;
        st2.primary.end_pos = i;
        return Ok((st2, i));
    }
    let empty_attrs: Vec<Attr> = Vec::new();
    proof {
        assert(av(empty_attrs@) =~= Seq::<AttrV>::empty());
    }
    match p_attrs(t, i, empty_attrs) {
        Err(e) => Err(e),
        Ok((attrs, j)) => {
            proof {
                assert(nxt0(s, i as int, j as int) == j as int);
            }
            match p_entry(t, j, st, &attrs, allow_subs, eb) {
                Err(e) => Err(e),
                Ok((st2, k)) => {
                    proof {
                        assert(nxt(s, i as int, k as int) == k as int);
                    }
                    p_entries(t, k, st2, allow_subs, eb)
                },
            }
        },
    }
}

/// The view of a sequence of raw bodies.
pub open spec fn rbv(v: Seq<RawBody>) -> Seq<RawBodyV> {
    v.map_values(|b: RawBody| b@)
}

/// The bracketed submodule list.
pub fn p_sub_list(t: &Vec<Tok>, i: usize, acc: Vec<RawBody>) -> (r: Result<
    (Vec<RawBody>, usize),
    Diag,
>)
    requires
        i <= t@.len(),
    ensures
        match r {
            Ok((v, j)) => i < j <= t@.len() && sp_sub_list(tv(t@), i as int, rbv(acc@)) == Ok::<
                (Seq<RawBodyV>, int),
                DiagV,
            >((rbv(v@), j as int)),
            Err(e) => sp_sub_list(tv(t@), i as int, rbv(acc@)) == Err::<
                (Seq<RawBodyV>, int),
                DiagV,
            >(e@),
        },
    decreases t@.len() - i, 0int,
{
    let ghost s = tv(t@);
    let ghost acc0 = rbv(acc@);
    if i >= t.len() {
        return Err(Diag { pos: i, kind: ErrorKind::Grammar });
    }
    proof {
        assert(s[i as int] == t@[i as int]@);
    }
    if is_close_bracket(&t[i]) {
        return Ok((acc, i + 1));
    }
    if !is_open_brace(&t[i]) {
        return Err(Diag { pos: i, kind: ErrorKind::Grammar });
    }
    match p_entries(t, i + 1, new_module(), false, true) {
        Err(e) => Err(e),
        Ok((m, j)) => {
            if !(j < t.len() && is_close_brace(&t[j])) {
                proof {
                    assert(j < t@.len() ==> s[j as int] == t@[j as int]@);
                }
                return Err(Diag { pos: j, kind: ErrorKind::Grammar });
            }
            proof {
                assert(s[j as int] == t@[j as int]@);
            }
            let j1 = j + 1;
            let j2: usize;
            if j1 < t.len() && is_close_bracket(&t[j1]) {
                proof {
                    assert(s[j1 as int] == t@[j1 as int]@);
                }
                j2 = j1;
            } else if j1 < t.len() && is_comma(&t[j1]) {
                proof {
                    assert(s[j1 as int] == t@[j1 as int]@);
                }
                j2 = j1 + 1;
            } else {
                proof {
                    assert(j1 < t@.len() ==> s[j1 as int] == t@[j1 as int]@);
                }
                return Err(Diag { pos: j1, kind: ErrorKind::Grammar });
            }
            let mut acc2 = acc;
            acc2.push(m.primary);
            proof {
                assert(rbv(acc2@) =~= acc0.push(m.primary@));
                assert(nxt(s, i as int, j2 as int) == j2 as int);
            }
            p_sub_list(t, j2, acc2)
        },
    }
}

/// A whole module description, parsed from its token stream. The result is
/// exactly `sp_module` of the stream's view: parsing is a pure function of
/// the input, so identical inputs always parse identically.
pub fn parse_module(t: &Vec<Tok>) -> (r: Result<RawModule, Diag>)
    ensures
        match r {
            Ok(m) => sp_module(tv(t@)) == Ok::<RawModuleV, DiagV>(m@),
            Err(e) => sp_module(tv(t@)) == Err::<RawModuleV, DiagV>(e@),
        },
{
    match p_entries(t, 0, new_module(), true, false) {
        Err(e) => Err(e),
        Ok((m, _)) => Ok(m),
    }
}

} // verus!
