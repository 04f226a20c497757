//! Declaration classification, function transpilation, pragma resolution,
//! and the driver that composes them over a whole source unit.

use vstd::prelude::*;
use crate::ast::{
    ContractPart, FunctionAttribute, FunctionDefinition, Param, ProjectConfig, SourceUnit,
    SourceUnitPart, Stmt, TranspileError, TypeExpr, VariableAttribute, VariableDefinition,
};
use crate::compact::{map_type_spec, sol_to_compact_type};
use crate::format::{Formatter, FmtState};
use crate::printer::{print_stmt, visit_statement};
use crate::strutil::{is_prefix_of, join_seqs, join_strings, str_eq, str_starts_with, trim_spec,
    trim_str};

verus! {

/// The view of an optional rendered string.
pub open spec fn opt_view(r: Option<String>) -> Option<Seq<char>> {
    match r {
        Some(s) => Some(s@),
        None => None,
    }
}

/// The view of a rendered-or-failed result.
pub open spec fn res_view(r: Result<String, TranspileError>) -> Result<Seq<char>, TranspileError> {
    match r {
        Ok(s) => Ok(s@),
        Err(e) => Err(e),
    }
}

/// The view of a fragments-or-failed result.
pub open spec fn res_frags_view(r: Result<Vec<String>, TranspileError>) -> Result<
    Seq<Seq<char>>,
    TranspileError,
> {
    match r {
        Ok(v) => Ok(v.deep_view()),
        Err(e) => Err(e),
    }
}

/// A variable attribute that marks the declaration as exported: the
/// visibility spelling `public`, and only that one.
pub open spec fn is_public_var_attr(a: VariableAttribute) -> bool {
    a matches VariableAttribute::Visibility(v) && v@ == "public"@
}

/// A function attribute that marks the declaration as exported.
pub open spec fn is_public_fn_attr(a: FunctionAttribute) -> bool {
    a matches FunctionAttribute::Visibility(v) && v@ == "public"@
}

/// Some attribute marks the variable as exported.
pub open spec fn var_is_public(attrs: Seq<VariableAttribute>) -> bool {
    exists|i: int| 0 <= i < attrs.len() && is_public_var_attr(#[trigger] attrs[i])
}

/// Some attribute marks the function as exported.
pub open spec fn fn_is_public(attrs: Seq<FunctionAttribute>) -> bool {
    exists|i: int| 0 <= i < attrs.len() && is_public_fn_attr(#[trigger] attrs[i])
}

/// The rendered declaration line: at top level a persistent `ledger` entry
/// (with `export ` when the declaration is public), elsewhere a `let`
/// binding whose visibility is ignored.
pub open spec fn classified_line(
    name: Seq<char>,
    ty: Seq<char>,
    top_level: bool,
    exported: bool,
) -> Seq<char> {
    if top_level {
        (if exported {
            "export "@
        } else {
            Seq::<char>::empty()
        }) + "ledger "@ + name + ": "@ + ty + ";\n"@
    } else {
        "let "@ + name + ": "@ + ty + ";\n"@
    }
}

/// What the declaration classifier produces: an unnamed variable is
/// malformed input, a non-identifier type an unsupported construct, and
/// otherwise the line `classified_line` gives; the type text is copied
/// through verbatim, not mapped.
pub open spec fn classify_spec(v: VariableDefinition, top_level: bool) -> Result<
    Seq<char>,
    TranspileError,
> {
    match v.name {
        None => Err(TranspileError::MalformedInput),
        Some(name) => match v.ty {
            TypeExpr::Ident(ty) => Ok(
                classified_line(name@, ty@, top_level, var_is_public(v.attrs@)),
            ),
            _ => Err(TranspileError::UnsupportedConstruct),
        },
    }
}

/// One rendered parameter, `name: MappedType`: an unnamed parameter is
/// malformed input, a non-primitive type an unsupported construct, and an
/// unrecognized primitive spelling an unmappable type.
pub open spec fn param_spec(p: Param) -> Result<Seq<char>, TranspileError> {
    match p.name {
        None => Err(TranspileError::MalformedInput),
        Some(name) => match p.ty {
            TypeExpr::Primitive(t) => match map_type_spec(t@) {
                Some(m) => Ok(name@ + ": "@ + m),
                None => Err(TranspileError::UnmappableType),
            },
            _ => Err(TranspileError::UnsupportedConstruct),
        },
    }
}

/// All parameters rendered in order; the first failure wins.
pub open spec fn params_spec(ps: Seq<Param>) -> Result<Seq<Seq<char>>, TranspileError>
    decreases ps.len(),
{
    if ps.len() == 0 {
        Ok(Seq::empty())
    } else {
        match params_spec(ps.drop_last()) {
            Err(e) => Err(e),
            Ok(rest) => match param_spec(ps.last()) {
                Err(e) => Err(e),
                Ok(p) => Ok(rest.push(p)),
            },
        }
    }
}

/// One rendered return type: an unnamed return binding and a non-primitive
/// type are unsupported constructs, and an unrecognized primitive spelling
/// an unmappable type.
pub open spec fn ret_spec(p: Param) -> Result<Seq<char>, TranspileError> {
    match p.name {
        None => Err(TranspileError::UnsupportedConstruct),
        Some(_) => match p.ty {
            TypeExpr::Primitive(t) => match map_type_spec(t@) {
                Some(m) => Ok(m),
                None => Err(TranspileError::UnmappableType),
            },
            _ => Err(TranspileError::UnsupportedConstruct),
        },
    }
}

/// All return types rendered in order; the first failure wins.
pub open spec fn rets_spec(rs: Seq<Param>) -> Result<Seq<Seq<char>>, TranspileError>
    decreases rs.len(),
{
    if rs.len() == 0 {
        Ok(Seq::empty())
    } else {
        match rets_spec(rs.drop_last()) {
            Err(e) => Err(e),
            Ok(rest) => match ret_spec(rs.last()) {
                Err(e) => Err(e),
                Ok(r) => Ok(rest.push(r)),
            },
        }
    }
}

/// The rendered return annotation: `[]` for no returns, the bare type for
/// one, and a bracketed comma-joined list for several.
pub open spec fn return_type_spec(rs: Seq<Param>) -> Result<Seq<char>, TranspileError> {
    if rs.len() == 0 {
        Ok("[]"@)
    } else {
        match rets_spec(rs) {
            Err(e) => Err(e),
            Ok(ts) => if ts.len() == 1 {
                Ok(ts[0])
            } else {
                Ok("["@ + join_seqs(ts, ", "@) + "]"@)
            },
        }
    }
}

/// The rendered function body: nothing when absent, otherwise one printer
/// descent from a fresh formatter.
pub open spec fn body_text(b: Option<Stmt>) -> Seq<char> {
    match b {
        None => Seq::empty(),
        Some(stmt) => print_stmt(stmt, FmtState { out: Seq::empty(), indent: 0 }).1,
    }
}

/// What the function transpiler produces: three output fragments — the
/// `circuit` signature line (with `export ` when the function is public),
/// the rendered body, and the closing brace line — or the first failure
/// among name, parameters, and returns.
pub open spec fn func_fragments(f: FunctionDefinition) -> Result<Seq<Seq<char>>, TranspileError> {
    match f.name {
        None => Err(TranspileError::MalformedInput),
        Some(name) => match params_spec(f.params@) {
            Err(e) => Err(e),
            Ok(ps) => match return_type_spec(f.returns@) {
                Err(e) => Err(e),
                Ok(ret) => Ok(
                    seq![
                        (if fn_is_public(f.attributes@) {
                            "export "@
                        } else {
                            Seq::<char>::empty()
                        }) + "circuit "@ + name@ + "("@ + join_seqs(ps, ", "@) + "): "@ + ret
                            + " {"@,
                        body_text(f.body),
                        "}\n"@,
                    ],
                ),
            },
        },
    }
}

/// `s` with every leading `/` removed.
pub open spec fn drop_slashes(s: Seq<char>) -> Seq<char>
    decreases s.len(),
{
    if s.len() > 0 && s[0] == '/' {
        drop_slashes(s.drop_first())
    } else {
        s
    }
}

/// A comment's text after stripping leading comment markers and surrounding
/// whitespace.
pub open spec fn stripped_comment(s: Seq<char>) -> Seq<char> {
    trim_spec(drop_slashes(s))
}

/// The directive a comment carries: its stripped text, when that text
/// starts with `language_version`.
pub open spec fn comment_directive(s: Seq<char>) -> Option<Seq<char>> {
    if is_prefix_of("language_version"@, stripped_comment(s)) {
        Some(stripped_comment(s))
    } else {
        None
    }
}

/// The first directive among the comments, in source order.
pub open spec fn first_directive(cs: Seq<Seq<char>>) -> Option<Seq<char>>
    decreases cs.len(),
{
    if cs.len() == 0 {
        None
    } else if comment_directive(cs.first()) is Some {
        comment_directive(cs.first())
    } else {
        first_directive(cs.drop_first())
    }
}

/// The pragma line for the output header: from the first in-source
/// directive when one exists, else synthesized from the configured default
/// version, else nothing. The directive text is trusted verbatim.
pub open spec fn pragma_spec(cs: Seq<Seq<char>>, cfg: Option<Seq<char>>) -> Option<Seq<char>> {
    match first_directive(cs) {
        Some(d) => Some("pragma "@ + d + ";\n"@),
        None => match cfg {
            Some(v) => Some("pragma language_version "@ + v + ";\n"@),
            None => None,
        },
    }
}

/// The configured default version, where a configuration was supplied.
pub open spec fn cfg_view(config: Option<&ProjectConfig>) -> Option<Seq<char>> {
    match config {
        Some(c) => Some(c.default_language_version@),
        None => None,
    }
}

/// The output fragments of one contract part: one declaration line for a
/// variable, three fragments for a function, nothing for anything else.
pub open spec fn part_fragments(p: ContractPart) -> Result<Seq<Seq<char>>, TranspileError> {
    match p {
        ContractPart::VariableDefinition(v) => match classify_spec(v, true) {
            Ok(s) => Ok(seq![s]),
            Err(e) => Err(e),
        },
        ContractPart::FunctionDefinition(f) => func_fragments(f),
        ContractPart::Other => Ok(Seq::empty()),
    }
}

/// The fragments of a contract body, in source order; the first failure
/// wins.
pub open spec fn parts_fragments(ps: Seq<ContractPart>) -> Result<Seq<Seq<char>>, TranspileError>
    decreases ps.len(),
{
    if ps.len() == 0 {
        Ok(Seq::empty())
    } else {
        match parts_fragments(ps.drop_last()) {
            Err(e) => Err(e),
            Ok(rest) => match part_fragments(ps.last()) {
                Err(e) => Err(e),
                Ok(fs) => Ok(rest + fs),
            },
        }
    }
}

/// The fragments of a whole source unit: for each contract definition an
/// import line followed by its body's fragments; other top-level items are
/// ignored.
pub open spec fn unit_fragments(parts: Seq<SourceUnitPart>) -> Result<
    Seq<Seq<char>>,
    TranspileError,
>
    decreases parts.len(),
{
    if parts.len() == 0 {
        Ok(Seq::empty())
    } else {
        match unit_fragments(parts.drop_last()) {
            Err(e) => Err(e),
            Ok(rest) => match parts.last() {
                SourceUnitPart::ContractDefinition(def) => match parts_fragments(def.parts@) {
                    Err(e) => Err(e),
                    Ok(fs) => Ok(rest + seq!["import CompactStandardLibrary;\n"@] + fs),
                },
                SourceUnitPart::Other => Ok(rest),
            },
        }
    }
}

/// The whole transpilation: the resolved pragma line (when any), then the
/// unit's fragments, joined with blank-line separation — or the first
/// failure among the contract parts.
pub open spec fn transpile_spec(
    unit: SourceUnit,
    comments: Seq<Seq<char>>,
    cfg: Option<Seq<char>>,
) -> Result<Seq<char>, TranspileError> {
    match unit_fragments(unit.parts@) {
        Err(e) => Err(e),
        Ok(fs) => {
            let head = match pragma_spec(comments, cfg) {
                Some(p) => seq![p],
                None => Seq::<Seq<char>>::empty(),
            };
            Ok(join_seqs(head + fs, seq!['\n']))
        },
    }
}

/// Whether any attribute is the visibility marker `public`.
pub fn variable_is_exported(attrs: &Vec<VariableAttribute>) -> (r: bool)
    ensures
        r == var_is_public(attrs@),
{
    let mut i: usize = 0;
    while i < attrs.len()
        invariant
            i <= attrs@.len(),
            forall|j: int| 0 <= j < i ==> !is_public_var_attr(#[trigger] attrs@[j]),
        decreases attrs@.len() - i,
    {
        match &attrs[i] {
            VariableAttribute::Visibility(v) => {
                if str_eq(v.as_str(), "public") {
                    return true;
                }
            },
            _ => {},
        }
        i += 1;
    }
    false
}

/// Whether any attribute is the visibility marker `public`.
pub fn function_is_exported(attrs: &Vec<FunctionAttribute>) -> (r: bool)
    ensures
        r == fn_is_public(attrs@),
{
    let mut i: usize = 0;
    while i < attrs.len()
        invariant
            i <= attrs@.len(),
            forall|j: int| 0 <= j < i ==> !is_public_fn_attr(#[trigger] attrs@[j]),
        decreases attrs@.len() - i,
    {
        match &attrs[i] {
            FunctionAttribute::Visibility(v) => {
                if str_eq(v.as_str(), "public") {
                    return true;
                }
            },
            _ => {},
        }
        i += 1;
    }
    false
}

/// Classifies one variable declaration, exactly as `classify_spec` states.
pub fn classify_variable(var_def: &VariableDefinition, top_level: bool) -> (r: Result<
    String,
    TranspileError,
>)
    ensures
        res_view(r) == classify_spec(*var_def, top_level),
{
    let name = match &var_def.name {
        None => {
            return Err(TranspileError::MalformedInput);
        },
        Some(n) => n,
    };
    let ty = match &var_def.ty {
        TypeExpr::Ident(t) => t,
        _ => {
            return Err(TranspileError::UnsupportedConstruct);
        },
    };
    let exported = variable_is_exported(&var_def.attrs);
    let mut out = String::new();
    if top_level {
        if exported {
            out.append("export ");
        }
        out.append("ledger ");
    } else {
        out.append("let ");
    }
    out.append(name.as_str());
    out.append(": ");
    out.append(ty.as_str());
    out.append(";\n");
    proof {
        assert(out@ =~= classified_line(name@, ty@, top_level, var_is_public(var_def.attrs@)));
    }
    Ok(out)
}

/// Renders one parameter, exactly as `param_spec` states.
pub fn param_to_text(p: &Param) -> (r: Result<String, TranspileError>)
    ensures
        res_view(r) == param_spec(*p),
{
    let name = match &p.name {
        None => {
            return Err(TranspileError::MalformedInput);
        },
        Some(n) => n,
    };
    let t = match &p.ty {
        TypeExpr::Primitive(t) => t,
        _ => {
            return Err(TranspileError::UnsupportedConstruct);
        },
    };
    match sol_to_compact_type(t.as_str()) {
        None => Err(TranspileError::UnmappableType),
        Some(m) => {
            let mut out = name.clone();
            out.append(": ");
            out.append(m.as_str());
            Ok(out)
        },
    }
}

/// Renders one return type, exactly as `ret_spec` states.
pub fn return_to_text(p: &Param) -> (r: Result<String, TranspileError>)
    ensures
        res_view(r) == ret_spec(*p),
{
    match &p.name {
        None => {
            return Err(TranspileError::UnsupportedConstruct);
        },
        Some(_) => {},
    }
    let t = match &p.ty {
        TypeExpr::Primitive(t) => t,
        _ => {
            return Err(TranspileError::UnsupportedConstruct);
        },
    };
    match sol_to_compact_type(t.as_str()) {
        None => Err(TranspileError::UnmappableType),
        Some(m) => Ok(m),
    }
}

/// A failed parameter prefix decides the whole list.
proof fn lemma_params_err(ps: Seq<Param>, k: int)
    requires
        0 <= k <= ps.len(),
        params_spec(ps.subrange(0, k)) is Err,
    ensures
        params_spec(ps) == params_spec(ps.subrange(0, k)),
    decreases ps.len(),
{
    if k < ps.len() {
        assert(ps.drop_last().subrange(0, k) =~= ps.subrange(0, k));
        lemma_params_err(ps.drop_last(), k);
    } else {
        assert(ps.subrange(0, k) =~= ps);
    }
}

/// A failed return prefix decides the whole list.
proof fn lemma_rets_err(rs: Seq<Param>, k: int)
    requires
        0 <= k <= rs.len(),
        rets_spec(rs.subrange(0, k)) is Err,
    ensures
        rets_spec(rs) == rets_spec(rs.subrange(0, k)),
    decreases rs.len(),
{
    if k < rs.len() {
        assert(rs.drop_last().subrange(0, k) =~= rs.subrange(0, k));
        lemma_rets_err(rs.drop_last(), k);
    } else {
        assert(rs.subrange(0, k) =~= rs);
    }
}

/// A failed contract-part prefix decides the whole body.
proof fn lemma_parts_err(ps: Seq<ContractPart>, k: int)
    requires
        0 <= k <= ps.len(),
        parts_fragments(ps.subrange(0, k)) is Err,
    ensures
        parts_fragments(ps) == parts_fragments(ps.subrange(0, k)),
    decreases ps.len(),
{
    if k < ps.len() {
        assert(ps.drop_last().subrange(0, k) =~= ps.subrange(0, k));
        lemma_parts_err(ps.drop_last(), k);
    } else {
        assert(ps.subrange(0, k) =~= ps);
    }
}

/// A failed top-level prefix decides the whole unit.
proof fn lemma_unit_err(ps: Seq<SourceUnitPart>, k: int)
    requires
        0 <= k <= ps.len(),
        unit_fragments(ps.subrange(0, k)) is Err,
    ensures
        unit_fragments(ps) == unit_fragments(ps.subrange(0, k)),
    decreases ps.len(),
{
    if k < ps.len() {
        assert(ps.drop_last().subrange(0, k) =~= ps.subrange(0, k));
        lemma_unit_err(ps.drop_last(), k);
    } else {
        assert(ps.subrange(0, k) =~= ps);
    }
}

/// Renders the return annotation, exactly as `return_type_spec` states.
pub fn return_type_text(rets: &Vec<Param>) -> (r: Result<String, TranspileError>)
    ensures
        res_view(r) == return_type_spec(rets@),
{
    if rets.len() == 0 {
        return Ok(String::from_str("[]"));
    }
    let mut types: Vec<String> = Vec::new();
    let mut i: usize = 0;
    proof {
        assert(types.deep_view() =~= Seq::<Seq<char>>::empty());
    }
    while i < rets.len()
        invariant
            i <= rets@.len(),
            rets_spec(rets@.subrange(0, i as int)) == Ok::<_, TranspileError>(
                types.deep_view(),
            ),
        decreases rets@.len() - i,
    {
        let ghost pre = rets@.subrange(0, i as int);
        let ghost cur = rets@.subrange(0, i + 1);
        proof {
            assert(cur.drop_last() =~= pre);
            assert(cur.last() == rets@[i as int]);
        }
        match return_to_text(&rets[i]) {
            Ok(t) => {
                types.push(t);
                proof {
                    assert(types.deep_view() =~= rets_spec(pre)->Ok_0.push(t@));
                }
            },
            Err(e) => {
                proof {
                    lemma_rets_err(rets@, i + 1);
                }
                return Err(e);
            },
        }
        i += 1;
    }
    proof {
        assert(rets@.subrange(0, rets@.len() as int) =~= rets@);
    }
    if types.len() == 1 {
        Ok(types[0].clone())
    } else {
        let joined = join_strings(&types, ", ");
        let mut out = String::from_str("[");
        out.append(joined.as_str());
        out.append("]");
        proof {
            assert(out@ =~= "["@ + join_seqs(types.deep_view(), ", "@) + "]"@);
        }
        Ok(out)
    }
}

/// Transpiles one function declaration to its three output fragments,
/// exactly as `func_fragments` states.
pub fn transpile_function(func_def: &FunctionDefinition) -> (r: Result<
    Vec<String>,
    TranspileError,
>)
    ensures
        res_frags_view(r) == func_fragments(*func_def),
{
    let name = match &func_def.name {
        Some(n) => n,
        None => {
            return Err(TranspileError::MalformedInput);
        },
    };
    let exported = function_is_exported(&func_def.attributes);
    let mut params: Vec<String> = Vec::new();
    let mut i: usize = 0;
    proof {
        assert(params.deep_view() =~= Seq::<Seq<char>>::empty());
    }
    while i < func_def.params.len()
        invariant
            i <= func_def.params@.len(),
            func_def.name == Some(*name),
            params_spec(func_def.params@.subrange(0, i as int)) == Ok::<_, TranspileError>(
                params.deep_view(),
            ),
        decreases func_def.params@.len() - i,
    {
        let ghost pre = func_def.params@.subrange(0, i as int);
        let ghost cur = func_def.params@.subrange(0, i + 1);
        proof {
            assert(cur.drop_last() =~= pre);
            assert(cur.last() == func_def.params@[i as int]);
        }
        match param_to_text(&func_def.params[i]) {
            Ok(t) => {
                params.push(t);
                proof {
                    assert(params.deep_view() =~= params_spec(pre)->Ok_0.push(t@));
                }
            },
            Err(e) => {
                proof {
                    assert(params_spec(cur) == Err::<Seq<Seq<char>>, TranspileError>(e));
                    lemma_params_err(func_def.params@, i + 1);
                    assert(params_spec(func_def.params@) == Err::<Seq<Seq<char>>, TranspileError>(
                        e,
                    ));
                }
                return Err(e);
            },
        }
        i += 1;
    }
    proof {
        assert(func_def.params@.subrange(0, func_def.params@.len() as int) =~= func_def.params@);
    }
    let ret_text = match return_type_text(&func_def.returns) {
        Ok(t) => t,
        Err(e) => {
            return Err(e);
        },
    };
    let func_body: String = match &func_def.body {
        Some(body) => {
            let mut formatter = Formatter::new();
            proof {
                assert(formatter@ == FmtState { out: Seq::<char>::empty(), indent: 0nat });
            }
            visit_statement(body, &mut formatter)
        },
        None => String::new(),
    };
    let joined_params = join_strings(&params, ", ");
    let mut signature = String::new();
    if exported {
        signature.append("export ");
    }
    signature.append("circuit ");
    signature.append(name.as_str());
    signature.append("(");
    signature.append(joined_params.as_str());
    signature.append("): ");
    signature.append(ret_text.as_str());
    signature.append(" {");
    let mut fragments: Vec<String> = Vec::new();
    fragments.push(signature);
    fragments.push(func_body);
    fragments.push(String::from_str("}\n"));
    proof {
        assert(fragments.deep_view() =~= func_fragments(*func_def)->Ok_0);
    }
    Ok(fragments)
}

/// Strips a comment's leading `/` markers and surrounding whitespace.
pub fn strip_comment_markers(s: &str) -> (r: String)
    ensures
        r@ == stripped_comment(s@),
{
    let n = s.unicode_len();
    let mut k: usize = 0;
    proof {
        assert(s@.subrange(0, n as int) =~= s@);
    }
    while k < n && s.get_char(k) == '/'
        invariant
            n == s@.len(),
            k <= n,
            drop_slashes(s@) == drop_slashes(s@.subrange(k as int, n as int)),
        decreases n - k,
    {
        proof {
            let t = s@.subrange(k as int, n as int);
            assert(t[0] == s@[k as int]);
            assert(t.drop_first() =~= s@.subrange(k + 1, n as int));
        }
        k = k + 1;
    }
    proof {
        let t = s@.subrange(k as int, n as int);
        if k < n {
            assert(t[0] == s@[k as int]);
        }
        assert(drop_slashes(t) == t);
    }
    let rest = s.substring_char(k, n);
    trim_str(rest)
}

/// Resolves the output's pragma line, exactly as `pragma_spec` states: the
/// first comment whose stripped text starts with `language_version` wins;
/// with no such comment the configured default version is used; with
/// neither, no pragma is emitted.
pub fn resolve_pragma(comments: &Vec<String>, config: Option<&ProjectConfig>) -> (r: Option<
    String,
>)
    ensures
        opt_view(r) == pragma_spec(comments.deep_view(), cfg_view(config)),
{
    let ghost cs = comments.deep_view();
    let mut i: usize = 0;
    proof {
        assert(cs.subrange(0, cs.len() as int) =~= cs);
    }
    while i < comments.len()
        invariant
            cs == comments.deep_view(),
            i <= cs.len(),
            first_directive(cs) == first_directive(cs.subrange(i as int, cs.len() as int)),
        decreases cs.len() - i,
    {
        let ghost suf = cs.subrange(i as int, cs.len() as int);
        proof {
            assert(suf.first() == cs[i as int]);
            assert(cs[i as int] == comments@[i as int]@);
            assert(suf.drop_first() =~= cs.subrange(i + 1, cs.len() as int));
        }
        let stripped = strip_comment_markers(comments[i].as_str());
        if str_starts_with(stripped.as_str(), "language_version") {
            let mut out = String::from_str("pragma ");
            out.append(stripped.as_str());
            out.append(";\n");
            return Some(out);
        }
        i += 1;
    }
    match config {
        Some(c) => {
            let mut out = String::from_str("pragma language_version ");
            out.append(c.default_language_version.as_str());
            out.append(";\n");
            Some(out)
        },
        None => None,
    }
}

/// Transpiles a whole source unit, exactly as `transpile_spec` states: the
/// pragma line first, then for each contract an import line and its
/// rendered declarations, blank-line separated — or the first failure.
pub fn transpile(unit: &SourceUnit, comments: &Vec<String>, config: Option<&ProjectConfig>) -> (r:
    Result<String, TranspileError>)
    ensures
        res_view(r) == transpile_spec(*unit, comments.deep_view(), cfg_view(config)),
{
    let ghost head = match pragma_spec(comments.deep_view(), cfg_view(config)) {
        Some(p) => seq![p],
        None => Seq::<Seq<char>>::empty(),
    };
    let mut fragments: Vec<String> = Vec::new();
    match resolve_pragma(comments, config) {
        Some(p) => {
            fragments.push(p);
        },
        None => {},
    }
    proof {
        assert(fragments.deep_view() =~= head);
    }
    let ghost tops = unit.parts@;
    let mut i: usize = 0;
    proof {
        assert(tops.subrange(0, 0) =~= Seq::<SourceUnitPart>::empty());
        assert(unit_fragments(tops.subrange(0, 0)) == Ok::<_, TranspileError>(
            Seq::<Seq<char>>::empty(),
        ));
        assert(head + Seq::<Seq<char>>::empty() =~= head);
    }
    while i < unit.parts.len()
        invariant
            tops == unit.parts@,
            i <= tops.len(),
            head == (match pragma_spec(comments.deep_view(), cfg_view(config)) {
                Some(p) => seq![p],
                None => Seq::<Seq<char>>::empty()
            }),
            unit_fragments(tops.subrange(0, i as int)) matches Ok(fs) && fragments.deep_view()
                == head + fs,
        decreases tops.len() - i,
    {
        let ghost pre = tops.subrange(0, i as int);
        let ghost cur = tops.subrange(0, i + 1);
        proof {
            assert(cur.drop_last() =~= pre);
            assert(cur.last() == tops[i as int]);
        }
        match &unit.parts[i] {
            SourceUnitPart::ContractDefinition(def) => {
                fragments.push(String::from_str("import CompactStandardLibrary;\n"));
                let ghost body = def.parts@;
                let ghost after_import = fragments.deep_view();
                proof {
                    reveal_strlit("import CompactStandardLibrary;\n");
                    assert(after_import =~= (head + unit_fragments(pre)->Ok_0).push(
                        "import CompactStandardLibrary;\n"@,
                    ));
                    assert(body.subrange(0, 0) =~= Seq::<ContractPart>::empty());
                    assert(after_import + Seq::<Seq<char>>::empty() =~= after_import);
                }
                let mut j: usize = 0;
                while j < def.parts.len()
                    invariant
                        body == def.parts@,
                        j <= body.len(),
                        tops == unit.parts@,
                        i < tops.len(),
                        tops[i as int] == SourceUnitPart::ContractDefinition(*def),
                        unit_fragments(tops.subrange(0, i as int)) is Ok,
                        parts_fragments(body.subrange(0, j as int)) matches Ok(fs)
                            && fragments.deep_view() == after_import + fs,
                    decreases body.len() - j,
                {
                    let ghost bpre = body.subrange(0, j as int);
                    let ghost bcur = body.subrange(0, j + 1);
                    proof {
                        assert(bcur.drop_last() =~= bpre);
                        assert(bcur.last() == body[j as int]);
                    }
                    match &def.parts[j] {
                        ContractPart::VariableDefinition(v) => {
                            match classify_variable(v, true) {
                                Ok(s) => {
                                    let ghost fd = fragments.deep_view();
                                    fragments.push(s);
                                    proof {
                                        assert(fragments.deep_view() =~= fd.push(s@));
                                        assert(parts_fragments(bcur) == Ok::<_, TranspileError>(
                                            parts_fragments(bpre)->Ok_0 + seq![s@],
                                        ));
                                        assert(fragments.deep_view() =~= after_import + (
                                        parts_fragments(bpre)->Ok_0 + seq![s@]));
                                    }
                                },
                                Err(e) => {
                                    proof {
                                        assert(parts_fragments(bcur) is Err);
                                        lemma_parts_err(body, j + 1);
                                        let upre = tops.subrange(0, i as int);
                                        let ucur = tops.subrange(0, i + 1);
                                        assert(ucur.drop_last() =~= upre);
                                        assert(ucur.last() == tops[i as int]);
                                        assert(unit_fragments(ucur) is Err);
                                        lemma_unit_err(tops, i + 1);
                                    }
                                    return Err(e);
                                },
                            }
                        },
                        ContractPart::FunctionDefinition(f) => {
                            match transpile_function(f) {
                                Ok(mut fs) => {
                                    let ghost fsv = fs.deep_view();
                                    let ghost fd = fragments.deep_view();
                                    fragments.append(&mut fs);
                                    proof {
                                        assert(fragments.deep_view() =~= fd + fsv);
                                        assert(parts_fragments(bcur) == Ok::<_, TranspileError>(
                                            parts_fragments(bpre)->Ok_0 + fsv,
                                        ));
                                        assert(fragments.deep_view() =~= after_import + (
                                        parts_fragments(bpre)->Ok_0 + fsv));
                                    }
                                },
                                Err(e) => {
                                    proof {
                                        assert(parts_fragments(bcur) is Err);
                                        lemma_parts_err(body, j + 1);
                                        let upre = tops.subrange(0, i as int);
                                        let ucur = tops.subrange(0, i + 1);
                                        assert(ucur.drop_last() =~= upre);
                                        assert(ucur.last() == tops[i as int]);
                                        assert(unit_fragments(ucur) is Err);
                                        lemma_unit_err(tops, i + 1);
                                    }
                                    return Err(e);
                                },
                            }
                        },
                        ContractPart::Other => {
                            proof {
                                assert(fragments.deep_view() =~= after_import + (parts_fragments(
                                    bpre,
                                )->Ok_0 + Seq::<Seq<char>>::empty()));
                            }
                        },
                    }
                    j += 1;
                }
                proof {
                    assert(body.subrange(0, body.len() as int) =~= body);
                    assert(fragments.deep_view() =~= head + (unit_fragments(pre)->Ok_0 + seq![
                        "import CompactStandardLibrary;\n"@,
                    ] + parts_fragments(body)->Ok_0));
                }
            },
            SourceUnitPart::Other => {
                proof {
                    assert(unit_fragments(cur) == unit_fragments(pre));
                }
            },
        }
        i += 1;
    }
    proof {
        assert(tops.subrange(0, tops.len() as int) =~= tops);
    }
    let out = join_strings(&fragments, "\n");
    proof {
        reveal_strlit("\n");
        assert("\n"@ =~= seq!['\n']);
    }
    Ok(out)
}

} // verus!
