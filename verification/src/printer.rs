//! The statement/expression printer: one recursive descent per function
//! body, threading a single formatter, exactly as `print_stmt` states.

use vstd::prelude::*;
use crate::ast::{Expr, Stmt};
use crate::format::{Formatter, FmtState, indent_spaces};
use crate::strutil::{join_seqs, join_strings, trim_end_spec, trim_end_str};

verus! {

/// The indent level after one `Formatter::indent` call: one more, saturating
/// at the machine limit.
pub open spec fn bump_indent(n: nat) -> nat {
    if n < usize::MAX as nat {
        n + 1
    } else {
        n
    }
}

/// The text an expression renders to: identifiers and number literals
/// verbatim, calls as `callee(arg, arg)`, member accesses as `object.member`,
/// and any unrecognized kind as nothing.
pub open spec fn render_expr(e: Expr) -> Seq<char>
    decreases e,
{
    match e {
        Expr::Variable(name) => name@,
        Expr::FunctionCall(callee, args) => render_expr(*callee) + "("@ + join_seqs(
            render_exprs(args@),
            ", "@,
        ) + ")"@,
        Expr::MemberAccess(obj, member) => render_expr(*obj) + "."@ + member@,
        Expr::NumberLiteral(digits) => digits@,
        Expr::Other => Seq::empty(),
    }
}

/// Each expression of `es` rendered, in order.
pub open spec fn render_exprs(es: Seq<Expr>) -> Seq<Seq<char>>
    decreases es,
{
    if es.len() == 0 {
        Seq::empty()
    } else {
        render_exprs(es.drop_last()).push(render_expr(es.last()))
    }
}

/// What printing one statement does: the formatter state after the visit
/// and the returned text. A block raises the indent (never lowering it
/// again), renders its statements joined by newlines with trailing
/// whitespace trimmed, and an empty block renders as nothing; an expression
/// statement emits one indented line into the buffer and returns the whole
/// buffer accumulated so far; any other kind renders as nothing.
pub open spec fn print_stmt(s: Stmt, f: FmtState) -> (FmtState, Seq<char>)
    decreases s,
{
    match s {
        Stmt::Block(stmts) => {
            let f1 = FmtState { out: f.out, indent: bump_indent(f.indent) };
            if stmts@.len() == 0 {
                (f1, Seq::empty())
            } else {
                let r = print_stmts(stmts@, f1);
                (r.0, trim_end_spec(join_seqs(r.1, seq!['\n'])))
            }
        },
        Stmt::Expression(e) => {
            let out2 = f.out + indent_spaces(f.indent) + render_expr(e) + ";"@ + seq!['\n'];
            (FmtState { out: out2, indent: f.indent }, out2)
        },
        Stmt::Other => (f, Seq::empty()),
    }
}

/// Prints the statements of `ss` in order, threading the formatter state,
/// and collects each statement's returned text.
pub open spec fn print_stmts(ss: Seq<Stmt>, f: FmtState) -> (FmtState, Seq<Seq<char>>)
    decreases ss,
{
    if ss.len() == 0 {
        (f, Seq::empty())
    } else {
        let r0 = print_stmt(ss.first(), f);
        let rest = print_stmts(ss.drop_first(), r0.0);
        (rest.0, seq![r0.1] + rest.1)
    }
}

/// Renders an expression tree to text, exactly as `render_expr` states.
/// The formatter is threaded through but not consulted.
pub fn visit_expression(expr: &Expr, formatter: &mut Formatter) -> (r: String)
    ensures
        r@ == render_expr(*expr),
        *final(formatter) == *old(formatter),
    decreases *expr,
{
    match expr {
        Expr::Variable(name) => name.clone(),
        Expr::FunctionCall(callee, args) => {
            let mut out = visit_expression(&**callee, formatter);
            let mut arg_strs: Vec<String> = Vec::new();
            let mut i: usize = 0;
            while i < args.len()
                invariant
                    i <= args@.len(),
                    arg_strs.deep_view() == render_exprs(args@.subrange(0, i as int)),
                    *formatter == *old(formatter),
                    out@ == render_expr(*(*expr)->FunctionCall_0),
                    *expr == Expr::FunctionCall(*callee, *args),
                decreases args@.len() - i,
            {
                proof {
                    assert((*expr)->FunctionCall_1 == *args);
                    assert(decreases_to!(*expr => (*expr)->FunctionCall_1));
                    assert(decreases_to!(*args => args@));
                    assert(decreases_to!(args@ => args@[i as int]));
                    assert(decreases_to!(*expr => args@[i as int]));
                }
                let s = visit_expression(&args[i], formatter);
                arg_strs.push(s);
                proof {
                    let pre = args@.subrange(0, i as int);
                    let cur = args@.subrange(0, i + 1);
                    assert(cur.drop_last() =~= pre);
                    assert(cur.last() == args@[i as int]);
                    assert(arg_strs.deep_view() =~= render_exprs(pre).push(s@));
                }
                i += 1;
            }
            proof {
                assert(args@.subrange(0, args@.len() as int) =~= args@);
            }
            let joined = join_strings(&arg_strs, ", ");
            out.append("(");
            out.append(joined.as_str());
            out.append(")");
            proof {
                assert(out@ =~= render_expr(*expr));
            }
            out
        },
        Expr::MemberAccess(obj, member) => {
            let mut out = visit_expression(&**obj, formatter);
            out.append(".");
            out.append(member.as_str());
            proof {
                assert(out@ =~= render_expr(*expr));
            }
            out
        },
        Expr::NumberLiteral(digits) => digits.clone(),
        Expr::Other => String::new(),
    }
}

/// Prints one statement through the formatter, exactly as `print_stmt`
/// states, and returns that statement's rendered text.
pub fn visit_statement(part: &Stmt, formatter: &mut Formatter) -> (r: String)
    ensures
        final(formatter)@ == print_stmt(*part, old(formatter)@).0,
        r@ == print_stmt(*part, old(formatter)@).1,
    decreases *part,
{
    match part {
        Stmt::Block(statements) => {
            formatter.indent();
            let ghost f1: FmtState = formatter@;
            if statements.len() == 0 {
                String::new()
            } else {
                let ghost whole = print_stmts(statements@, f1);
                let mut rendered: Vec<String> = Vec::new();
                let mut i: usize = 0;
                proof {
                    assert(statements@.subrange(0, statements@.len() as int) =~= statements@);
                    assert(rendered.deep_view() =~= Seq::<Seq<char>>::empty());
                    assert(rendered.deep_view() + whole.1 =~= whole.1);
                }
                while i < statements.len()
                    invariant
                        i <= statements@.len(),
                        *part == Stmt::Block(*statements),
                        whole == print_stmts(statements@, f1),
                        whole.0 == print_stmts(
                            statements@.subrange(i as int, statements@.len() as int),
                            formatter@,
                        ).0,
                        whole.1 == rendered.deep_view() + print_stmts(
                            statements@.subrange(i as int, statements@.len() as int),
                            formatter@,
                        ).1,
                    decreases statements@.len() - i,
                {
                    let ghost pre_state = formatter@;
                    let ghost suf = statements@.subrange(i as int, statements@.len() as int);
                    proof {
                        assert((*part)->Block_0 == *statements);
                        assert(decreases_to!(*part => (*part)->Block_0));
                        assert(decreases_to!(*statements => statements@));
                        assert(decreases_to!(statements@ => statements@[i as int]));
                        assert(decreases_to!(*part => statements@[i as int]));
                        assert(suf.first() == statements@[i as int]);
                    }
                    let s = visit_statement(&statements[i], formatter);
                    rendered.push(s);
                    proof {
                        let nsuf = statements@.subrange(i + 1, statements@.len() as int);
                        assert(suf.drop_first() =~= nsuf);
                        assert(print_stmts(suf, pre_state).0 == print_stmts(
                            nsuf,
                            formatter@,
                        ).0);
                        assert(print_stmts(suf, pre_state).1 == seq![s@] + print_stmts(
                            nsuf,
                            formatter@,
                        ).1);
                        assert(rendered.deep_view() =~= rendered.deep_view().subrange(
                            0,
                            rendered.deep_view().len() - 1,
                        ).push(s@));
                        assert(whole.1 =~= rendered.deep_view() + print_stmts(
                            nsuf,
                            formatter@,
                        ).1);
                    }
                    i += 1;
                }
                proof {
                    let empty_suf = statements@.subrange(
                        statements@.len() as int,
                        statements@.len() as int,
                    );
                    assert(empty_suf.len() == 0);
                    assert(whole.1 =~= rendered.deep_view());
                }
                let joined = join_strings(&rendered, "\n");
                proof {
                    reveal_strlit("\n");
                    assert("\n"@ =~= seq!['\n']);
                }
                trim_end_str(joined.as_str())
            }
        },
        Stmt::Expression(e) => {
            let result = visit_expression(e, formatter);
            let mut line_txt = result;
            line_txt.append(";");
            formatter.line(line_txt.as_str());
            let out = formatter.print();
            proof {
                assert(out@ =~= print_stmt(*part, old(formatter)@).1);
            }
            out
        },
        Stmt::Other => String::new(),
    }
}

} // verus!
