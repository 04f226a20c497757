//! Laws of the transpiler, stated over its spec functions and proved once
//! for all inputs.

use vstd::prelude::*;
use crate::ast::Stmt;
use crate::compact::{all_digits, map_type_spec, width_digits};
use crate::format::FmtState;
use crate::printer::print_stmt;
use crate::strutil::is_prefix_of;

verus! {

/// Law: every spelled width maps. For any non-empty digit string `d` —
/// in particular every numeral from `1` through `256` — the spelling
/// `uint` followed by `d` maps to `Uint<d>`, and `bytes` followed by `d`
/// maps to `Bytes<d>`.
pub proof fn lemma_type_mapper_widths(d: Seq<char>)
    requires
        d.len() > 0,
        all_digits(d),
    ensures
        map_type_spec("uint"@ + d) == Some("Uint<"@ + d + ">"@),
        map_type_spec("bytes"@ + d) == Some("Bytes<"@ + d + ">"@),
{
    reveal_strlit("uint");
    reveal_strlit("bytes");
    let u = "uint"@ + d;
    assert(u.subrange(0, 4) =~= "uint"@);
    assert(u.subrange(4, u.len() as int) =~= d);
    assert(is_prefix_of("uint"@, u));
    assert(width_digits(d) == d);
    let b = "bytes"@ + d;
    assert(b.subrange(0, 5) =~= "bytes"@);
    assert(b.subrange(5, b.len() as int) =~= d);
    assert(is_prefix_of("bytes"@, b));
    assert(!is_prefix_of("uint"@, b)) by {
        if is_prefix_of("uint"@, b) {
            assert(b.subrange(0, 4)[0] == b[0]);
        }
    }
}

/// Law: the default width is 256, and `bool` maps to `Boolean`. A bare
/// `uint` or `bytes` — no spelled digits — maps to the 256-bit descriptor.
pub proof fn lemma_type_mapper_defaults()
    ensures
        map_type_spec("uint"@) == Some("Uint<256>"@),
        map_type_spec("bytes"@) == Some("Bytes<256>"@),
        map_type_spec("bool"@) == Some("Boolean"@),
{
    reveal_strlit("uint");
    reveal_strlit("bytes");
    reveal_strlit("bool");
    reveal_strlit("256");
    reveal_strlit("Uint<");
    reveal_strlit("Bytes<");
    reveal_strlit(">");
    reveal_strlit("Uint<256>");
    reveal_strlit("Bytes<256>");
    let u = "uint"@;
    assert(u.subrange(0, 4) =~= u);
    assert(is_prefix_of("uint"@, u));
    assert(u.subrange(4, 4).len() == 0);
    assert("Uint<"@ + width_digits(u.subrange(4, 4)) + ">"@ =~= "Uint<256>"@);
    let b = "bytes"@;
    assert(b.subrange(0, 5) =~= b);
    assert(is_prefix_of("bytes"@, b));
    assert(b.subrange(5, 5).len() == 0);
    assert("Bytes<"@ + width_digits(b.subrange(5, 5)) + ">"@ =~= "Bytes<256>"@);
    assert(!is_prefix_of("uint"@, b)) by {
        if is_prefix_of("uint"@, b) {
            assert(b.subrange(0, 4)[0] == b[0]);
        }
    }
    let l = "bool"@;
    assert(!is_prefix_of("uint"@, l)) by {
        if is_prefix_of("uint"@, l) {
            assert(l.subrange(0, 4)[0] == l[0]);
        }
    }
    assert(!is_prefix_of("bytes"@, l));
}

/// Law: printing is deterministic in the statement and the starting
/// formatter state alone. Rendering the same statement twice, each time
/// from a fresh formatter — empty buffer, indent level zero — yields the
/// same returned text and the same final state: no hidden state leaks
/// across invocations.
pub proof fn lemma_printer_fresh_deterministic(s: Stmt, f1: FmtState, f2: FmtState)
    requires
        f1.out == Seq::<char>::empty(),
        f1.indent == 0,
        f2.out == Seq::<char>::empty(),
        f2.indent == 0,
    ensures
        print_stmt(s, f1) == print_stmt(s, f2),
{
    assert(f1 == f2);
}

} // verus!
