//! Properties of the library that hold of all inputs, proved once and for
//! all: resolution is idempotent, an uppercase-leading name always lexes to a
//! `Const` token, and an unterminated string literal consumes to the end of
//! the input without an error.

use vstd::prelude::*;
use crate::ast::{GAccess, GNode, GType};
use crate::lex_spec::{
    const_cont_pred, is_upper_char, run_len, scan_str_lit, spec_lex,
};
use crate::sem_spec::{
    has_dot, qualified_name, resolve_access_spec, resolve_expr_spec, resolve_exprs_spec,
    GEnv, GSemError,
};
use crate::token::GToken;

verus! {

/// A class-qualified name always contains a dot.
proof fn lemma_qualified_name_has_dot(c: Seq<char>, m: Seq<char>)
    ensures
        has_dot(qualified_name(c, m)),
{
    reveal_strlit(".");
    let q = qualified_name(c, m);
    assert(q[c.len() as int] == '.');
    assert(0 <= c.len() < q.len());
}

/// Resolving an already-resolved attribute access again, with the same
/// indices and local table, changes nothing: same slot, same type, no new
/// annotation.
pub proof fn lemma_resolve_access_idempotent(
    attrs: Map<Seq<char>, (i32, GType)>,
    lvars: Map<Seq<char>, Option<GType>>,
    a: GAccess,
)
    requires
        resolve_access_spec(attrs, lvars, a) is Ok,
    ensures
        ({
            let r = resolve_access_spec(attrs, lvars, a)->Ok_0;
            resolve_access_spec(attrs, lvars, r.0) == Ok::<(GAccess, GType), GSemError>(r)
        }),
{
}

/// Every expression in a sequence resolved from position `i` on resolves to
/// the matching element of the output, with some inferred type.
proof fn lemma_resolve_exprs_pointwise(
    env: GEnv,
    lvars: Map<Seq<char>, Option<GType>>,
    s: Seq<GNode>,
    i: int,
)
    requires
        0 <= i <= s.len(),
        resolve_exprs_spec(env, lvars, s, i) is Ok,
    ensures
        resolve_exprs_spec(env, lvars, s, i)->Ok_0.len() == s.len() - i,
        forall|k: int|
            0 <= k < s.len() - i ==> (#[trigger] resolve_expr_spec(env, lvars, s[i + k])) is Ok
                && resolve_exprs_spec(env, lvars, s, i)->Ok_0[k] == resolve_expr_spec(
                env,
                lvars,
                s[i + k],
            )->Ok_0.0,
    decreases s.len() - i,
{
    if i < s.len() {
        lemma_resolve_exprs_pointwise(env, lvars, s, i + 1);
        let n2 = resolve_expr_spec(env, lvars, s[i])->Ok_0;
        let rest = resolve_exprs_spec(env, lvars, s, i + 1)->Ok_0;
        let r = resolve_exprs_spec(env, lvars, s, i)->Ok_0;
        assert(r == seq![n2.0] + rest);
        assert forall|k: int| 0 <= k < r.len() implies (#[trigger] resolve_expr_spec(
            env,
            lvars,
            s[i + k],
        )) is Ok && r[k] == resolve_expr_spec(env, lvars, s[i + k])->Ok_0.0 by {
            if k == 0 {
                assert(r[0] == n2.0);
                assert(i + 0 == i);
            } else {
                assert(r[k] == rest[k - 1]);
                assert(rest[k - 1] == resolve_expr_spec(env, lvars, s[i + 1 + (k - 1)])->Ok_0.0);
                assert(i + 1 + (k - 1) == i + k);
            }
        }
        assert(r.len() == s.len() - i);
    } else {
        assert(resolve_exprs_spec(env, lvars, s, i) == Ok::<Seq<GNode>, GSemError>(
            Seq::empty(),
        ));
        let r = resolve_exprs_spec(env, lvars, s, i)->Ok_0;
        assert(r.len() == s.len() - i);
    }
}

/// A sequence whose every element resolves to itself resolves, from any
/// position, to its own remaining suffix.
proof fn lemma_resolve_exprs_fixed(
    env: GEnv,
    lvars: Map<Seq<char>, Option<GType>>,
    r: Seq<GNode>,
    j: int,
)
    requires
        0 <= j <= r.len(),
        forall|k: int|
            j <= k < r.len() ==> resolve_expr_spec(env, lvars, #[trigger] r[k]) is Ok
                && resolve_expr_spec(env, lvars, r[k])->Ok_0.0 == r[k],
    ensures
        resolve_exprs_spec(env, lvars, r, j) == Ok::<Seq<GNode>, GSemError>(
            r.subrange(j, r.len() as int),
        ),
    decreases r.len() - j,
{
    if j < r.len() {
        lemma_resolve_exprs_fixed(env, lvars, r, j + 1);
        assert(seq![r[j]] + r.subrange(j + 1, r.len() as int) =~= r.subrange(
            j,
            r.len() as int,
        ));
    } else {
        assert(r.subrange(j, r.len() as int) =~= Seq::<GNode>::empty());
    }
}

/// Resolving a sequence of already-resolved expressions again changes
/// nothing.
proof fn lemma_resolve_exprs_idempotent(
    env: GEnv,
    lvars: Map<Seq<char>, Option<GType>>,
    s: Seq<GNode>,
)
    requires
        resolve_exprs_spec(env, lvars, s, 0) is Ok,
    ensures
        ({
            let r = resolve_exprs_spec(env, lvars, s, 0)->Ok_0;
            resolve_exprs_spec(env, lvars, r, 0) == Ok::<Seq<GNode>, GSemError>(r)
        }),
    decreases s, 1int,
{
    let r = resolve_exprs_spec(env, lvars, s, 0)->Ok_0;
    lemma_resolve_exprs_pointwise(env, lvars, s, 0);
    assert forall|k: int| 0 <= k < r.len() implies resolve_expr_spec(
        env,
        lvars,
        #[trigger] r[k],
    ) is Ok && resolve_expr_spec(env, lvars, r[k])->Ok_0.0 == r[k] by {
        assert(0 + k == k);
        assert(resolve_expr_spec(env, lvars, s[0 + k]) is Ok);
        assert(r[k] == resolve_expr_spec(env, lvars, s[0 + k])->Ok_0.0);
        lemma_resolve_expr_idempotent(env, lvars, s[k]);
    }
    lemma_resolve_exprs_fixed(env, lvars, r, 0);
    assert(r.subrange(0, r.len() as int) =~= r);
}

/// Resolution is idempotent: resolving the node that a successful resolution
/// produced, with the same indices and local table, yields that node and
/// that type unchanged. In particular a `Send`'s message name, rewritten to
/// `"ClassName.method"` when the receiver's type became known, is never
/// rewritten again.
pub proof fn lemma_resolve_expr_idempotent(
    env: GEnv,
    lvars: Map<Seq<char>, Option<GType>>,
    n: GNode,
)
    requires
        resolve_expr_spec(env, lvars, n) is Ok,
    ensures
        ({
            let p = resolve_expr_spec(env, lvars, n)->Ok_0;
            resolve_expr_spec(env, lvars, p.0) == Ok::<(GNode, Option<GType>), GSemError>(p)
        }),
    decreases n, 0int,
{
    match n {
        GNode::Access(a) => {
            lemma_resolve_access_idempotent(env.attrs, lvars, a);
        },
        GNode::Binary { left, op, right } => {
            lemma_resolve_expr_idempotent(env, lvars, *left);
            lemma_resolve_expr_idempotent(env, lvars, *right);
        },
        GNode::Call { fn_name, args, return_type } => {
            lemma_resolve_exprs_idempotent_inline(env, lvars, args);
        },
        GNode::Send { receiver, message, return_type } => {
            match *message {
                GNode::Call { fn_name, args, return_type: m_rt } => {
                    if (*receiver) matches GNode::LocalVar { name, return_type: _ }
                        && !lvars.contains_key(name) && env.methods.contains_key(name) {
                        // the first-class-function annotation re-resolves to
                        // itself: the guard depends only on the tables
                    } else {
                        lemma_target_name_has_dot_all(fn_name);
                        lemma_resolve_exprs_idempotent_inline(env, lvars, args);
                        match *receiver {
                            GNode::Access(_) | GNode::Call { fn_name: _, args: _, return_type: _ }
                                | GNode::Send { receiver: _, message: _, return_type: _ }
                                | GNode::Binary { left: _, op: _, right: _ } => {
                                if resolve_expr_spec(env, lvars, *receiver) is Ok {
                                    lemma_resolve_expr_idempotent(env, lvars, *receiver);
                                }
                            },
                            _ => {},
                        }
                    }
                },
                _ => {},
            }
        },
        GNode::BuildStruct { name, args, return_type } => {
            lemma_resolve_exprs_idempotent_inline(env, lvars, args);
        },
        GNode::Array { items, length, item_type } => {
            lemma_resolve_exprs_idempotent_inline(env, lvars, items);
        },
        _ => {},
    }
}

/// Helper wrapper so that the mutual induction over a node's argument
/// sequence decreases through the node.
proof fn lemma_resolve_exprs_idempotent_inline(
    env: GEnv,
    lvars: Map<Seq<char>, Option<GType>>,
    s: Seq<GNode>,
)
    ensures
        resolve_exprs_spec(env, lvars, s, 0) is Ok ==> ({
            let r = resolve_exprs_spec(env, lvars, s, 0)->Ok_0;
            resolve_exprs_spec(env, lvars, r, 0) == Ok::<Seq<GNode>, GSemError>(r)
        }),
    decreases s, 2int,
{
    if resolve_exprs_spec(env, lvars, s, 0) is Ok {
        lemma_resolve_exprs_idempotent(env, lvars, s);
    }
}

/// Whatever the class, the dispatch target of a message contains a dot.
proof fn lemma_target_name_has_dot_all(m: Seq<char>)
    ensures
        forall|c: Seq<char>| has_dot(#[trigger] crate::sem_spec::target_name(c, m)),
{
    if !has_dot(m) {
        assert forall|c: Seq<char>| has_dot(#[trigger] crate::sem_spec::target_name(c, m)) by {
            lemma_qualified_name_has_dot(c, m);
        }
    }
}

// ---------------------------------------------------------------------------
// Lexical laws

/// An input whose next character is an uppercase letter always lexes to a
/// `Const` token, never an `Ident`.
pub proof fn lemma_uppercase_yields_const(s: Seq<char>, i: int, line: nat, col: nat)
    requires
        0 <= i < s.len(),
        is_upper_char(s[i]),
    ensures
        spec_lex(s, i, line, col) matches Some(r) && r matches Ok(st) && st.0 matches
            GToken::Const(_, text) && text == s.subrange(
            i,
            i + 1 + run_len(s, i + 1, const_cont_pred()),
        ),
{
    let c = s[i];
    assert(!(c == '#' || c == ' ' || c == '\n' || c == '(' || c == ')' || c == '[' || c == ']'
        || c == '{' || c == '}' || c == ',' || c == '.' || c == '"'));
    assert(!crate::lex_spec::is_digit_char(c));
}

/// An unterminated string literal without escapes at the end of the input
/// produces a `StringLiteral` token holding every character after the
/// opening quote, and no error.
pub proof fn lemma_unterminated_string_literal(s: Seq<char>, i: int, line: nat, col: nat)
    requires
        0 <= i < s.len(),
        s[i] == '"',
        forall|k: int| i < k < s.len() ==> s[k] != '"' && s[k] != '\\',
    ensures
        spec_lex(s, i, line, col) matches Some(r) && r matches Ok(st) && st.0 matches
            GToken::StringLiteral(_, text) && text == s.subrange(i + 1, s.len() as int)
            && st.1 == s.len(),
{
    lemma_scan_plain(s, i + 1);
    assert(scan_str_lit(s, i + 1).0 =~= s.subrange(i + 1, s.len() as int));
}

/// Scanning a literal body with no quote and no backslash takes everything
/// to the end of the input.
proof fn lemma_scan_plain(s: Seq<char>, k: int)
    requires
        0 <= k <= s.len(),
        forall|j: int| k <= j < s.len() ==> s[j] != '"' && s[j] != '\\',
    ensures
        scan_str_lit(s, k).0 =~= s.subrange(k, s.len() as int),
        scan_str_lit(s, k).1 == s.len() - k,
    decreases s.len() - k,
{
    if k < s.len() {
        lemma_scan_plain(s, k + 1);
        assert(seq![s[k]] + s.subrange(k + 1, s.len() as int) =~= s.subrange(
            k,
            s.len() as int,
        ));
    } else {
        assert(s.subrange(k, s.len() as int) =~= Seq::<char>::empty());
    }
}

} // verus!
