//! Mathematical specification of the semantic-resolution pass: how the
//! declaration indices are built, and how each node kind is annotated with
//! its inferred type, attribute slot, or class-qualified call target.

use vstd::prelude::*;
use crate::ast::{
    struct_decl_view, type_view, AttributeDecl, BaseType, ClassDecl, GAccess, GArg, GNode,
    GStructDecl, GType, StructDecl,
};

verus! {

/// Mathematical counterpart of `SemError`.
pub ghost enum GSemError {
    UnresolvedLocalVariable(Seq<char>),
    UnresolvedAttribute(Seq<char>, Seq<char>),
    UnresolvedMethod(Seq<char>),
    UnresolvedStruct(Seq<char>),
    UnsupportedExpressionShape(Seq<char>),
}

/// The read-only environment of a resolution pass: attribute slots keyed by
/// `"Class.attr"`, declared method return types keyed by (possibly
/// qualified) method name, and struct shapes keyed by struct name.
pub ghost struct GEnv {
    pub attrs: Map<Seq<char>, (i32, GType)>,
    pub methods: Map<Seq<char>, Option<GType>>,
    pub structs: Map<Seq<char>, GStructDecl>,
}

/// The class name a value of type `t` dispatches through.
pub open spec fn spec_class_name(t: GType) -> Seq<char> {
    match t {
        GType::Array(_, _) => "Array"@,
        GType::Byte => "Byte"@,
        GType::BytePtr => "BytePtr"@,
        GType::Class(n) => n,
        GType::Int => "Int"@,
        GType::Int16 => "Int16"@,
        GType::Int32 => "Int32"@,
        GType::Int64 => "Int64"@,
        GType::Void => Seq::empty(),
        GType::Struct(_) => "Struct"@,
        GType::FnRef => "FnRef"@,
    }
}

pub open spec fn has_dot(s: Seq<char>) -> bool {
    exists|k: int| 0 <= k < s.len() && s[k] == '.'
}

/// `"Class.member"`.
pub open spec fn qualified_name(class_name: Seq<char>, member: Seq<char>) -> Seq<char> {
    class_name + "."@ + member
}

/// The dispatch target of a message: an unqualified name is prefixed with
/// the receiver's class, an already-qualified one is kept, so resolution is
/// idempotent.
pub open spec fn target_name(class_name: Seq<char>, method: Seq<char>) -> Seq<char> {
    if has_dot(method) {
        method
    } else {
        qualified_name(class_name, method)
    }
}

// ---------------------------------------------------------------------------
// Attribute access

/// Resolve `receiver.attr`: derive the receiver's class from its local
/// variable type, `self`'s declared type, or an array receiver; then look the
/// attribute up and write its slot index and declared type onto the node.
pub open spec fn resolve_access_spec(
    attrs: Map<Seq<char>, (i32, GType)>,
    lvars: Map<Seq<char>, Option<GType>>,
    a: GAccess,
) -> Result<(GAccess, GType), GSemError> {
    let recv = match *a.receiver {
        GNode::LocalVar { name, return_type } => {
            if !lvars.contains_key(name) {
                Err(GSemError::UnresolvedLocalVariable(name))
            } else {
                match lvars[name] {
                    Option::None => Err(GSemError::UnresolvedLocalVariable(name)),
                    Option::Some(t) => Ok(
                        (GNode::LocalVar { name, return_type: Some(t) }, spec_class_name(t)),
                    ),
                }
            }
        },
        GNode::SelfRef { return_type } => Ok(
            (GNode::SelfRef { return_type }, spec_class_name(return_type)),
        ),
        GNode::Array { items, length, item_type } => Ok(
            (GNode::Array { items, length, item_type }, "Array"@),
        ),
        _ => Err(GSemError::UnsupportedExpressionShape("access receiver"@)),
    };
    match recv {
        Err(e) => Err(e),
        Ok(rc) => match *a.message {
            GNode::Attribute { name } => {
                let key = qualified_name(rc.1, name);
                if !attrs.contains_key(key) {
                    Err(GSemError::UnresolvedAttribute(rc.1, name))
                } else {
                    let entry = attrs[key];
                    Ok(
                        (
                            GAccess {
                                receiver: Box::new(rc.0),
                                message: a.message,
                                index: entry.0,
                                return_type: Some(entry.1),
                            },
                            entry.1,
                        ),
                    )
                }
            },
            _ => Err(GSemError::UnsupportedExpressionShape("access message"@)),
        },
    }
}

// ---------------------------------------------------------------------------
// Expressions

/// Resolve one expression: the annotated node and its inferred type (`None`
/// models a valueless result).
pub open spec fn resolve_expr_spec(
    env: GEnv,
    lvars: Map<Seq<char>, Option<GType>>,
    n: GNode,
) -> Result<(GNode, Option<GType>), GSemError>
    decreases n, 0int,
{
    match n {
        GNode::Access(a) => match resolve_access_spec(env.attrs, lvars, a) {
            Err(e) => Err(e),
            Ok(r) => Ok((GNode::Access(r.0), Some(r.1))),
        },
        GNode::Binary { left, op, right } => match resolve_expr_spec(env, lvars, *left) {
            Err(e) => Err(e),
            Ok(l2) => match resolve_expr_spec(env, lvars, *right) {
                Err(e) => Err(e),
                Ok(r2) => Ok(
                    (
                        GNode::Binary { left: Box::new(l2.0), op, right: Box::new(r2.0) },
                        r2.1,
                    ),
                ),
            },
        },
        GNode::Call { fn_name, args, return_type } => {
            if !env.methods.contains_key(fn_name) {
                Err(GSemError::UnresolvedMethod(fn_name))
            } else {
                match resolve_exprs_spec(env, lvars, args, 0) {
                    Err(e) => Err(e),
                    Ok(args2) => {
                        let rt = env.methods[fn_name];
                        Ok((GNode::Call { fn_name, args: args2, return_type: rt }, rt))
                    },
                }
            }
        },
        GNode::Send { receiver, message, return_type } => match *message {
            GNode::Call { fn_name, args, return_type: m_rt } => {
                if (*receiver) matches GNode::LocalVar { name, return_type: _ }
                    && !lvars.contains_key(name) && env.methods.contains_key(name) {
                    // a known method name used as a value: a first-class
                    // function reference, annotated without dispatching
                    let name = (*receiver)->LocalVar_name;
                    Ok(
                        (
                            GNode::Send {
                                receiver: Box::new(
                                    GNode::LocalVar { name, return_type: Some(GType::FnRef) },
                                ),
                                message,
                                return_type: Some(GType::FnRef),
                            },
                            Some(GType::FnRef),
                        ),
                    )
                } else {
                    let recv = match *receiver {
                        GNode::LocalVar { name, return_type: lv_rt } => {
                            if !lvars.contains_key(name) {
                                Err(GSemError::UnresolvedLocalVariable(name))
                            } else {
                                match lvars[name] {
                                    Option::None => Err(
                                        GSemError::UnresolvedLocalVariable(name),
                                    ),
                                    Option::Some(t) => Ok(
                                        (
                                            GNode::LocalVar { name, return_type: Some(t) },
                                            t,
                                            return_type,
                                        ),
                                    ),
                                }
                            }
                        },
                        GNode::Const { name } => {
                            // constructor-style dispatch on a bare class
                            // name; an already-qualified name re-resolves
                            // idempotently
                            if fn_name == "new"@ || fn_name == "alloca"@ || has_dot(fn_name) {
                                Ok(
                                    (
                                        GNode::Const { name },
                                        GType::Class(name),
                                        Some(GType::Class(name)),
                                    ),
                                )
                            } else {
                                Err(GSemError::UnsupportedExpressionShape("class method"@))
                            }
                        },
                        GNode::Access(a) => match resolve_expr_spec(env, lvars, *receiver) {
                            Err(e) => Err(e),
                            Ok(rr) => match rr.1 {
                                Option::None => Err(
                                    GSemError::UnsupportedExpressionShape("send receiver"@),
                                ),
                                Option::Some(t) => Ok((rr.0, t, return_type)),
                            },
                        },
                        GNode::Call { fn_name: _, args: _, return_type: _ } => match
                            resolve_expr_spec(env, lvars, *receiver) {
                            Err(e) => Err(e),
                            Ok(rr) => match rr.1 {
                                Option::None => Err(
                                    GSemError::UnsupportedExpressionShape("send receiver"@),
                                ),
                                Option::Some(t) => Ok((rr.0, t, return_type)),
                            },
                        },
                        GNode::Send { receiver: _, message: _, return_type: _ } => match
                            resolve_expr_spec(env, lvars, *receiver) {
                            Err(e) => Err(e),
                            Ok(rr) => match rr.1 {
                                Option::None => Err(
                                    GSemError::UnsupportedExpressionShape("send receiver"@),
                                ),
                                Option::Some(t) => Ok((rr.0, t, return_type)),
                            },
                        },
                        GNode::Binary { left: _, op: _, right: _ } => match resolve_expr_spec(
                            env,
                            lvars,
                            *receiver,
                        ) {
                            Err(e) => Err(e),
                            Ok(rr) => match rr.1 {
                                Option::None => Err(
                                    GSemError::UnsupportedExpressionShape("send receiver"@),
                                ),
                                Option::Some(t) => Ok((rr.0, t, return_type)),
                            },
                        },
                        _ => Err(GSemError::UnsupportedExpressionShape("send receiver"@)),
                    };
                    match recv {
                        Err(e) => Err(e),
                        Ok(rc) => {
                            let target = target_name(spec_class_name(rc.1), fn_name);
                            if !env.methods.contains_key(target) {
                                Err(GSemError::UnresolvedMethod(target))
                            } else {
                                match resolve_exprs_spec(env, lvars, args, 0) {
                                    Err(e) => Err(e),
                                    Ok(args2) => {
                                        let m_rt2 = env.methods[target];
                                        Ok(
                                            (
                                                GNode::Send {
                                                    receiver: Box::new(rc.0),
                                                    message: Box::new(
                                                        GNode::Call {
                                                            fn_name: target,
                                                            args: args2,
                                                            return_type: m_rt2,
                                                        },
                                                    ),
                                                    return_type: match m_rt2 {
                                                        Option::Some(bt) => Some(bt),
                                                        Option::None => rc.2,
                                                    },
                                                },
                                                m_rt2,
                                            ),
                                        )
                                    },
                                }
                            }
                        },
                    }
                }
            },
            _ => Err(GSemError::UnsupportedExpressionShape("send message"@)),
        },
        GNode::BuildStruct { name, args, return_type } => match resolve_exprs_spec(
            env,
            lvars,
            args,
            0,
        ) {
            Err(e) => Err(e),
            Ok(args2) => {
                if !env.structs.contains_key(name) {
                    Err(GSemError::UnresolvedStruct(name))
                } else {
                    let rt = env.structs[name].return_type;
                    Ok(
                        (
                            GNode::BuildStruct { name, args: args2, return_type: Some(rt) },
                            Some(rt),
                        ),
                    )
                }
            },
        },
        GNode::Array { items, length, item_type } => match resolve_exprs_spec(
            env,
            lvars,
            items,
            0,
        ) {
            Err(e) => Err(e),
            Ok(items2) => Ok(
                (
                    GNode::Array { items: items2, length, item_type },
                    Some(GType::Array(length, Box::new(item_type))),
                ),
            ),
        },
        GNode::Int { value } => Ok((GNode::Int { value }, Some(GType::Int))),
        GNode::StringLiteral { value } => Ok(
            (GNode::StringLiteral { value }, Some(GType::Class("Str"@))),
        ),
        GNode::LocalVar { name, return_type } => {
            if !lvars.contains_key(name) {
                Err(GSemError::UnresolvedLocalVariable(name))
            } else {
                let t = lvars[name];
                Ok((GNode::LocalVar { name, return_type: t }, t))
            }
        },
        GNode::SelfRef { return_type } => Ok(
            (GNode::SelfRef { return_type }, Some(return_type)),
        ),
        GNode::Const { name } => Ok((GNode::Const { name }, Option::None)),
        _ => Err(GSemError::UnsupportedExpressionShape("expression"@)),
    }
}

/// Resolve a sequence of expressions (call arguments, array items, struct
/// construction arguments), left to right, stopping at the first error.
pub open spec fn resolve_exprs_spec(
    env: GEnv,
    lvars: Map<Seq<char>, Option<GType>>,
    s: Seq<GNode>,
    i: int,
) -> Result<Seq<GNode>, GSemError>
    decreases s, (if i < 0 { s.len() + 1 } else { (s.len() - i) as nat }),
{
    if i < 0 || i >= s.len() {
        Ok(Seq::empty())
    } else {
        match resolve_expr_spec(env, lvars, s[i]) {
            Err(e) => Err(e),
            Ok(n2) => match resolve_exprs_spec(env, lvars, s, i + 1) {
                Err(e) => Err(e),
                Ok(rest) => Ok(seq![n2.0] + rest),
            },
        }
    }
}

// ---------------------------------------------------------------------------
// Statements and method bodies

/// Resolve one statement of a method body: the annotated node and the local
/// variable table after it (an assignment to a local records the value's
/// inferred type, overwriting any earlier binding).
pub open spec fn resolve_stmt_spec(
    env: GEnv,
    lvars: Map<Seq<char>, Option<GType>>,
    n: GNode,
) -> Result<(GNode, Map<Seq<char>, Option<GType>>), GSemError>
    decreases n, 1int,
{
    match n {
        GNode::AssignLocalVar { name, value } => match resolve_expr_spec(env, lvars, *value) {
            Err(e) => Err(e),
            Ok(v2) => Ok(
                (
                    GNode::AssignLocalVar { name, value: Box::new(v2.0) },
                    lvars.insert(name, v2.1),
                ),
            ),
        },
        GNode::AssignAttribute { name, value } => match resolve_expr_spec(env, lvars, *value) {
            Err(e) => Err(e),
            Ok(v2) => Ok((GNode::AssignAttribute { name, value: Box::new(v2.0) }, lvars)),
        },
        GNode::AssignAttributeAccess { access, value } => match resolve_access_spec(
            env.attrs,
            lvars,
            access,
        ) {
            Err(e) => Err(e),
            Ok(a2) => match resolve_expr_spec(env, lvars, *value) {
                Err(e) => Err(e),
                Ok(v2) => Ok(
                    (
                        GNode::AssignAttributeAccess { access: a2.0, value: Box::new(v2.0) },
                        lvars,
                    ),
                ),
            },
        },
        GNode::Ret { value } => match resolve_expr_spec(env, lvars, *value) {
            Err(e) => Err(e),
            Ok(v2) => Ok((GNode::Ret { value: Box::new(v2.0) }, lvars)),
        },
        GNode::Loop { body } => match resolve_body_spec(env, lvars, body, 0) {
            Err(e) => Err(e),
            Ok(b2) => Ok((GNode::Loop { body: b2.0 }, b2.1)),
        },
        GNode::Access(_) | GNode::Binary { left: _, op: _, right: _ } | GNode::Call {
            fn_name: _,
            args: _,
            return_type: _,
        } | GNode::Send { receiver: _, message: _, return_type: _ } | GNode::BuildStruct {
            name: _,
            args: _,
            return_type: _,
        } | GNode::Array { items: _, length: _, item_type: _ } | GNode::Int { value: _ }
            | GNode::StringLiteral { value: _ } | GNode::LocalVar { name: _, return_type: _ }
            | GNode::SelfRef { return_type: _ } | GNode::Const { name: _ } => match
            resolve_expr_spec(env, lvars, n) {
            Err(e) => Err(e),
            Ok(n2) => Ok((n2.0, lvars)),
        },
        _ => Err(GSemError::UnsupportedExpressionShape("statement"@)),
    }
}

/// Resolve the statements of a body in order, threading the local variable
/// table through them.
pub open spec fn resolve_body_spec(
    env: GEnv,
    lvars: Map<Seq<char>, Option<GType>>,
    s: Seq<GNode>,
    i: int,
) -> Result<(Seq<GNode>, Map<Seq<char>, Option<GType>>), GSemError>
    decreases s, (if i < 0 { s.len() + 1 } else { (s.len() - i) as nat }),
{
    if i < 0 || i >= s.len() {
        Ok((Seq::empty(), lvars))
    } else {
        match resolve_stmt_spec(env, lvars, s[i]) {
            Err(e) => Err(e),
            Ok(n2) => match resolve_body_spec(env, n2.1, s, i + 1) {
                Err(e) => Err(e),
                Ok(rest) => Ok((seq![n2.0] + rest.0, rest.1)),
            },
        }
    }
}

/// The local variable table seeded from a method's declared parameters.
pub open spec fn seed_lvars_spec(
    args: Seq<GArg>,
    i: int,
    acc: Map<Seq<char>, Option<GType>>,
) -> Map<Seq<char>, Option<GType>>
    decreases (if i < 0 { args.len() + 1 } else { (args.len() - i) as nat }),
{
    if i < 0 || i >= args.len() {
        acc
    } else {
        seed_lvars_spec(args, i + 1, acc.insert(args[i].name, Some(args[i].return_type)))
    }
}

/// Resolve one top-level method: a `Def` gets a fresh local table seeded from
/// its parameters and its body resolved; anything else is left untouched.
pub open spec fn resolve_method_spec(env: GEnv, n: GNode) -> Result<GNode, GSemError>
    decreases n, 2int,
{
    match n {
        GNode::Def { prototype, body } => {
            let lv0 = seed_lvars_spec(prototype.args, 0, Map::empty());
            match resolve_body_spec(env, lv0, body, 0) {
                Err(e) => Err(e),
                Ok(b2) => Ok(GNode::Def { prototype, body: b2.0 }),
            }
        },
        _ => Ok(n),
    }
}

/// Resolve every method of the module in order.
pub open spec fn resolve_methods_spec(env: GEnv, s: Seq<GNode>, i: int) -> Result<
    Seq<GNode>,
    GSemError,
>
    decreases s, (if i < 0 { s.len() + 1 } else { (s.len() - i) as nat }),
{
    if i < 0 || i >= s.len() {
        Ok(Seq::empty())
    } else {
        match resolve_method_spec(env, s[i]) {
            Err(e) => Err(e),
            Ok(n2) => match resolve_methods_spec(env, s, i + 1) {
                Err(e) => Err(e),
                Ok(rest) => Ok(seq![n2] + rest),
            },
        }
    }
}

// ---------------------------------------------------------------------------
// Index construction

/// The attribute entries of one class, inserted in declaration order (a
/// duplicate name within one class keeps the later declaration).
pub open spec fn class_attrs_spec(
    cname: Seq<char>,
    attrs: Seq<AttributeDecl>,
    j: int,
    acc: Map<Seq<char>, (i32, GType)>,
) -> Map<Seq<char>, (i32, GType)>
    decreases (if j < 0 { attrs.len() + 1 } else { (attrs.len() - j) as nat }),
{
    if j < 0 || j >= attrs.len() {
        acc
    } else {
        class_attrs_spec(
            cname,
            attrs,
            j + 1,
            acc.insert(
                qualified_name(cname, attrs[j].name@),
                (attrs[j].index, type_view(attrs[j].return_type)),
            ),
        )
    }
}

/// The attribute index of all classes, keyed by `"Class.attr"`.
pub open spec fn attrs_index_spec(
    classes: Seq<ClassDecl>,
    i: int,
    acc: Map<Seq<char>, (i32, GType)>,
) -> Map<Seq<char>, (i32, GType)>
    decreases (if i < 0 { classes.len() + 1 } else { (classes.len() - i) as nat }),
{
    if i < 0 || i >= classes.len() {
        acc
    } else {
        attrs_index_spec(
            classes,
            i + 1,
            class_attrs_spec(classes[i].name@, classes[i].attributes@, 0, acc),
        )
    }
}

/// The method index: every top-level `Def` or `DefE` contributes its declared
/// name and optional return type; a later declaration of the same name wins.
pub open spec fn method_index_spec(
    methods: Seq<GNode>,
    i: int,
    acc: Map<Seq<char>, Option<GType>>,
) -> Map<Seq<char>, Option<GType>>
    decreases (if i < 0 { methods.len() + 1 } else { (methods.len() - i) as nat }),
{
    if i < 0 || i >= methods.len() {
        acc
    } else {
        let acc2 = match methods[i] {
            GNode::Def { prototype, body } => acc.insert(prototype.name, prototype.return_type),
            GNode::DefE { prototype } => acc.insert(prototype.name, prototype.return_type),
            _ => acc,
        };
        method_index_spec(methods, i + 1, acc2)
    }
}

// ---------------------------------------------------------------------------
// Value-wise views of the executable tables

pub open spec fn lvars_view(m: Map<Seq<char>, Option<BaseType>>) -> Map<
    Seq<char>,
    Option<GType>,
> {
    Map::new(
        |k: Seq<char>| m.contains_key(k),
        |k: Seq<char>| crate::ast::opt_type_view(m[k]),
    )
}

pub open spec fn methods_view_map(m: Map<Seq<char>, Option<BaseType>>) -> Map<
    Seq<char>,
    Option<GType>,
> {
    lvars_view(m)
}

pub open spec fn attrs_view_map(m: Map<Seq<char>, (i32, BaseType)>) -> Map<
    Seq<char>,
    (i32, GType),
> {
    Map::new(
        |k: Seq<char>| m.contains_key(k),
        |k: Seq<char>| (m[k].0, type_view(m[k].1)),
    )
}

pub open spec fn structs_view_map(m: Map<Seq<char>, StructDecl>) -> Map<Seq<char>, GStructDecl> {
    Map::new(|k: Seq<char>| m.contains_key(k), |k: Seq<char>| struct_decl_view(m[k]))
}

pub proof fn lemma_lvars_view_insert(
    m: Map<Seq<char>, Option<BaseType>>,
    k: Seq<char>,
    v: Option<BaseType>,
)
    ensures
        lvars_view(m.insert(k, v)) == lvars_view(m).insert(k, crate::ast::opt_type_view(v)),
{
    assert(lvars_view(m.insert(k, v)) =~= lvars_view(m).insert(k, crate::ast::opt_type_view(v)));
}

pub proof fn lemma_lvars_view_empty()
    ensures
        lvars_view(Map::empty()) == Map::<Seq<char>, Option<GType>>::empty(),
{
    assert(lvars_view(Map::empty()) =~= Map::<Seq<char>, Option<GType>>::empty());
}

pub proof fn lemma_attrs_view_insert(
    m: Map<Seq<char>, (i32, BaseType)>,
    k: Seq<char>,
    v: (i32, BaseType),
)
    ensures
        attrs_view_map(m.insert(k, v)) == attrs_view_map(m).insert(k, (v.0, type_view(v.1))),
{
    assert(attrs_view_map(m.insert(k, v)) =~= attrs_view_map(m).insert(
        k,
        (v.0, type_view(v.1)),
    ));
}

pub proof fn lemma_attrs_view_empty()
    ensures
        attrs_view_map(Map::empty()) == Map::<Seq<char>, (i32, GType)>::empty(),
{
    assert(attrs_view_map(Map::empty()) =~= Map::<Seq<char>, (i32, GType)>::empty());
}

// ---------------------------------------------------------------------------
// The whole pass

/// Resolve a whole module given the parser's class and struct tables: build
/// the indices, then annotate every method body. The first unresolved
/// reference or unsupported shape aborts the pass with no partial output.
pub open spec fn transform_ast_spec(
    module: GNode,
    classes: Seq<ClassDecl>,
    structs: Map<Seq<char>, StructDecl>,
) -> Result<GNode, GSemError> {
    match module {
        GNode::Module { methods } => {
            let env = GEnv {
                attrs: attrs_index_spec(classes, 0, Map::empty()),
                methods: method_index_spec(methods, 0, Map::empty()),
                structs: structs_view_map(structs),
            };
            match resolve_methods_spec(env, methods, 0) {
                Err(e) => Err(e),
                Ok(ms) => Ok(GNode::Module { methods: ms }),
            }
        },
        _ => Err(GSemError::UnsupportedExpressionShape("module"@)),
    }
}

} // verus!
