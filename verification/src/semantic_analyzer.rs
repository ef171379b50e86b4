//! The semantic-resolution pass: builds the declaration indices, then walks
//! every method body annotating nodes with resolved types, attribute slots,
//! and class-qualified call targets. Strictly fail-fast: the first
//! unresolved reference or unsupported shape aborts the pass with no partial
//! output.

use vstd::prelude::*;
use vstd::string::{StrSliceExecFns, StringExecFns};
use crate::ast::{
    access_view, arg_view, args_view, node_view, nodes_views, lemma_nodes_view_props,
    lemma_nodes_views_push, opt_type_copy, opt_type_view, proto_view, type_view, Access, BaseType,
    Binary, BuildStruct, Call, ClassDecl, GNode, GType, Node, ParserResult, Ret, Send, StructDecl,
};
use crate::sem_spec::{
    attrs_index_spec, attrs_view_map, class_attrs_spec, has_dot, lemma_attrs_view_empty,
    lemma_attrs_view_insert, lemma_lvars_view_empty, lemma_lvars_view_insert, lvars_view,
    method_index_spec, methods_view_map, qualified_name, resolve_access_spec, resolve_body_spec,
    resolve_expr_spec, resolve_exprs_spec, resolve_method_spec, resolve_methods_spec,
    resolve_stmt_spec, seed_lvars_spec, spec_class_name, structs_view_map, transform_ast_spec,
    GEnv, GSemError,
};
use crate::strmap::StrMap;

verus! {

/// A fatal resolution error; the pass aborts at the first one.
#[derive(Debug, PartialEq)]
pub enum SemError {
    /// A local variable read before any type was recorded for it.
    UnresolvedLocalVariable(String),
    /// No attribute of that name on that class: `(class, attribute)`.
    UnresolvedAttribute(String, String),
    /// No method of that (possibly class-qualified) name.
    UnresolvedMethod(String),
    /// A struct literal names an undeclared struct.
    UnresolvedStruct(String),
    /// A node kind reached in a context that does not support it.
    UnsupportedExpressionShape(String),
}

impl View for SemError {
    type V = GSemError;

    open spec fn view(&self) -> GSemError {
        match self {
            SemError::UnresolvedLocalVariable(n) => GSemError::UnresolvedLocalVariable(n@),
            SemError::UnresolvedAttribute(c, n) => GSemError::UnresolvedAttribute(c@, n@),
            SemError::UnresolvedMethod(n) => GSemError::UnresolvedMethod(n@),
            SemError::UnresolvedStruct(n) => GSemError::UnresolvedStruct(n@),
            SemError::UnsupportedExpressionShape(c) => GSemError::UnsupportedExpressionShape(c@),
        }
    }
}

/// The accumulating error list of a pass. The pass is fail-fast, so it holds
/// at most one entry today; the shape leaves room for collecting more.
#[derive(Debug)]
pub struct Diagnostics {
    pub errors: Vec<SemError>,
}

/// The result of running semantic analysis: its diagnostics.
#[derive(Debug)]
pub struct SemanticAnalyzer {
    pub diagnostics: Diagnostics,
}

/// The class name a value of the given type dispatches through.
pub fn pajama_class_name(base_type: &BaseType) -> (r: String)
    ensures
        r@ == spec_class_name(type_view(*base_type)),
{
    match base_type {
        BaseType::Array(_, _) => String::from_str("Array"),
        BaseType::Byte => String::from_str("Byte"),
        BaseType::BytePtr => String::from_str("BytePtr"),
        BaseType::Class(class_name) => class_name.clone(),
        BaseType::Int => String::from_str("Int"),
        BaseType::Int16 => String::from_str("Int16"),
        BaseType::Int32 => String::from_str("Int32"),
        BaseType::Int64 => String::from_str("Int64"),
        BaseType::Void => String::new(),
        BaseType::Struct(_) => String::from_str("Struct"),
        BaseType::FnRef => String::from_str("FnRef"),
    }
}

/// `"Class.member"`.
fn qualify(class_name: String, member: &String) -> (r: String)
    ensures
        r@ == qualified_name(class_name@, member@),
{
    class_name.concat(".").concat(member.as_str())
}

/// Whether the name is already class-qualified.
fn name_has_dot(s: &String) -> (b: bool)
    ensures
        b == has_dot(s@),
{
    let n = s.as_str().unicode_len();
    let mut k: usize = 0;
    while k < n
        invariant
            k <= n,
            n == s@.len(),
            forall|j: int| 0 <= j < k ==> s@[j] != '.',
        decreases n - k,
    {
        if s.as_str().get_char(k) == '.' {
            return true;
        }
        k = k + 1;
    }
    false
}

/// Build the attribute index from the parser's class table: for every class,
/// for every declared attribute, insert `"Class.attr"` mapped to the slot
/// index and declared type. A duplicate key keeps the later declaration.
#[verifier::loop_isolation(false)]
pub fn populate_class_index(
    class_index: &Vec<ClassDecl>,
    attribute_index: &mut StrMap<(i32, BaseType)>,
)
    ensures
        attrs_view_map(final(attribute_index)@) == attrs_index_spec(
            class_index@,
            0,
            attrs_view_map(old(attribute_index)@),
        ),
{
    let ghost m0 = attrs_view_map(attribute_index@);
    let mut i: usize = 0;
    while i < class_index.len()
        invariant
            i <= class_index@.len(),
            attrs_index_spec(class_index@, i as int, attrs_view_map(attribute_index@))
                == attrs_index_spec(class_index@, 0, m0),
        decreases class_index@.len() - i,
    {
        let class = &class_index[i];
        let ghost mi = attrs_view_map(attribute_index@);
        let mut j: usize = 0;
        while j < class.attributes.len()
            invariant
                j <= class.attributes@.len(),
                class_attrs_spec(
                    class.name@,
                    class.attributes@,
                    j as int,
                    attrs_view_map(attribute_index@),
                ) == class_attrs_spec(class.name@, class.attributes@, 0, mi),
            decreases class.attributes@.len() - j,
        {
            let ghost sm0 = attribute_index@;
            let ghost mj = attrs_view_map(attribute_index@);
            let ad = &class.attributes[j];
            let key = qualify(class.name.clone(), &ad.name);
            let ghost gkey = key@;
            attribute_index.insert(key, (ad.index, ad.return_type.deep_copy()));
            proof {
                lemma_attrs_view_insert(sm0, gkey, (ad.index, ad.return_type));
                assert(attrs_view_map(attribute_index@) == mj.insert(
                    qualified_name(class.name@, ad.name@),
                    (ad.index, type_view(ad.return_type)),
                ));
            }
            j = j + 1;
        }
        i = i + 1;
    }
}

/// Build the method index: every top-level `Def` or `DefE` contributes its
/// declared name and optional return type; a later declaration wins.
#[verifier::loop_isolation(false)]
pub fn populate_method_index(methods: &Vec<Node>, method_index: &mut StrMap<Option<BaseType>>)
    ensures
        methods_view_map(final(method_index)@) == method_index_spec(
            nodes_views(methods@),
            0,
            methods_view_map(old(method_index)@),
        ),
{
    let ghost gms = nodes_views(methods@);
    let ghost m0 = methods_view_map(method_index@);
    proof {
        lemma_nodes_view_props(methods@, 0);
    }
    let mut i: usize = 0;
    while i < methods.len()
        invariant
            i <= methods@.len(),
            method_index_spec(gms, i as int, methods_view_map(method_index@))
                == method_index_spec(gms, 0, m0),
        decreases methods@.len() - i,
    {
        let ghost sm0 = method_index@;
        let ghost mi = methods_view_map(method_index@);
        match &methods[i] {
            Node::Def { prototype, body: _ } => {
                method_index.insert(prototype.name.clone(), opt_type_copy(&prototype.return_type));
                proof {
                    lemma_lvars_view_insert(sm0, prototype.name@, prototype.return_type);
                    assert(gms[i as int] == node_view(methods@[i as int]));
                }
            },
            Node::DefE { prototype } => {
                method_index.insert(prototype.name.clone(), opt_type_copy(&prototype.return_type));
                proof {
                    lemma_lvars_view_insert(sm0, prototype.name@, prototype.return_type);
                    assert(gms[i as int] == node_view(methods@[i as int]));
                }
            },
            _ => {
                proof {
                    assert(gms[i as int] == node_view(methods@[i as int]));
                }
            },
        }
        i = i + 1;
    }
}

/// The ghost environment read by the resolution pass, as the views of the
/// executable tables.
pub open spec fn env_of(
    attrs: Map<Seq<char>, (i32, BaseType)>,
    methods: Map<Seq<char>, Option<BaseType>>,
    structs: Map<Seq<char>, StructDecl>,
) -> GEnv {
    GEnv {
        attrs: attrs_view_map(attrs),
        methods: methods_view_map(methods),
        structs: structs_view_map(structs),
    }
}

/// Resolve `receiver.attr`: derive the receiver's class, look the attribute
/// up, and write its slot index and declared type onto the node.
pub fn visit_access_node(
    attribute_index: &StrMap<(i32, BaseType)>,
    lvar_index: &StrMap<Option<BaseType>>,
    node: &Access,
) -> (r: Result<(Access, BaseType), SemError>)
    ensures
        ({
            let sr = resolve_access_spec(
                attrs_view_map(attribute_index@),
                lvars_view(lvar_index@),
                access_view(*node),
            );
            match r {
                Ok(p) => sr == Ok::<_, GSemError>((access_view(p.0), type_view(p.1))),
                Err(e) => sr == Err::<(crate::ast::GAccess, GType), GSemError>(e@),
            }
        }),
{
    let recv_result: Result<(Node, String), SemError> = match &*node.receiver {
        Node::LocalVar { name, return_type: _ } => match lvar_index.get(name) {
            Option::None => Err(SemError::UnresolvedLocalVariable(name.clone())),
            Option::Some(opt) => match opt {
                Option::None => Err(SemError::UnresolvedLocalVariable(name.clone())),
                Option::Some(t) => {
                    let tc = t.deep_copy();
                    let cn = pajama_class_name(&tc);
                    Ok((Node::LocalVar { name: name.clone(), return_type: Some(tc) }, cn))
                },
            },
        },
        Node::SelfRef { return_type } => {
            let cn = pajama_class_name(return_type);
            Ok((Node::SelfRef { return_type: return_type.deep_copy() }, cn))
        },
        Node::Array { items, length, item_type } => Ok(
            (
                Node::Array {
                    items: crate::ast::nodes_copy(items),
                    length: *length,
                    item_type: item_type.deep_copy(),
                },
                String::from_str("Array"),
            ),
        ),
        _ => Err(SemError::UnsupportedExpressionShape(String::from_str("access receiver"))),
    };
    match recv_result {
        Err(e) => Err(e),
        Ok(rc) => {
            let (recv2, cname) = rc;
            match &*node.message {
                Node::Attribute { name } => {
                    let key = qualify(cname.clone(), name);
                    match attribute_index.get(&key) {
                        Option::None => Err(SemError::UnresolvedAttribute(cname, name.clone())),
                        Option::Some(entry) => {
                            let idx = entry.0;
                            let rt = entry.1.deep_copy();
                            let rt2 = rt.deep_copy();
                            Ok(
                                (
                                    Access {
                                        receiver: Box::new(recv2),
                                        message: Box::new(Node::Attribute { name: name.clone() }),
                                        index: idx,
                                        return_type: Some(rt),
                                    },
                                    rt2,
                                ),
                            )
                        },
                    }
                },
                _ => Err(
                    SemError::UnsupportedExpressionShape(String::from_str("access message")),
                ),
            }
        },
    }
}

/// Resolve one expression: dispatch to the handler of its node kind, and
/// return the annotated node with its inferred type.
pub fn resolve_expr(
    attribute_index: &StrMap<(i32, BaseType)>,
    method_index: &StrMap<Option<BaseType>>,
    struct_index: &StrMap<StructDecl>,
    lvar_index: &StrMap<Option<BaseType>>,
    n: &Node,
) -> (r: Result<(Node, Option<BaseType>), SemError>)
    ensures
        ({
            let sr = resolve_expr_spec(
                env_of(attribute_index@, method_index@, struct_index@),
                lvars_view(lvar_index@),
                node_view(*n),
            );
            match r {
                Ok(p) => sr == Ok::<_, GSemError>((node_view(p.0), opt_type_view(p.1))),
                Err(e) => sr == Err::<(GNode, Option<GType>), GSemError>(e@),
            }
        }),
    decreases n, 3int,
{
    match n {
        Node::Access(a) => match visit_access_node(attribute_index, lvar_index, a) {
            Err(e) => Err(e),
            Ok(p) => Ok((Node::Access(p.0), Some(p.1))),
        },
        Node::Binary(b) => match visit_binary_node(
            attribute_index,
            method_index,
            struct_index,
            lvar_index,
            b,
        ) {
            Err(e) => Err(e),
            Ok(p) => Ok((Node::Binary(p.0), p.1)),
        },
        Node::Call(c) => match visit_call_node(
            attribute_index,
            method_index,
            struct_index,
            lvar_index,
            c,
        ) {
            Err(e) => Err(e),
            Ok(p) => Ok((Node::Call(p.0), p.1)),
        },
        Node::Send(s) => match visit_send_node(
            attribute_index,
            method_index,
            struct_index,
            lvar_index,
            s,
        ) {
            Err(e) => Err(e),
            Ok(p) => Ok((Node::Send(p.0), p.1)),
        },
        Node::BuildStruct(b) => match visit_build_struct_node(
            attribute_index,
            method_index,
            struct_index,
            lvar_index,
            b,
        ) {
            Err(e) => Err(e),
            Ok(p) => Ok((Node::BuildStruct(p.0), Some(p.1))),
        },
        Node::Array { items, length, item_type } => match resolve_expr_list(
            attribute_index,
            method_index,
            struct_index,
            lvar_index,
            items,
        ) {
            Err(e) => Err(e),
            Ok(items2) => Ok(
                (
                    Node::Array {
                        items: items2,
                        length: *length,
                        item_type: item_type.deep_copy(),
                    },
                    Some(BaseType::Array(*length, Box::new(item_type.deep_copy()))),
                ),
            ),
        },
        Node::Int { value } => Ok((Node::Int { value: *value }, Some(BaseType::Int))),
        Node::StringLiteral { value } => Ok(
            (
                Node::StringLiteral { value: value.clone() },
                Some(BaseType::Class(String::from_str("Str"))),
            ),
        ),
        Node::LocalVar { name, return_type: _ } => match lvar_index.get(name) {
            Option::None => Err(SemError::UnresolvedLocalVariable(name.clone())),
            Option::Some(opt) => {
                let t = opt_type_copy(opt);
                let t2 = opt_type_copy(opt);
                Ok((Node::LocalVar { name: name.clone(), return_type: t }, t2))
            },
        },
        Node::SelfRef { return_type } => Ok(
            (
                Node::SelfRef { return_type: return_type.deep_copy() },
                Some(return_type.deep_copy()),
            ),
        ),
        Node::Const { name } => Ok((Node::Const { name: name.clone() }, Option::None)),
        _ => Err(SemError::UnsupportedExpressionShape(String::from_str("expression"))),
    }
}

/// Resolve a list of expressions (call arguments, array items, struct
/// construction arguments), left to right, stopping at the first error.
#[verifier::loop_isolation(false)]
fn resolve_expr_list(
    attribute_index: &StrMap<(i32, BaseType)>,
    method_index: &StrMap<Option<BaseType>>,
    struct_index: &StrMap<StructDecl>,
    lvar_index: &StrMap<Option<BaseType>>,
    items: &Vec<Node>,
) -> (r: Result<Vec<Node>, SemError>)
    ensures
        ({
            let sr = resolve_exprs_spec(
                env_of(attribute_index@, method_index@, struct_index@),
                lvars_view(lvar_index@),
                nodes_views(items@),
                0,
            );
            match r {
                Ok(v) => sr == Ok::<_, GSemError>(nodes_views(v@)),
                Err(e) => sr == Err::<Seq<GNode>, GSemError>(e@),
            }
        }),
    decreases items@, 2int,
{
    let ghost env = env_of(attribute_index@, method_index@, struct_index@);
    let ghost glv = lvars_view(lvar_index@);
    let ghost gitems = nodes_views(items@);
    proof {
        lemma_nodes_view_props(items@, 0);
    }
    let mut out: Vec<Node> = Vec::new();
    let mut i: usize = 0;
    while i < items.len()
        invariant
            i <= items@.len(),
            ({
                let from_here = resolve_exprs_spec(env, glv, gitems, i as int);
                let whole = resolve_exprs_spec(env, glv, gitems, 0);
                match from_here {
                    Ok(rest) => whole == Ok::<_, GSemError>(nodes_views(out@) + rest),
                    Err(e) => whole == Err::<Seq<GNode>, GSemError>(e),
                }
            }),
        decreases items@.len() - i,
    {
        proof {
            assert(decreases_to!(items@, 2int => items@[i as int], 3int));
        }
        match resolve_expr(attribute_index, method_index, struct_index, lvar_index, &items[i]) {
            Err(e) => {
                return Err(e);
            },
            Ok(p) => {
                let ghost out0 = out@;
                out.push(p.0);
                proof {
                    lemma_nodes_views_push(out0, p.0);
                    let rest = resolve_exprs_spec(env, glv, gitems, i as int + 1);
                    if rest is Ok {
                        assert(nodes_views(out0) + (seq![node_view(p.0)] + rest->Ok_0)
                            =~= nodes_views(out0).push(node_view(p.0)) + rest->Ok_0);
                    }
                }
            },
        }
        i = i + 1;
    }
    proof {
        assert(nodes_views(out@) + Seq::<GNode>::empty() =~= nodes_views(out@));
    }
    Ok(out)
}

/// Resolve `left op right`: both operands are resolved; the expression's
/// inferred type is the right operand's type.
pub fn visit_binary_node(
    attribute_index: &StrMap<(i32, BaseType)>,
    method_index: &StrMap<Option<BaseType>>,
    struct_index: &StrMap<StructDecl>,
    lvar_index: &StrMap<Option<BaseType>>,
    node: &Binary,
) -> (r: Result<(Binary, Option<BaseType>), SemError>)
    ensures
        ({
            let sr = resolve_expr_spec(
                env_of(attribute_index@, method_index@, struct_index@),
                lvars_view(lvar_index@),
                GNode::Binary {
                    left: Box::new(node_view(*node.left)),
                    op: node.op@,
                    right: Box::new(node_view(*node.right)),
                },
            );
            match r {
                Ok(p) => sr == Ok::<_, GSemError>(
                    (node_view(Node::Binary(p.0)), opt_type_view(p.1)),
                ),
                Err(e) => sr == Err::<(GNode, Option<GType>), GSemError>(e@),
            }
        }),
    decreases node, 2int,
{
    match resolve_expr(attribute_index, method_index, struct_index, lvar_index, &node.left) {
        Err(e) => Err(e),
        Ok(l2) => match resolve_expr(
            attribute_index,
            method_index,
            struct_index,
            lvar_index,
            &node.right,
        ) {
            Err(e) => Err(e),
            Ok(r2) => Ok(
                (
                    Binary { left: Box::new(l2.0), op: node.op.clone(), right: Box::new(r2.0) },
                    r2.1,
                ),
            ),
        },
    }
}

/// Resolve an unqualified invocation: the name must be declared; the call's
/// arguments are resolved and the declared return type is written onto the
/// node.
pub fn visit_call_node(
    attribute_index: &StrMap<(i32, BaseType)>,
    method_index: &StrMap<Option<BaseType>>,
    struct_index: &StrMap<StructDecl>,
    lvar_index: &StrMap<Option<BaseType>>,
    node: &Call,
) -> (r: Result<(Call, Option<BaseType>), SemError>)
    ensures
        ({
            let sr = resolve_expr_spec(
                env_of(attribute_index@, method_index@, struct_index@),
                lvars_view(lvar_index@),
                GNode::Call {
                    fn_name: node.fn_name@,
                    args: nodes_views(node.args@),
                    return_type: opt_type_view(node.return_type),
                },
            );
            match r {
                Ok(p) => sr == Ok::<_, GSemError>((node_view(Node::Call(p.0)), opt_type_view(p.1))),
                Err(e) => sr == Err::<(GNode, Option<GType>), GSemError>(e@),
            }
        }),
    decreases node, 2int,
{
    match method_index.get(&node.fn_name) {
        Option::None => Err(SemError::UnresolvedMethod(node.fn_name.clone())),
        Option::Some(rt0) => {
            let rt_node = opt_type_copy(rt0);
            let rt_ret = opt_type_copy(rt0);
            match resolve_expr_list(
                attribute_index,
                method_index,
                struct_index,
                lvar_index,
                &node.args,
            ) {
                Err(e) => Err(e),
                Ok(args2) => Ok(
                    (
                        Call { fn_name: node.fn_name.clone(), args: args2, return_type: rt_node },
                        rt_ret,
                    ),
                ),
            }
        },
    }
}

/// Resolve a receiver-qualified dispatch: the receiver's type selects the
/// class, the message's call name is rewritten to `"ClassName.method"` (once:
/// an already-qualified name is kept), the arguments are resolved, and the
/// target's declared return type is written onto the node. A local variable
/// with no recorded type whose name is a known method becomes a first-class
/// function reference.
pub fn visit_send_node(
    attribute_index: &StrMap<(i32, BaseType)>,
    method_index: &StrMap<Option<BaseType>>,
    struct_index: &StrMap<StructDecl>,
    lvar_index: &StrMap<Option<BaseType>>,
    node: &Send,
) -> (r: Result<(Send, Option<BaseType>), SemError>)
    ensures
        ({
            let sr = resolve_expr_spec(
                env_of(attribute_index@, method_index@, struct_index@),
                lvars_view(lvar_index@),
                GNode::Send {
                    receiver: Box::new(node_view(*node.receiver)),
                    message: Box::new(node_view(*node.message)),
                    return_type: opt_type_view(node.return_type),
                },
            );
            match r {
                Ok(p) => sr == Ok::<_, GSemError>((node_view(Node::Send(p.0)), opt_type_view(p.1))),
                Err(e) => sr == Err::<(GNode, Option<GType>), GSemError>(e@),
            }
        }),
    decreases node, 2int,
{
    match &*node.message {
        Node::Call(mc) => {
            let step: Result<(Node, BaseType, Option<BaseType>), SemError> = match &*node.receiver {
                Node::LocalVar { name, return_type: _ } => match lvar_index.get(name) {
                    Option::None => {
                        if method_index.contains_key(name) {
                            let recv2 = Node::LocalVar {
                                name: name.clone(),
                                return_type: Some(BaseType::FnRef),
                            };
                            let result_send = Send {
                                receiver: Box::new(recv2),
                                message: Box::new(node.message.deep_copy()),
                                return_type: Some(BaseType::FnRef),
                            };
                            proof {
                                assert(node_view(*result_send.receiver) == GNode::LocalVar {
                                    name: name@,
                                    return_type: Some(GType::FnRef),
                                });
                                assert(node_view(Node::Send(result_send)) == GNode::Send {
                                    receiver: Box::new(
                                        GNode::LocalVar {
                                            name: name@,
                                            return_type: Some(GType::FnRef),
                                        },
                                    ),
                                    message: Box::new(node_view(*node.message)),
                                    return_type: Some(GType::FnRef),
                                });
                            }
                            return Ok((result_send, Some(BaseType::FnRef)));
                        } else {
                            Err(SemError::UnresolvedLocalVariable(name.clone()))
                        }
                    },
                    Option::Some(opt) => match opt {
                        Option::None => Err(SemError::UnresolvedLocalVariable(name.clone())),
                        Option::Some(t) => {
                            let tc = t.deep_copy();
                            Ok(
                                (
                                    Node::LocalVar {
                                        name: name.clone(),
                                        return_type: Some(tc.deep_copy()),
                                    },
                                    tc,
                                    opt_type_copy(&node.return_type),
                                ),
                            )
                        },
                    },
                },
                Node::Const { name } => {
                    if mc.fn_name == String::from_str("new") || mc.fn_name == String::from_str(
                        "alloca",
                    ) || name_has_dot(&mc.fn_name) {
                        Ok(
                            (
                                Node::Const { name: name.clone() },
                                BaseType::Class(name.clone()),
                                Some(BaseType::Class(name.clone())),
                            ),
                        )
                    } else {
                        Err(SemError::UnsupportedExpressionShape(String::from_str("class method")))
                    }
                },
                Node::Access(_) | Node::Call(_) | Node::Send(_) | Node::Binary(_) => {
                    match resolve_expr(
                        attribute_index,
                        method_index,
                        struct_index,
                        lvar_index,
                        &*node.receiver,
                    ) {
                        Err(e) => Err(e),
                        Ok(p) => match p.1 {
                            Option::None => Err(
                                SemError::UnsupportedExpressionShape(
                                    String::from_str("send receiver"),
                                ),
                            ),
                            Option::Some(t) => Ok((p.0, t, opt_type_copy(&node.return_type))),
                        },
                    }
                },
                _ => Err(SemError::UnsupportedExpressionShape(String::from_str("send receiver"))),
            };
            match step {
                Err(e) => Err(e),
                Ok(rc) => {
                    let (recv2, rty, pre_rt) = rc;
                    let cname = pajama_class_name(&rty);
                    let target = if name_has_dot(&mc.fn_name) {
                        mc.fn_name.clone()
                    } else {
                        qualify(cname, &mc.fn_name)
                    };
                    match method_index.get(&target) {
                        Option::None => Err(SemError::UnresolvedMethod(target)),
                        Option::Some(m_rt) => {
                            let m_rt_node = opt_type_copy(m_rt);
                            let m_rt_ret = opt_type_copy(m_rt);
                            let final_rt: Option<BaseType> = match m_rt {
                                Option::Some(bt) => Some(bt.deep_copy()),
                                Option::None => pre_rt,
                            };
                            match resolve_expr_list(
                                attribute_index,
                                method_index,
                                struct_index,
                                lvar_index,
                                &mc.args,
                            ) {
                                Err(e) => Err(e),
                                Ok(args2) => {
                                    let ghost gtarget = target@;
                                    let msg2 = Node::Call(
                                        Call { fn_name: target, args: args2, return_type: m_rt_node },
                                    );
                                    proof {
                                        assert(node_view(msg2) == GNode::Call {
                                            fn_name: gtarget,
                                            args: nodes_views(args2@),
                                            return_type: opt_type_view(m_rt_node),
                                        });
                                    }
                                    let result_send = Send {
                                        receiver: Box::new(recv2),
                                        message: Box::new(msg2),
                                        return_type: final_rt,
                                    };
                                    proof {
                                        assert(node_view(Node::Send(result_send)) == GNode::Send {
                                            receiver: Box::new(node_view(recv2)),
                                            message: Box::new(node_view(msg2)),
                                            return_type: opt_type_view(final_rt),
                                        });
                                    }
                                    Ok((result_send, m_rt_ret))
                                },
                            }
                        },
                    }
                },
            }
        },
        _ => Err(SemError::UnsupportedExpressionShape(String::from_str("send message"))),
    }
}

/// Resolve a struct-literal construction: the arguments are resolved, and the
/// type recorded for the struct name is produced and written onto the node.
pub fn visit_build_struct_node(
    attribute_index: &StrMap<(i32, BaseType)>,
    method_index: &StrMap<Option<BaseType>>,
    struct_index: &StrMap<StructDecl>,
    lvar_index: &StrMap<Option<BaseType>>,
    node: &BuildStruct,
) -> (r: Result<(BuildStruct, BaseType), SemError>)
    ensures
        ({
            let sr = resolve_expr_spec(
                env_of(attribute_index@, method_index@, struct_index@),
                lvars_view(lvar_index@),
                GNode::BuildStruct {
                    name: node.name@,
                    args: nodes_views(node.args@),
                    return_type: opt_type_view(node.return_type),
                },
            );
            match r {
                Ok(p) => sr == Ok::<_, GSemError>(
                    (node_view(Node::BuildStruct(p.0)), Some(type_view(p.1))),
                ),
                Err(e) => sr == Err::<(GNode, Option<GType>), GSemError>(e@),
            }
        }),
    decreases node, 2int,
{
    match resolve_expr_list(attribute_index, method_index, struct_index, lvar_index, &node.args) {
        Err(e) => Err(e),
        Ok(args2) => match struct_index.get(&node.name) {
            Option::None => Err(SemError::UnresolvedStruct(node.name.clone())),
            Option::Some(sd) => {
                let rt = sd.return_type.deep_copy();
                let rt2 = rt.deep_copy();
                Ok(
                    (
                        BuildStruct { name: node.name.clone(), args: args2, return_type: Some(rt) },
                        rt2,
                    ),
                )
            },
        },
    }
}

/// Resolve the value of a `ret` statement.
pub fn visit_ret_node(
    attribute_index: &StrMap<(i32, BaseType)>,
    method_index: &StrMap<Option<BaseType>>,
    struct_index: &StrMap<StructDecl>,
    lvar_index: &StrMap<Option<BaseType>>,
    node: &Ret,
) -> (r: Result<Ret, SemError>)
    ensures
        ({
            let sr = resolve_stmt_spec(
                env_of(attribute_index@, method_index@, struct_index@),
                lvars_view(lvar_index@),
                GNode::Ret { value: Box::new(node_view(*node.value)) },
            );
            match r {
                Ok(n2) => sr == Ok::<_, GSemError>(
                    (node_view(Node::Ret(n2)), lvars_view(lvar_index@)),
                ),
                Err(e) => sr == Err::<(GNode, Map<Seq<char>, Option<GType>>), GSemError>(e@),
            }
        }),
    decreases node, 2int,
{
    match resolve_expr(attribute_index, method_index, struct_index, lvar_index, &node.value) {
        Err(e) => Err(e),
        Ok(p) => Ok(Ret { value: Box::new(p.0) }),
    }
}

/// Resolve one statement of a method body; an assignment to a local variable
/// records the value's inferred type in the local table.
pub fn resolve_stmt(
    attribute_index: &StrMap<(i32, BaseType)>,
    method_index: &StrMap<Option<BaseType>>,
    struct_index: &StrMap<StructDecl>,
    lvar_index: &mut StrMap<Option<BaseType>>,
    n: &Node,
) -> (r: Result<Node, SemError>)
    ensures
        ({
            let sr = resolve_stmt_spec(
                env_of(attribute_index@, method_index@, struct_index@),
                lvars_view(old(lvar_index)@),
                node_view(*n),
            );
            match r {
                Ok(n2) => sr == Ok::<_, GSemError>(
                    (node_view(n2), lvars_view(final(lvar_index)@)),
                ),
                Err(e) => sr == Err::<(GNode, Map<Seq<char>, Option<GType>>), GSemError>(e@),
            }
        }),
    decreases n, 4int,
{
    match n {
        Node::AssignLocalVar { name, value } => match resolve_expr(
            attribute_index,
            method_index,
            struct_index,
            lvar_index,
            &**value,
        ) {
            Err(e) => Err(e),
            Ok(p) => {
                let ghost lv0 = lvar_index@;
                lvar_index.insert(name.clone(), p.1);
                proof {
                    lemma_lvars_view_insert(lv0, name@, p.1);
                }
                Ok(Node::AssignLocalVar { name: name.clone(), value: Box::new(p.0) })
            },
        },
        Node::AssignAttribute { name, value } => match resolve_expr(
            attribute_index,
            method_index,
            struct_index,
            lvar_index,
            &**value,
        ) {
            Err(e) => Err(e),
            Ok(p) => Ok(Node::AssignAttribute { name: name.clone(), value: Box::new(p.0) }),
        },
        Node::AssignAttributeAccess { access, value } => match visit_access_node(
            attribute_index,
            lvar_index,
            access,
        ) {
            Err(e) => Err(e),
            Ok(a2) => match resolve_expr(
                attribute_index,
                method_index,
                struct_index,
                lvar_index,
                &**value,
            ) {
                Err(e) => Err(e),
                Ok(p) => Ok(
                    Node::AssignAttributeAccess { access: a2.0, value: Box::new(p.0) },
                ),
            },
        },
        Node::Ret(r0) => match visit_ret_node(
            attribute_index,
            method_index,
            struct_index,
            lvar_index,
            r0,
        ) {
            Err(e) => Err(e),
            Ok(r2) => Ok(Node::Ret(r2)),
        },
        Node::Loop { body } => match resolve_body(
            attribute_index,
            method_index,
            struct_index,
            lvar_index,
            body,
        ) {
            Err(e) => Err(e),
            Ok(body2) => Ok(Node::Loop { body: body2 }),
        },
        Node::Access(_) | Node::Binary(_) | Node::Call(_) | Node::Send(_) | Node::BuildStruct(_)
            | Node::Array { items: _, length: _, item_type: _ } | Node::Int { value: _ }
            | Node::StringLiteral { value: _ } | Node::LocalVar { name: _, return_type: _ }
            | Node::SelfRef { return_type: _ } | Node::Const { name: _ } => match resolve_expr(
            attribute_index,
            method_index,
            struct_index,
            lvar_index,
            n,
        ) {
            Err(e) => Err(e),
            Ok(p) => Ok(p.0),
        },
        _ => Err(SemError::UnsupportedExpressionShape(String::from_str("statement"))),
    }
}

/// Resolve the statements of a body in order, threading the local variable
/// table through them.
#[verifier::loop_isolation(false)]
pub fn resolve_body(
    attribute_index: &StrMap<(i32, BaseType)>,
    method_index: &StrMap<Option<BaseType>>,
    struct_index: &StrMap<StructDecl>,
    lvar_index: &mut StrMap<Option<BaseType>>,
    body: &Vec<Node>,
) -> (r: Result<Vec<Node>, SemError>)
    ensures
        ({
            let sr = resolve_body_spec(
                env_of(attribute_index@, method_index@, struct_index@),
                lvars_view(old(lvar_index)@),
                nodes_views(body@),
                0,
            );
            match r {
                Ok(v) => sr == Ok::<_, GSemError>(
                    (nodes_views(v@), lvars_view(final(lvar_index)@)),
                ),
                Err(e) => sr == Err::<(Seq<GNode>, Map<Seq<char>, Option<GType>>), GSemError>(e@),
            }
        }),
    decreases body@, 3int,
{
    let ghost env = env_of(attribute_index@, method_index@, struct_index@);
    let ghost glv0 = lvars_view(lvar_index@);
    let ghost gbody = nodes_views(body@);
    proof {
        lemma_nodes_view_props(body@, 0);
    }
    let mut out: Vec<Node> = Vec::new();
    let mut i: usize = 0;
    while i < body.len()
        invariant
            i <= body@.len(),
            ({
                let from_here = resolve_body_spec(env, lvars_view(lvar_index@), gbody, i as int);
                let whole = resolve_body_spec(env, glv0, gbody, 0);
                match from_here {
                    Ok(p) => whole == Ok::<_, GSemError>((nodes_views(out@) + p.0, p.1)),
                    Err(e) => whole == Err::<(Seq<GNode>, Map<Seq<char>, Option<GType>>),
                        GSemError,
                    >(e),
                }
            }),
        decreases body@.len() - i,
    {
        proof {
            assert(decreases_to!(body@, 3int => body@[i as int], 4int));
        }
        match resolve_stmt(attribute_index, method_index, struct_index, lvar_index, &body[i]) {
            Err(e) => {
                return Err(e);
            },
            Ok(n2) => {
                let ghost out0 = out@;
                out.push(n2);
                proof {
                    lemma_nodes_views_push(out0, n2);
                    let rest = resolve_body_spec(
                        env,
                        lvars_view(lvar_index@),
                        gbody,
                        i as int + 1,
                    );
                    if rest is Ok {
                        assert(nodes_views(out0) + (seq![node_view(n2)] + rest->Ok_0.0)
                            =~= nodes_views(out0).push(node_view(n2)) + rest->Ok_0.0);
                    }
                }
            },
        }
        i = i + 1;
    }
    proof {
        assert(nodes_views(out@) + Seq::<GNode>::empty() =~= nodes_views(out@));
    }
    Ok(out)
}

/// Resolve every method of the module in order: each `Def` gets a fresh
/// local variable table seeded from its declared parameters and its body
/// resolved; any other top-level node is left untouched.
#[verifier::loop_isolation(false)]
pub fn run_type_inference(
    methods: &Vec<Node>,
    method_index: &StrMap<Option<BaseType>>,
    attribute_index: &StrMap<(i32, BaseType)>,
    struct_index: &StrMap<StructDecl>,
) -> (r: Result<Vec<Node>, SemError>)
    ensures
        ({
            let sr = resolve_methods_spec(
                env_of(attribute_index@, method_index@, struct_index@),
                nodes_views(methods@),
                0,
            );
            match r {
                Ok(v) => sr == Ok::<_, GSemError>(nodes_views(v@)),
                Err(e) => sr == Err::<Seq<GNode>, GSemError>(e@),
            }
        }),
{
    let ghost env = env_of(attribute_index@, method_index@, struct_index@);
    let ghost gms = nodes_views(methods@);
    proof {
        lemma_nodes_view_props(methods@, 0);
    }
    let mut out: Vec<Node> = Vec::new();
    let mut i: usize = 0;
    while i < methods.len()
        invariant
            i <= methods@.len(),
            ({
                let from_here = resolve_methods_spec(env, gms, i as int);
                let whole = resolve_methods_spec(env, gms, 0);
                match from_here {
                    Ok(rest) => whole == Ok::<_, GSemError>(nodes_views(out@) + rest),
                    Err(e) => whole == Err::<Seq<GNode>, GSemError>(e),
                }
            }),
        decreases methods@.len() - i,
    {
        match &methods[i] {
            Node::Def { prototype, body } => {
                let mut lvar_index: StrMap<Option<BaseType>> = StrMap::new();
                proof {
                    lemma_lvars_view_empty();
                }
                let ghost gargs = args_view(prototype.args@);
                let mut j: usize = 0;
                while j < prototype.args.len()
                    invariant
                        j <= prototype.args@.len(),
                        seed_lvars_spec(gargs, j as int, lvars_view(lvar_index@))
                            == seed_lvars_spec(gargs, 0, Map::empty()),
                    decreases prototype.args@.len() - j,
                {
                    let arg = &prototype.args[j];
                    let ghost lv0 = lvar_index@;
                    lvar_index.insert(arg.name.clone(), Some(arg.return_type.deep_copy()));
                    proof {
                        lemma_lvars_view_insert(lv0, arg.name@, Some(arg.return_type));
                        assert(gargs[j as int] == arg_view(prototype.args@[j as int]));
                    }
                    j = j + 1;
                }
                match resolve_body(
                    attribute_index,
                    method_index,
                    struct_index,
                    &mut lvar_index,
                    body,
                ) {
                    Err(e) => {
                        return Err(e);
                    },
                    Ok(body2) => {
                        let ghost out0 = out@;
                        let nd = Node::Def { prototype: prototype.deep_copy(), body: body2 };
                        proof {
                            assert(node_view(nd) == GNode::Def {
                                prototype: proto_view(*prototype),
                                body: nodes_views(body2@),
                            });
                            assert(gms[i as int] == node_view(methods@[i as int]));
                        }
                        out.push(nd);
                        proof {
                            lemma_nodes_views_push(out0, nd);
                            let rest = resolve_methods_spec(env, gms, i as int + 1);
                            if rest is Ok {
                                assert(nodes_views(out0) + (seq![node_view(nd)] + rest->Ok_0)
                                    =~= nodes_views(out0).push(node_view(nd)) + rest->Ok_0);
                            }
                        }
                    },
                }
            },
            _ => {
                let ghost out0 = out@;
                let nd = methods[i].deep_copy();
                proof {
                    assert(gms[i as int] == node_view(methods@[i as int]));
                    assert(resolve_method_spec(env, gms[i as int]) == Ok::<GNode, GSemError>(
                        gms[i as int],
                    ));
                }
                out.push(nd);
                proof {
                    lemma_nodes_views_push(out0, nd);
                    let rest = resolve_methods_spec(env, gms, i as int + 1);
                    if rest is Ok {
                        assert(nodes_views(out0) + (seq![node_view(nd)] + rest->Ok_0)
                            =~= nodes_views(out0).push(node_view(nd)) + rest->Ok_0);
                    }
                }
            },
        }
        i = i + 1;
    }
    proof {
        assert(nodes_views(out@) + Seq::<GNode>::empty() =~= nodes_views(out@));
    }
    Ok(out)
}

impl SemanticAnalyzer {
    /// Run the whole resolution pass: build the indices from the parser's
    /// tables, then annotate every method body. Fail-fast: the first
    /// unresolved reference or unsupported shape aborts with no partial
    /// output.
    pub fn transform_ast(result: ParserResult) -> (r: Result<ParserResult, SemError>)
        ensures
            ({
                let sr = transform_ast_spec(
                    node_view(result.module),
                    result.index.class_index@,
                    result.index.struct_index@,
                );
                match r {
                    Ok(out) => sr == Ok::<_, GSemError>(node_view(out.module)) && out.index
                        == result.index,
                    Err(e) => sr == Err::<GNode, GSemError>(e@),
                }
            }),
    {
        let ghost gmod = node_view(result.module);
        let ParserResult { module, index } = result;
        match module {
            Node::Module { methods } => {
                let mut attribute_index: StrMap<(i32, BaseType)> = StrMap::new();
                proof {
                    lemma_attrs_view_empty();
                }
                populate_class_index(&index.class_index, &mut attribute_index);
                let mut method_index: StrMap<Option<BaseType>> = StrMap::new();
                proof {
                    lemma_lvars_view_empty();
                }
                populate_method_index(&methods, &mut method_index);
                match run_type_inference(
                    &methods,
                    &method_index,
                    &attribute_index,
                    &index.struct_index,
                ) {
                    Err(e) => Err(e),
                    Ok(methods2) => {
                        let m2 = Node::Module { methods: methods2 };
                        proof {
                            assert(node_view(m2) == GNode::Module {
                                methods: nodes_views(m2->Module_methods@),
                            });
                        }
                        Ok(ParserResult { module: m2, index })
                    },
                }
            },
            _ => Err(SemError::UnsupportedExpressionShape(String::from_str("module"))),
        }
    }

    /// `transform_ast`, with the resolution failure, if any, recorded in an
    /// analyzer's diagnostics.
    pub fn run(result: ParserResult) -> (r: Result<ParserResult, SemanticAnalyzer>)
        ensures
            ({
                let sr = transform_ast_spec(
                    node_view(result.module),
                    result.index.class_index@,
                    result.index.struct_index@,
                );
                match r {
                    Ok(out) => sr == Ok::<_, GSemError>(node_view(out.module)) && out.index
                        == result.index,
                    Err(a) => a.diagnostics.errors@.len() == 1 && sr == Err::<GNode, GSemError>(
                        a.diagnostics.errors@[0]@,
                    ),
                }
            }),
    {
        match Self::transform_ast(result) {
            Ok(out) => Ok(out),
            Err(e) => {
                let mut errors: Vec<SemError> = Vec::new();
                errors.push(e);
                Err(SemanticAnalyzer { diagnostics: Diagnostics { errors } })
            },
        }
    }
}

} // verus!
