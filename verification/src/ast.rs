//! The node and type vocabulary shared by parsing, resolution, and code
//! generation, together with the mathematical mirror used by specifications
//! (strings become character sequences, vectors become sequences).

use vstd::prelude::*;
use crate::strmap::StrMap;

verus! {

// ---------------------------------------------------------------------------
// Types

/// Nominal/structural type tags of the language.
#[derive(Debug, PartialEq)]
pub enum BaseType {
    Int,
    Int16,
    Int32,
    Int64,
    Byte,
    BytePtr,
    Void,
    Class(String),
    Struct(String),
    Array(u64, Box<BaseType>),
    FnRef,
}

/// Mathematical counterpart of `BaseType`.
pub ghost enum GType {
    Int,
    Int16,
    Int32,
    Int64,
    Byte,
    BytePtr,
    Void,
    Class(Seq<char>),
    Struct(Seq<char>),
    Array(u64, Box<GType>),
    FnRef,
}

pub open spec fn type_view(t: BaseType) -> GType
    decreases t,
{
    match t {
        BaseType::Int => GType::Int,
        BaseType::Int16 => GType::Int16,
        BaseType::Int32 => GType::Int32,
        BaseType::Int64 => GType::Int64,
        BaseType::Byte => GType::Byte,
        BaseType::BytePtr => GType::BytePtr,
        BaseType::Void => GType::Void,
        BaseType::Class(n) => GType::Class(n@),
        BaseType::Struct(n) => GType::Struct(n@),
        BaseType::Array(len, el) => GType::Array(len, Box::new(type_view(*el))),
        BaseType::FnRef => GType::FnRef,
    }
}

impl View for BaseType {
    type V = GType;

    open spec fn view(&self) -> GType {
        type_view(*self)
    }
}

pub open spec fn opt_type_view(o: Option<BaseType>) -> Option<GType> {
    match o {
        Option::None => Option::None,
        Option::Some(t) => Option::Some(type_view(t)),
    }
}

impl BaseType {
    /// A structural copy; the result is the same value.
    pub fn deep_copy(&self) -> (r: BaseType)
        ensures
            r == *self,
        decreases self,
    {
        match self {
            BaseType::Int => BaseType::Int,
            BaseType::Int16 => BaseType::Int16,
            BaseType::Int32 => BaseType::Int32,
            BaseType::Int64 => BaseType::Int64,
            BaseType::Byte => BaseType::Byte,
            BaseType::BytePtr => BaseType::BytePtr,
            BaseType::Void => BaseType::Void,
            BaseType::Class(n) => BaseType::Class(n.clone()),
            BaseType::Struct(n) => BaseType::Struct(n.clone()),
            BaseType::Array(len, el) => BaseType::Array(*len, Box::new(el.deep_copy())),
            BaseType::FnRef => BaseType::FnRef,
        }
    }
}

pub fn opt_type_copy(o: &Option<BaseType>) -> (r: Option<BaseType>)
    ensures
        r == *o,
{
    match o {
        Option::None => Option::None,
        Option::Some(t) => Option::Some(t.deep_copy()),
    }
}

// ---------------------------------------------------------------------------
// Declarations supplied by the parser

/// One declared class attribute: its name, storage slot, and declared type.
#[derive(Debug, PartialEq)]
pub struct AttributeDecl {
    pub name: String,
    pub index: i32,
    pub return_type: BaseType,
}

/// A class with its ordered attribute declarations.
#[derive(Debug, PartialEq)]
pub struct ClassDecl {
    pub name: String,
    pub attributes: Vec<AttributeDecl>,
}

/// A struct declaration: its name and the type its construction produces.
#[derive(Debug, PartialEq)]
pub struct StructDecl {
    pub name: String,
    pub return_type: BaseType,
}

/// One declared method parameter.
#[derive(Debug, PartialEq)]
pub struct Arg {
    pub name: String,
    pub return_type: BaseType,
}

/// A method prototype: name, parameters, and optional declared return type
/// (`None` models a method that returns no value).
#[derive(Debug, PartialEq)]
pub struct Prototype {
    pub name: String,
    pub args: Vec<Arg>,
    pub return_type: Option<BaseType>,
}

pub ghost struct GAttributeDecl {
    pub name: Seq<char>,
    pub index: i32,
    pub return_type: GType,
}

pub ghost struct GClassDecl {
    pub name: Seq<char>,
    pub attributes: Seq<GAttributeDecl>,
}

pub ghost struct GStructDecl {
    pub name: Seq<char>,
    pub return_type: GType,
}

pub ghost struct GArg {
    pub name: Seq<char>,
    pub return_type: GType,
}

pub ghost struct GPrototype {
    pub name: Seq<char>,
    pub args: Seq<GArg>,
    pub return_type: Option<GType>,
}

pub open spec fn attr_decl_view(a: AttributeDecl) -> GAttributeDecl {
    GAttributeDecl { name: a.name@, index: a.index, return_type: type_view(a.return_type) }
}

pub open spec fn attr_decls_view(s: Seq<AttributeDecl>) -> Seq<GAttributeDecl> {
    s.map_values(|a: AttributeDecl| attr_decl_view(a))
}

pub open spec fn class_decl_view(c: ClassDecl) -> GClassDecl {
    GClassDecl { name: c.name@, attributes: attr_decls_view(c.attributes@) }
}

pub open spec fn struct_decl_view(s: StructDecl) -> GStructDecl {
    GStructDecl { name: s.name@, return_type: type_view(s.return_type) }
}

pub open spec fn arg_view(a: Arg) -> GArg {
    GArg { name: a.name@, return_type: type_view(a.return_type) }
}

pub open spec fn args_view(s: Seq<Arg>) -> Seq<GArg> {
    s.map_values(|a: Arg| arg_view(a))
}

pub open spec fn proto_view(p: Prototype) -> GPrototype {
    GPrototype { name: p.name@, args: args_view(p.args@), return_type: opt_type_view(p.return_type) }
}

impl View for ClassDecl {
    type V = GClassDecl;

    open spec fn view(&self) -> GClassDecl {
        class_decl_view(*self)
    }
}

impl View for StructDecl {
    type V = GStructDecl;

    open spec fn view(&self) -> GStructDecl {
        struct_decl_view(*self)
    }
}

// ---------------------------------------------------------------------------
// AST nodes

/// Attribute read `receiver.attr`; resolution writes the attribute's slot
/// index and declared type onto the node.
#[derive(Debug, PartialEq)]
pub struct Access {
    pub receiver: Box<Node>,
    pub message: Box<Node>,
    pub index: i32,
    pub return_type: Option<BaseType>,
}

/// Binary expression `left op right`.
#[derive(Debug, PartialEq)]
pub struct Binary {
    pub left: Box<Node>,
    pub op: String,
    pub right: Box<Node>,
}

/// Unqualified invocation; resolution writes the declared return type.
#[derive(Debug, PartialEq)]
pub struct Call {
    pub fn_name: String,
    pub args: Vec<Node>,
    pub return_type: Option<BaseType>,
}

/// Receiver-qualified dispatch `receiver.message(...)`; resolution rewrites
/// the message's call name to `"ClassName.method"` and writes the return
/// type.
#[derive(Debug, PartialEq)]
pub struct Send {
    pub receiver: Box<Node>,
    pub message: Box<Node>,
    pub return_type: Option<BaseType>,
}

/// Struct-literal construction; resolution writes the constructed type.
#[derive(Debug, PartialEq)]
pub struct BuildStruct {
    pub name: String,
    pub args: Vec<Node>,
    pub return_type: Option<BaseType>,
}

/// `ret value`.
#[derive(Debug, PartialEq)]
pub struct Ret {
    pub value: Box<Node>,
}

/// One AST node: declarations and expressions/statements of the language.
#[derive(Debug, PartialEq)]
pub enum Node {
    Access(Access),
    AssignAttribute { name: String, value: Box<Node> },
    AssignAttributeAccess { access: Access, value: Box<Node> },
    AssignConstant { name: String, value: Box<Node> },
    AssignLocalVar { name: String, value: Box<Node> },
    Attribute { name: String },
    Array { items: Vec<Node>, length: u64, item_type: BaseType },
    Binary(Binary),
    BuildStruct(BuildStruct),
    Call(Call),
    Class(ClassDecl),
    Const { name: String },
    Def { prototype: Prototype, body: Vec<Node> },
    DefE { prototype: Prototype },
    FnRef { name: String },
    Impl { name: String },
    Int { value: u64 },
    LocalVar { name: String, return_type: Option<BaseType> },
    Loop { body: Vec<Node> },
    Module { methods: Vec<Node> },
    Ret(Ret),
    SelfRef { return_type: BaseType },
    Send(Send),
    StringLiteral { value: String },
    Struct(StructDecl),
    Trait { name: String },
}

pub ghost struct GAccess {
    pub receiver: Box<GNode>,
    pub message: Box<GNode>,
    pub index: i32,
    pub return_type: Option<GType>,
}

/// Mathematical counterpart of `Node`.
pub ghost enum GNode {
    Access(GAccess),
    AssignAttribute { name: Seq<char>, value: Box<GNode> },
    AssignAttributeAccess { access: GAccess, value: Box<GNode> },
    AssignConstant { name: Seq<char>, value: Box<GNode> },
    AssignLocalVar { name: Seq<char>, value: Box<GNode> },
    Attribute { name: Seq<char> },
    Array { items: Seq<GNode>, length: u64, item_type: GType },
    Binary { left: Box<GNode>, op: Seq<char>, right: Box<GNode> },
    BuildStruct { name: Seq<char>, args: Seq<GNode>, return_type: Option<GType> },
    Call { fn_name: Seq<char>, args: Seq<GNode>, return_type: Option<GType> },
    Class(GClassDecl),
    Const { name: Seq<char> },
    Def { prototype: GPrototype, body: Seq<GNode> },
    DefE { prototype: GPrototype },
    FnRef { name: Seq<char> },
    Impl { name: Seq<char> },
    Int { value: u64 },
    LocalVar { name: Seq<char>, return_type: Option<GType> },
    Loop { body: Seq<GNode> },
    Module { methods: Seq<GNode> },
    Ret { value: Box<GNode> },
    SelfRef { return_type: GType },
    Send { receiver: Box<GNode>, message: Box<GNode>, return_type: Option<GType> },
    StringLiteral { value: Seq<char> },
    Struct(GStructDecl),
    Trait { name: Seq<char> },
}

pub open spec fn access_view(a: Access) -> GAccess
    decreases a, 0int,
{
    GAccess {
        receiver: Box::new(node_view(*a.receiver)),
        message: Box::new(node_view(*a.message)),
        index: a.index,
        return_type: opt_type_view(a.return_type),
    }
}

/// The views of `s[i..]`, mirror of each node in order.
pub open spec fn nodes_view(s: Seq<Node>, i: int) -> Seq<GNode>
    decreases s, (if i < 0 { s.len() + 1 } else { (s.len() - i) as nat }),
{
    if i < 0 || i >= s.len() {
        Seq::empty()
    } else {
        seq![node_view(s[i])] + nodes_view(s, i + 1)
    }
}

/// The views of a node sequence.
pub open spec fn nodes_views(s: Seq<Node>) -> Seq<GNode> {
    nodes_view(s, 0)
}

pub open spec fn node_view(n: Node) -> GNode
    decreases n, 0int,
{
    match n {
        Node::Access(a) => GNode::Access(access_view(a)),
        Node::AssignAttribute { name, value } => GNode::AssignAttribute {
            name: name@,
            value: Box::new(node_view(*value)),
        },
        Node::AssignAttributeAccess { access, value } => GNode::AssignAttributeAccess {
            access: access_view(access),
            value: Box::new(node_view(*value)),
        },
        Node::AssignConstant { name, value } => GNode::AssignConstant {
            name: name@,
            value: Box::new(node_view(*value)),
        },
        Node::AssignLocalVar { name, value } => GNode::AssignLocalVar {
            name: name@,
            value: Box::new(node_view(*value)),
        },
        Node::Attribute { name } => GNode::Attribute { name: name@ },
        Node::Array { items, length, item_type } => GNode::Array {
            items: nodes_view(items@, 0),
            length,
            item_type: type_view(item_type),
        },
        Node::Binary(b) => GNode::Binary {
            left: Box::new(node_view(*b.left)),
            op: b.op@,
            right: Box::new(node_view(*b.right)),
        },
        Node::BuildStruct(b) => GNode::BuildStruct {
            name: b.name@,
            args: nodes_view(b.args@, 0),
            return_type: opt_type_view(b.return_type),
        },
        Node::Call(c) => GNode::Call {
            fn_name: c.fn_name@,
            args: nodes_view(c.args@, 0),
            return_type: opt_type_view(c.return_type),
        },
        Node::Class(c) => GNode::Class(class_decl_view(c)),
        Node::Const { name } => GNode::Const { name: name@ },
        Node::Def { prototype, body } => GNode::Def {
            prototype: proto_view(prototype),
            body: nodes_view(body@, 0),
        },
        Node::DefE { prototype } => GNode::DefE { prototype: proto_view(prototype) },
        Node::FnRef { name } => GNode::FnRef { name: name@ },
        Node::Impl { name } => GNode::Impl { name: name@ },
        Node::Int { value } => GNode::Int { value },
        Node::LocalVar { name, return_type } => GNode::LocalVar {
            name: name@,
            return_type: opt_type_view(return_type),
        },
        Node::Loop { body } => GNode::Loop { body: nodes_view(body@, 0) },
        Node::Module { methods } => GNode::Module { methods: nodes_view(methods@, 0) },
        Node::Ret(r) => GNode::Ret { value: Box::new(node_view(*r.value)) },
        Node::SelfRef { return_type } => GNode::SelfRef { return_type: type_view(return_type) },
        Node::Send(s) => GNode::Send {
            receiver: Box::new(node_view(*s.receiver)),
            message: Box::new(node_view(*s.message)),
            return_type: opt_type_view(s.return_type),
        },
        Node::StringLiteral { value } => GNode::StringLiteral { value: value@ },
        Node::Struct(s) => GNode::Struct(struct_decl_view(s)),
        Node::Trait { name } => GNode::Trait { name: name@ },
    }
}

impl View for Node {
    type V = GNode;

    open spec fn view(&self) -> GNode {
        node_view(*self)
    }
}

pub proof fn lemma_nodes_views_push(s: Seq<Node>, x: Node)
    ensures
        nodes_views(s.push(x)) == nodes_views(s).push(node_view(x)),
{
    lemma_nodes_view_props(s.push(x), 0);
    lemma_nodes_view_props(s, 0);
    assert(nodes_views(s.push(x)) =~= nodes_views(s).push(node_view(x)));
}

impl Arg {
    pub fn deep_copy(&self) -> (r: Arg)
        ensures
            r == *self,
    {
        Arg { name: self.name.clone(), return_type: self.return_type.deep_copy() }
    }
}

impl Prototype {
    pub fn deep_copy(&self) -> (r: Prototype)
        ensures
            r.name == self.name,
            r.args@ == self.args@,
            r.return_type == self.return_type,
            proto_view(r) == proto_view(*self),
    {
        let mut args: Vec<Arg> = Vec::new();
        let mut i: usize = 0;
        while i < self.args.len()
            invariant
                i <= self.args@.len(),
                args@ == self.args@.subrange(0, i as int),
            decreases self.args@.len() - i,
        {
            args.push(self.args[i].deep_copy());
            proof {
                assert(self.args@.subrange(0, i as int).push(self.args@[i as int])
                    =~= self.args@.subrange(0, i as int + 1));
            }
            i = i + 1;
        }
        proof {
            assert(self.args@.subrange(0, self.args@.len() as int) =~= self.args@);
        }
        Prototype {
            name: self.name.clone(),
            args,
            return_type: opt_type_copy(&self.return_type),
        }
    }
}

impl AttributeDecl {
    pub fn deep_copy(&self) -> (r: AttributeDecl)
        ensures
            r == *self,
    {
        AttributeDecl {
            name: self.name.clone(),
            index: self.index,
            return_type: self.return_type.deep_copy(),
        }
    }
}

impl ClassDecl {
    pub fn deep_copy(&self) -> (r: ClassDecl)
        ensures
            r.name == self.name,
            r.attributes@ == self.attributes@,
            class_decl_view(r) == class_decl_view(*self),
    {
        let mut attributes: Vec<AttributeDecl> = Vec::new();
        let mut i: usize = 0;
        while i < self.attributes.len()
            invariant
                i <= self.attributes@.len(),
                attributes@ == self.attributes@.subrange(0, i as int),
            decreases self.attributes@.len() - i,
        {
            attributes.push(self.attributes[i].deep_copy());
            proof {
                assert(self.attributes@.subrange(0, i as int).push(self.attributes@[i as int])
                    =~= self.attributes@.subrange(0, i as int + 1));
            }
            i = i + 1;
        }
        proof {
            assert(self.attributes@.subrange(0, self.attributes@.len() as int)
                =~= self.attributes@);
        }
        ClassDecl { name: self.name.clone(), attributes }
    }
}

impl StructDecl {
    pub fn deep_copy(&self) -> (r: StructDecl)
        ensures
            r == *self,
    {
        StructDecl { name: self.name.clone(), return_type: self.return_type.deep_copy() }
    }
}

impl Access {
    pub fn deep_copy(&self) -> (r: Access)
        ensures
            access_view(r) == access_view(*self),
        decreases self, 1int,
    {
        Access {
            receiver: Box::new(self.receiver.deep_copy()),
            message: Box::new(self.message.deep_copy()),
            index: self.index,
            return_type: opt_type_copy(&self.return_type),
        }
    }
}

/// A structural copy of a node sequence: the same nodes, value for value.
pub fn nodes_copy(v: &Vec<Node>) -> (r: Vec<Node>)
    ensures
        nodes_views(r@) == nodes_views(v@),
        r@.len() == v@.len(),
    decreases v@, 0int,
{
    let mut out: Vec<Node> = Vec::new();
    let mut i: usize = 0;
    while i < v.len()
        invariant
            i <= v@.len(),
            out@.len() == i as int,
            forall|k: int| 0 <= k < i ==> node_view(out@[k]) == node_view(v@[k]),
        decreases v@.len() - i,
    {
        proof {
            assert(decreases_to!(v@, 0int => v@[i as int], 2int));
        }
        out.push(v[i].deep_copy());
        i = i + 1;
    }
    proof {
        lemma_nodes_view_props(out@, 0);
        lemma_nodes_view_props(v@, 0);
        assert(nodes_views(out@) =~= nodes_views(v@));
    }
    out
}

impl Node {
    /// A structural copy: the same node, value for value.
    pub fn deep_copy(&self) -> (r: Node)
        ensures
            node_view(r) == node_view(*self),
        decreases self, 2int,
    {
        match self {
            Node::Access(a) => Node::Access(a.deep_copy()),
            Node::AssignAttribute { name, value } => Node::AssignAttribute {
                name: name.clone(),
                value: Box::new(value.deep_copy()),
            },
            Node::AssignAttributeAccess { access, value } => Node::AssignAttributeAccess {
                access: access.deep_copy(),
                value: Box::new(value.deep_copy()),
            },
            Node::AssignConstant { name, value } => Node::AssignConstant {
                name: name.clone(),
                value: Box::new(value.deep_copy()),
            },
            Node::AssignLocalVar { name, value } => Node::AssignLocalVar {
                name: name.clone(),
                value: Box::new(value.deep_copy()),
            },
            Node::Attribute { name } => Node::Attribute { name: name.clone() },
            Node::Array { items, length, item_type } => Node::Array {
                items: nodes_copy(items),
                length: *length,
                item_type: item_type.deep_copy(),
            },
            Node::Binary(b) => Node::Binary(
                Binary {
                    left: Box::new(b.left.deep_copy()),
                    op: b.op.clone(),
                    right: Box::new(b.right.deep_copy()),
                },
            ),
            Node::BuildStruct(b) => Node::BuildStruct(
                BuildStruct {
                    name: b.name.clone(),
                    args: nodes_copy(&b.args),
                    return_type: opt_type_copy(&b.return_type),
                },
            ),
            Node::Call(c) => Node::Call(
                Call {
                    fn_name: c.fn_name.clone(),
                    args: nodes_copy(&c.args),
                    return_type: opt_type_copy(&c.return_type),
                },
            ),
            Node::Class(c) => Node::Class(c.deep_copy()),
            Node::Const { name } => Node::Const { name: name.clone() },
            Node::Def { prototype, body } => Node::Def {
                prototype: prototype.deep_copy(),
                body: nodes_copy(body),
            },
            Node::DefE { prototype } => Node::DefE { prototype: prototype.deep_copy() },
            Node::FnRef { name } => Node::FnRef { name: name.clone() },
            Node::Impl { name } => Node::Impl { name: name.clone() },
            Node::Int { value } => Node::Int { value: *value },
            Node::LocalVar { name, return_type } => Node::LocalVar {
                name: name.clone(),
                return_type: opt_type_copy(return_type),
            },
            Node::Loop { body } => Node::Loop { body: nodes_copy(body) },
            Node::Module { methods } => Node::Module { methods: nodes_copy(methods) },
            Node::Ret(r0) => Node::Ret(Ret { value: Box::new(r0.value.deep_copy()) }),
            Node::SelfRef { return_type } => Node::SelfRef { return_type: return_type.deep_copy() },
            Node::Send(s) => Node::Send(
                Send {
                    receiver: Box::new(s.receiver.deep_copy()),
                    message: Box::new(s.message.deep_copy()),
                    return_type: opt_type_copy(&s.return_type),
                },
            ),
            Node::StringLiteral { value } => Node::StringLiteral { value: value.clone() },
            Node::Struct(s) => Node::Struct(s.deep_copy()),
            Node::Trait { name } => Node::Trait { name: name.clone() },
        }
    }
}

pub proof fn lemma_nodes_view_props(s: Seq<Node>, i: int)
    requires
        0 <= i <= s.len(),
    ensures
        nodes_view(s, i).len() == s.len() - i,
        forall|k: int| 0 <= k < s.len() - i ==> nodes_view(s, i)[k] == node_view(s[i + k]),
    decreases s.len() - i,
{
    if i < s.len() {
        lemma_nodes_view_props(s, i + 1);
    }
}

// ---------------------------------------------------------------------------
// The parser's output

/// The raw declaration tables built by the parser: the classes in
/// declaration order, and the struct shapes keyed by struct name.
#[derive(Debug)]
pub struct ParserIndex {
    pub class_index: Vec<ClassDecl>,
    pub struct_index: StrMap<StructDecl>,
}

/// The parser's output: the module tree and the declaration tables.
#[derive(Debug)]
pub struct ParserResult {
    pub module: Node,
    pub index: ParserIndex,
}

} // verus!
