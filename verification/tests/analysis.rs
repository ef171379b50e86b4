use pajama::ast::{
    Access, Arg, AttributeDecl, BaseType, Binary, BuildStruct, Call, ClassDecl, Node, ParserIndex,
    ParserResult, Prototype, Ret, Send, StructDecl,
};
use pajama::semantic_analyzer::{pajama_class_name, SemanticAnalyzer, SemError};
use pajama::strmap::StrMap;

fn def_method(name: &str, args: Vec<Arg>, ret: Option<BaseType>, body: Vec<Node>) -> Node {
    Node::Def {
        prototype: Prototype { name: String::from(name), args, return_type: ret },
        body,
    }
}

fn def_e(name: &str, ret: Option<BaseType>) -> Node {
    Node::DefE {
        prototype: Prototype { name: String::from(name), args: vec![], return_type: ret },
    }
}

fn parser_result(
    methods: Vec<Node>,
    classes: Vec<ClassDecl>,
    structs: Vec<StructDecl>,
) -> ParserResult {
    let mut struct_index = StrMap::new();
    for s in structs {
        struct_index.insert(s.name.clone(), s);
    }
    ParserResult {
        module: Node::Module { methods },
        index: ParserIndex { class_index: classes, struct_index },
    }
}

fn point_class() -> ClassDecl {
    ClassDecl {
        name: String::from("Point"),
        attributes: vec![AttributeDecl {
            name: String::from("x"),
            index: 0,
            return_type: BaseType::Int,
        }],
    }
}

fn methods_of(result: ParserResult) -> Vec<Node> {
    match result.module {
        Node::Module { methods } => methods,
        _ => panic!("resolved module lost its shape"),
    }
}

fn self_x_access() -> Access {
    Access {
        receiver: Box::new(Node::SelfRef {
            return_type: BaseType::Class(String::from("Point")),
        }),
        message: Box::new(Node::Attribute { name: String::from("x") }),
        index: -1,
        return_type: None,
    }
}

#[test]
fn self_attribute_access_gets_slot_and_type() {
    let method = def_method(
        "Point.getx",
        vec![],
        Some(BaseType::Int),
        vec![Node::Ret(Ret { value: Box::new(Node::Access(self_x_access())) })],
    );
    let pr = parser_result(vec![method], vec![point_class()], vec![]);
    let resolved = SemanticAnalyzer::transform_ast(pr).expect("resolution failed");
    let methods = methods_of(resolved);
    match &methods[0] {
        Node::Def { body, .. } => match &body[0] {
            Node::Ret(r) => match &*r.value {
                Node::Access(a) => {
                    assert_eq!(a.index, 0);
                    assert_eq!(a.return_type, Some(BaseType::Int));
                }
                other => panic!("unexpected ret value: {:?}", other),
            },
            other => panic!("unexpected statement: {:?}", other),
        },
        other => panic!("unexpected method: {:?}", other),
    }
}

#[test]
fn call_to_method_declared_later_resolves() {
    let a = def_method(
        "a",
        vec![],
        None,
        vec![Node::Call(Call { fn_name: String::from("b"), args: vec![], return_type: None })],
    );
    let b = def_method("b", vec![], Some(BaseType::Int), vec![]);
    let pr = parser_result(vec![a, b], vec![], vec![]);
    let resolved = SemanticAnalyzer::transform_ast(pr).expect("resolution failed");
    let methods = methods_of(resolved);
    match &methods[0] {
        Node::Def { body, .. } => match &body[0] {
            Node::Call(c) => assert_eq!(c.return_type, Some(BaseType::Int)),
            other => panic!("unexpected statement: {:?}", other),
        },
        other => panic!("unexpected method: {:?}", other),
    }
}

fn send_through_local() -> Vec<Node> {
    let use_site = def_method(
        "use_site",
        vec![Arg {
            name: String::from("obj"),
            return_type: BaseType::Class(String::from("Point")),
        }],
        None,
        vec![Node::Send(Send {
            receiver: Box::new(Node::LocalVar { name: String::from("obj"), return_type: None }),
            message: Box::new(Node::Call(Call {
                fn_name: String::from("dist"),
                args: vec![],
                return_type: None,
            })),
            return_type: None,
        })],
    );
    let target = def_method("Point.dist", vec![], Some(BaseType::Int), vec![]);
    vec![use_site, target]
}

#[test]
fn send_rewrites_message_to_qualified_name() {
    let pr = parser_result(send_through_local(), vec![point_class()], vec![]);
    let resolved = SemanticAnalyzer::transform_ast(pr).expect("resolution failed");
    let methods = methods_of(resolved);
    match &methods[0] {
        Node::Def { body, .. } => match &body[0] {
            Node::Send(s) => {
                match &*s.message {
                    Node::Call(c) => assert_eq!(c.fn_name, "Point.dist"),
                    other => panic!("unexpected message: {:?}", other),
                }
                assert_eq!(s.return_type, Some(BaseType::Int));
            }
            other => panic!("unexpected statement: {:?}", other),
        },
        other => panic!("unexpected method: {:?}", other),
    }
}

#[test]
fn re_resolving_a_resolved_tree_changes_nothing() {
    let pr = parser_result(send_through_local(), vec![point_class()], vec![]);
    let once = SemanticAnalyzer::transform_ast(pr).expect("first resolution failed");
    let first_module = match &once.module {
        Node::Module { methods } => pajama::ast::nodes_copy(methods),
        _ => panic!("module lost"),
    };
    let twice = SemanticAnalyzer::transform_ast(once).expect("second resolution failed");
    let second_module = methods_of(twice);
    assert_eq!(first_module, second_module);
}

#[test]
fn unknown_method_name_as_receiver_becomes_function_reference() {
    let use_site = def_method(
        "use_site",
        vec![],
        None,
        vec![Node::Send(Send {
            receiver: Box::new(Node::LocalVar { name: String::from("helper"), return_type: None }),
            message: Box::new(Node::Call(Call {
                fn_name: String::from("call"),
                args: vec![],
                return_type: None,
            })),
            return_type: None,
        })],
    );
    let helper = def_method("helper", vec![], None, vec![]);
    let pr = parser_result(vec![use_site, helper], vec![], vec![]);
    let resolved = SemanticAnalyzer::transform_ast(pr).expect("resolution failed");
    let methods = methods_of(resolved);
    match &methods[0] {
        Node::Def { body, .. } => match &body[0] {
            Node::Send(s) => {
                assert_eq!(s.return_type, Some(BaseType::FnRef));
                match &*s.receiver {
                    Node::LocalVar { return_type, .. } => {
                        assert_eq!(*return_type, Some(BaseType::FnRef))
                    }
                    other => panic!("unexpected receiver: {:?}", other),
                }
            }
            other => panic!("unexpected statement: {:?}", other),
        },
        other => panic!("unexpected method: {:?}", other),
    }
}

#[test]
fn constructor_send_produces_class_type() {
    let use_site = def_method(
        "use_site",
        vec![],
        None,
        vec![Node::Send(Send {
            receiver: Box::new(Node::Const { name: String::from("Point") }),
            message: Box::new(Node::Call(Call {
                fn_name: String::from("new"),
                args: vec![],
                return_type: None,
            })),
            return_type: None,
        })],
    );
    let ctor = def_method("Point.new", vec![], None, vec![]);
    let pr = parser_result(vec![use_site, ctor], vec![point_class()], vec![]);
    let resolved = SemanticAnalyzer::transform_ast(pr).expect("resolution failed");
    let methods = methods_of(resolved);
    match &methods[0] {
        Node::Def { body, .. } => match &body[0] {
            Node::Send(s) => {
                assert_eq!(s.return_type, Some(BaseType::Class(String::from("Point"))));
                match &*s.message {
                    Node::Call(c) => assert_eq!(c.fn_name, "Point.new"),
                    other => panic!("unexpected message: {:?}", other),
                }
            }
            other => panic!("unexpected statement: {:?}", other),
        },
        other => panic!("unexpected method: {:?}", other),
    }
}

#[test]
fn assignment_records_most_recent_type() {
    let method = def_method(
        "m",
        vec![],
        None,
        vec![
            Node::AssignLocalVar {
                name: String::from("v"),
                value: Box::new(Node::Int { value: 3 }),
            },
            Node::AssignLocalVar {
                name: String::from("v"),
                value: Box::new(Node::StringLiteral { value: String::from("hi") }),
            },
            Node::Ret(Ret {
                value: Box::new(Node::LocalVar { name: String::from("v"), return_type: None }),
            }),
        ],
    );
    let pr = parser_result(vec![method], vec![], vec![]);
    let resolved = SemanticAnalyzer::transform_ast(pr).expect("resolution failed");
    let methods = methods_of(resolved);
    match &methods[0] {
        Node::Def { body, .. } => match &body[2] {
            Node::Ret(r) => match &*r.value {
                Node::LocalVar { return_type, .. } => {
                    assert_eq!(*return_type, Some(BaseType::Class(String::from("Str"))))
                }
                other => panic!("unexpected value: {:?}", other),
            },
            other => panic!("unexpected statement: {:?}", other),
        },
        other => panic!("unexpected method: {:?}", other),
    }
}

#[test]
fn binary_takes_right_operand_type() {
    let method = def_method(
        "m",
        vec![],
        None,
        vec![Node::AssignLocalVar {
            name: String::from("v"),
            value: Box::new(Node::Binary(Binary {
                left: Box::new(Node::Int { value: 1 }),
                op: String::from("+"),
                right: Box::new(Node::Call(Call {
                    fn_name: String::from("f"),
                    args: vec![],
                    return_type: None,
                })),
            })),
        }],
    );
    let f = def_e("f", Some(BaseType::Int64));
    let pr = parser_result(vec![method, f], vec![], vec![]);
    let resolved = SemanticAnalyzer::transform_ast(pr).expect("resolution failed");
    let methods = methods_of(resolved);
    match &methods[0] {
        Node::Def { body, .. } => match &body[0] {
            Node::AssignLocalVar { value, .. } => match &**value {
                Node::Binary(b) => match &*b.right {
                    Node::Call(c) => assert_eq!(c.return_type, Some(BaseType::Int64)),
                    other => panic!("unexpected right operand: {:?}", other),
                },
                other => panic!("unexpected value: {:?}", other),
            },
            other => panic!("unexpected statement: {:?}", other),
        },
        other => panic!("unexpected method: {:?}", other),
    }
}

#[test]
fn build_struct_takes_declared_type() {
    let method = def_method(
        "m",
        vec![],
        None,
        vec![Node::AssignLocalVar {
            name: String::from("v"),
            value: Box::new(Node::BuildStruct(BuildStruct {
                name: String::from("Pair"),
                args: vec![Node::Int { value: 1 }],
                return_type: None,
            })),
        }],
    );
    let pair = StructDecl {
        name: String::from("Pair"),
        return_type: BaseType::Struct(String::from("Pair")),
    };
    let pr = parser_result(vec![method], vec![], vec![pair]);
    let resolved = SemanticAnalyzer::transform_ast(pr).expect("resolution failed");
    let methods = methods_of(resolved);
    match &methods[0] {
        Node::Def { body, .. } => match &body[0] {
            Node::AssignLocalVar { value, .. } => match &**value {
                Node::BuildStruct(b) => assert_eq!(
                    b.return_type,
                    Some(BaseType::Struct(String::from("Pair")))
                ),
                other => panic!("unexpected value: {:?}", other),
            },
            other => panic!("unexpected statement: {:?}", other),
        },
        other => panic!("unexpected method: {:?}", other),
    }
}

#[test]
fn unresolved_local_variable_is_reported() {
    let method = def_method(
        "m",
        vec![],
        None,
        vec![Node::Ret(Ret {
            value: Box::new(Node::LocalVar { name: String::from("ghostly"), return_type: None }),
        })],
    );
    let pr = parser_result(vec![method], vec![], vec![]);
    let err = SemanticAnalyzer::transform_ast(pr).expect_err("resolution unexpectedly succeeded");
    assert_eq!(err, SemError::UnresolvedLocalVariable(String::from("ghostly")));
}

#[test]
fn unresolved_attribute_is_reported() {
    let method = def_method(
        "m",
        vec![],
        None,
        vec![Node::Access(Access {
            receiver: Box::new(Node::SelfRef {
                return_type: BaseType::Class(String::from("Point")),
            }),
            message: Box::new(Node::Attribute { name: String::from("y") }),
            index: -1,
            return_type: None,
        })],
    );
    let pr = parser_result(vec![method], vec![point_class()], vec![]);
    let err = SemanticAnalyzer::transform_ast(pr).expect_err("resolution unexpectedly succeeded");
    assert_eq!(
        err,
        SemError::UnresolvedAttribute(String::from("Point"), String::from("y"))
    );
}

#[test]
fn unresolved_method_is_reported_with_qualified_name() {
    let pr = parser_result(
        vec![send_through_local().into_iter().next().unwrap()],
        vec![point_class()],
        vec![],
    );
    let err = SemanticAnalyzer::transform_ast(pr).expect_err("resolution unexpectedly succeeded");
    assert_eq!(err, SemError::UnresolvedMethod(String::from("Point.dist")));
}

#[test]
fn unresolved_struct_is_reported() {
    let method = def_method(
        "m",
        vec![],
        None,
        vec![Node::AssignLocalVar {
            name: String::from("v"),
            value: Box::new(Node::BuildStruct(BuildStruct {
                name: String::from("Mystery"),
                args: vec![],
                return_type: None,
            })),
        }],
    );
    let pr = parser_result(vec![method], vec![], vec![]);
    let err = SemanticAnalyzer::transform_ast(pr).expect_err("resolution unexpectedly succeeded");
    assert_eq!(err, SemError::UnresolvedStruct(String::from("Mystery")));
}

#[test]
fn unsupported_statement_is_reported() {
    let method = def_method(
        "m",
        vec![],
        None,
        vec![Node::Trait { name: String::from("T") }],
    );
    let pr = parser_result(vec![method], vec![], vec![]);
    let err = SemanticAnalyzer::transform_ast(pr).expect_err("resolution unexpectedly succeeded");
    assert_eq!(err, SemError::UnsupportedExpressionShape(String::from("statement")));
}

#[test]
fn duplicate_attribute_keeps_the_later_declaration() {
    let class = ClassDecl {
        name: String::from("Point"),
        attributes: vec![
            AttributeDecl { name: String::from("x"), index: 0, return_type: BaseType::Int },
            AttributeDecl { name: String::from("x"), index: 1, return_type: BaseType::Byte },
        ],
    };
    let method = def_method(
        "Point.getx",
        vec![],
        Some(BaseType::Byte),
        vec![Node::Access(self_x_access())],
    );
    let pr = parser_result(vec![method], vec![class], vec![]);
    let resolved = SemanticAnalyzer::transform_ast(pr).expect("resolution failed");
    let methods = methods_of(resolved);
    match &methods[0] {
        Node::Def { body, .. } => match &body[0] {
            Node::Access(a) => {
                assert_eq!(a.index, 1);
                assert_eq!(a.return_type, Some(BaseType::Byte));
            }
            other => panic!("unexpected statement: {:?}", other),
        },
        other => panic!("unexpected method: {:?}", other),
    }
}

#[test]
fn loop_body_statements_are_resolved() {
    let method = def_method(
        "m",
        vec![],
        None,
        vec![Node::Loop {
            body: vec![Node::Call(Call {
                fn_name: String::from("tick"),
                args: vec![],
                return_type: None,
            })],
        }],
    );
    let tick = def_e("tick", Some(BaseType::Void));
    let pr = parser_result(vec![method, tick], vec![], vec![]);
    let resolved = SemanticAnalyzer::transform_ast(pr).expect("resolution failed");
    let methods = methods_of(resolved);
    match &methods[0] {
        Node::Def { body, .. } => match &body[0] {
            Node::Loop { body: inner } => match &inner[0] {
                Node::Call(c) => assert_eq!(c.return_type, Some(BaseType::Void)),
                other => panic!("unexpected loop statement: {:?}", other),
            },
            other => panic!("unexpected statement: {:?}", other),
        },
        other => panic!("unexpected method: {:?}", other),
    }
}

#[test]
fn run_records_the_failure_in_diagnostics() {
    let method = def_method(
        "m",
        vec![],
        None,
        vec![Node::Call(Call {
            fn_name: String::from("missing"),
            args: vec![],
            return_type: None,
        })],
    );
    let pr = parser_result(vec![method], vec![], vec![]);
    let analyzer = SemanticAnalyzer::run(pr).expect_err("resolution unexpectedly succeeded");
    assert_eq!(analyzer.diagnostics.errors.len(), 1);
    assert_eq!(
        analyzer.diagnostics.errors[0],
        SemError::UnresolvedMethod(String::from("missing"))
    );
}

#[test]
fn class_names_of_base_types() {
    assert_eq!(pajama_class_name(&BaseType::Int), "Int");
    assert_eq!(pajama_class_name(&BaseType::Int16), "Int16");
    assert_eq!(pajama_class_name(&BaseType::Int32), "Int32");
    assert_eq!(pajama_class_name(&BaseType::Int64), "Int64");
    assert_eq!(pajama_class_name(&BaseType::Byte), "Byte");
    assert_eq!(pajama_class_name(&BaseType::BytePtr), "BytePtr");
    assert_eq!(pajama_class_name(&BaseType::Void), "");
    assert_eq!(pajama_class_name(&BaseType::FnRef), "FnRef");
    assert_eq!(
        pajama_class_name(&BaseType::Class(String::from("Point"))),
        "Point"
    );
    assert_eq!(
        pajama_class_name(&BaseType::Struct(String::from("Pair"))),
        "Struct"
    );
    assert_eq!(
        pajama_class_name(&BaseType::Array(3, Box::new(BaseType::Int))),
        "Array"
    );
}

#[test]
fn array_literal_resolves_items_and_takes_declared_shape() {
    let method = def_method(
        "m",
        vec![],
        None,
        vec![Node::AssignLocalVar {
            name: String::from("v"),
            value: Box::new(Node::Array {
                items: vec![Node::Int { value: 1 }, Node::Int { value: 2 }],
                length: 2,
                item_type: BaseType::Int,
            }),
        }, Node::Ret(Ret {
            value: Box::new(Node::LocalVar { name: String::from("v"), return_type: None }),
        })],
    );
    let pr = parser_result(vec![method], vec![], vec![]);
    let resolved = SemanticAnalyzer::transform_ast(pr).expect("resolution failed");
    let methods = methods_of(resolved);
    match &methods[0] {
        Node::Def { body, .. } => match &body[1] {
            Node::Ret(r) => match &*r.value {
                Node::LocalVar { return_type, .. } => assert_eq!(
                    *return_type,
                    Some(BaseType::Array(2, Box::new(BaseType::Int)))
                ),
                other => panic!("unexpected value: {:?}", other),
            },
            other => panic!("unexpected statement: {:?}", other),
        },
        other => panic!("unexpected method: {:?}", other),
    }
}
