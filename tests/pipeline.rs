use cpptors::ast::{Diagnostic, Expr, Feature};
use cpptors::document::{Attr, Node};
use cpptors::driver::{translate, Report};
use cpptors::emit::{dump_expr, dump_statement, dump_type};
use cpptors::text::split_words;
use cpptors::registry::Registry;
use cpptors::schema::{decode_expr, parse_program};

fn el(tag: &str, attrs: &[(&str, &str)], children: Vec<Node>) -> Node {
    Node {
        tag: tag.to_string(),
        attrs: attrs
            .iter()
            .map(|(k, v)| Attr { key: k.to_string(), value: v.to_string() })
            .collect(),
        children,
        text: String::new(),
    }
}

fn int_cst(text: &str) -> Node {
    let mut n = el("Integer_Cst", &[], vec![]);
    n.text = text.to_string();
    n
}

fn var(id: &str, name: &str) -> Node {
    el("Var_Decl", &[("id", id), ("name", name)], vec![])
}

fn function(id: &str, name: &str, returns: &str, body: Option<Vec<Node>>) -> Node {
    let children = match body {
        None => vec![],
        Some(stmts) => vec![el(
            "Dump",
            &[("version", "1")],
            vec![el("Body", &[], vec![el("Statement_List", &[], stmts)])],
        )],
    };
    el(
        "Function",
        &[
            ("id", id),
            ("name", name),
            ("returns", returns),
            ("context", ""),
            ("location", "f1:1"),
            ("file", ""),
            ("line", "1"),
            ("endline", "3"),
        ],
        children,
    )
}

fn doc(features: Vec<Node>) -> Node {
    el("GCC_XML", &[("cvs_revision", "1.135")], features)
}

fn int_type() -> Node {
    el("FundamentalType", &[("id", "_2"), ("name", "int")], vec![])
}

fn run(features: Vec<Node>) -> Report {
    translate(&doc(features))
}

#[test]
fn return_of_literal_five() {
    let r = run(vec![
        function("_10", "five", "_2", Some(vec![el("Return_Stmt", &[], vec![int_cst("5")])])),
        int_type(),
    ]);
    assert!(!r.fatal);
    assert_eq!(r.lines, vec!["fn five() -> int", "{", "    return 5", "}"]);
    assert!(r.diagnostics.is_empty());
}

#[test]
fn declare_assign_return_in_order() {
    let r = run(vec![
        int_type(),
        function(
            "_10",
            "seven",
            "_2",
            Some(vec![
                var("_11", "x"),
                el("Modify_Expr", &[], vec![var("_11", "x"), int_cst("7")]),
                el("Return_Stmt", &[], vec![var("_11", "x")]),
            ]),
        ),
    ]);
    assert_eq!(
        r.lines,
        vec!["fn seven() -> int", "{", "    let mut x", "    x = 7", "    return x", "}"]
    );
    assert!(r.diagnostics.is_empty());
}

#[test]
fn statement_order_is_kept() {
    let r = run(vec![
        int_type(),
        function(
            "_10",
            "f",
            "_2",
            Some(vec![var("_11", "c"), var("_12", "a"), var("_13", "b"), int_cst("3"), int_cst("1")]),
        ),
    ]);
    assert_eq!(
        r.lines,
        vec![
            "fn f() -> int",
            "{",
            "    let mut c",
            "    let mut a",
            "    let mut b",
            "    3",
            "    1",
            "}"
        ]
    );
}

#[test]
fn declaration_only_function() {
    let r = run(vec![int_type(), function("_10", "proto", "_2", None)]);
    assert!(!r.fatal);
    assert_eq!(r.lines, vec!["fn proto() -> int;"]);
    assert!(r.diagnostics.is_empty());
    match &r.program.features[1] {
        Feature::Function(g) => assert!(g.body.is_none()),
        _ => panic!("expected a function"),
    }
}

#[test]
fn duplicate_identifier_is_fatal() {
    let r = run(vec![
        int_type(),
        el("Variable", &[("id", "_2"), ("name", "v")], vec![]),
        function("_10", "five", "_2", Some(vec![el("Return_Stmt", &[], vec![int_cst("5")])])),
    ]);
    assert!(r.fatal);
    assert!(r.lines.is_empty());
    assert_eq!(r.diagnostics.len(), 1);
    match &r.diagnostics[0] {
        Diagnostic::DuplicateIdentifier { id, first, second } => {
            assert_eq!(id, "_2");
            assert_eq!(*first, 0);
            assert_eq!(*second, 1);
        }
        d => panic!("unexpected {:?}", d),
    }
}

#[test]
fn unknown_statement_becomes_placeholder() {
    let r = run(vec![
        int_type(),
        function(
            "_10",
            "looping",
            "_2",
            Some(vec![
                var("_11", "x"),
                el("For_Stmt", &[], vec![int_cst("1")]),
                el("Return_Stmt", &[], vec![var("_11", "x")]),
            ]),
        ),
    ]);
    assert!(!r.fatal);
    assert_eq!(
        r.lines,
        vec![
            "fn looping() -> int",
            "{",
            "    let mut x",
            "    /* unsupported: For_Stmt */",
            "    return x",
            "}"
        ]
    );
    assert_eq!(r.diagnostics.len(), 1);
    match &r.diagnostics[0] {
        Diagnostic::UnsupportedConstruct { function, tag } => {
            assert_eq!(function, "_10");
            assert_eq!(tag, "For_Stmt");
        }
        d => panic!("unexpected {:?}", d),
    }
}

#[test]
fn unknown_operand_is_reported_inside_expression() {
    let r = run(vec![
        int_type(),
        function(
            "_10",
            "g",
            "_2",
            Some(vec![el("Return_Stmt", &[], vec![el("Plus_Expr", &[], vec![])])]),
        ),
    ]);
    assert_eq!(r.lines[2], "    return /* unsupported: Plus_Expr */");
    assert_eq!(r.diagnostics.len(), 1);
    assert!(matches!(&r.diagnostics[0], Diagnostic::UnsupportedConstruct { tag, .. } if tag == "Plus_Expr"));
}

#[test]
fn unresolved_return_type_is_isolated() {
    let r = run(vec![
        int_type(),
        function("_10", "lost", "_99", Some(vec![el("Return_Stmt", &[], vec![int_cst("1")])])),
        function("_11", "kept", "_2", None),
    ]);
    assert!(!r.fatal);
    assert_eq!(r.lines, vec!["fn kept() -> int;"]);
    assert_eq!(r.diagnostics.len(), 1);
    match &r.diagnostics[0] {
        Diagnostic::UnresolvedReference { referrer, id } => {
            assert_eq!(referrer, "_10");
            assert_eq!(id, "_99");
        }
        d => panic!("unexpected {:?}", d),
    }
}

#[test]
fn forward_reference_resolves() {
    let r = run(vec![function("_10", "early", "_2", None), int_type()]);
    assert_eq!(r.lines, vec!["fn early() -> int;"]);
    assert!(r.diagnostics.is_empty());
}

#[test]
fn empty_return_reference_omits_arrow() {
    let r = run(vec![function("_10", "unit", "", None)]);
    assert_eq!(r.lines, vec!["fn unit();"]);
}

#[test]
fn missing_id_is_a_schema_error_for_that_feature_only() {
    let r = run(vec![
        int_type(),
        el("Function", &[("name", "anon"), ("returns", "_2")], vec![]),
        function("_10", "kept", "_2", None),
    ]);
    assert_eq!(r.program.features.len(), 2);
    assert_eq!(r.lines, vec!["fn kept() -> int;"]);
    assert_eq!(r.diagnostics.len(), 1);
    match &r.diagnostics[0] {
        Diagnostic::SchemaError { tag, id } => {
            assert_eq!(tag, "Function");
            assert!(id.is_none());
        }
        d => panic!("unexpected {:?}", d),
    }
}

#[test]
fn malformed_body_payload_is_a_schema_error() {
    let r = run(vec![
        int_type(),
        el("Function", &[("id", "_10"), ("name", "odd"), ("returns", "_2")], vec![el("Dump", &[], vec![])]),
    ]);
    assert_eq!(r.program.features.len(), 1);
    assert!(r.lines.is_empty());
    assert!(matches!(&r.diagnostics[0], Diagnostic::SchemaError { id: Some(i), .. } if i == "_10"));
}

#[test]
fn bad_literal_drops_only_that_statement() {
    let r = run(vec![
        int_type(),
        function(
            "_10",
            "f",
            "_2",
            Some(vec![
                int_cst("abc"),
                int_cst("2147483648"),
                el("Return_Stmt", &[], vec![int_cst("-2147483648")]),
            ]),
        ),
    ]);
    assert_eq!(r.lines, vec!["fn f() -> int", "{", "    return -2147483648", "}"]);
    assert_eq!(r.diagnostics.len(), 2);
    assert!(matches!(&r.diagnostics[0], Diagnostic::SchemaError { tag, .. } if tag == "Integer_Cst"));
    assert!(matches!(&r.diagnostics[1], Diagnostic::SchemaError { tag, .. } if tag == "Integer_Cst"));
}

#[test]
fn modify_expr_needs_two_operands() {
    let r = decode_expr(&el("Modify_Expr", &[], vec![var("_1", "x")]), false);
    assert!(matches!(r, Err(Diagnostic::SchemaError { ref tag, .. }) if tag == "Modify_Expr"));
    let r = decode_expr(&el("Return_Stmt", &[], vec![]), false);
    assert!(matches!(r, Err(Diagnostic::SchemaError { ref tag, .. }) if tag == "Return_Stmt"));
}

#[test]
fn result_slot_assignment_keeps_its_target() {
    let r = run(vec![
        int_type(),
        function(
            "_10",
            "three",
            "_2",
            Some(vec![el(
                "Return_Stmt",
                &[],
                vec![el("Modify_Expr", &[], vec![el("Result_Decl", &[], vec![]), int_cst("3")])],
            )]),
        ),
    ]);
    assert_eq!(r.lines, vec!["fn three() -> int", "{", "    return result = 3", "}"]);
}

#[test]
fn result_decl_only_in_expression_position() {
    let e = decode_expr(&el("Result_Decl", &[], vec![]), false).unwrap();
    assert!(matches!(e, Expr::Unknown { ref tag, .. } if tag == "Result_Decl"));
    let e = decode_expr(&el("Result_Decl", &[], vec![]), true).unwrap();
    assert!(matches!(e, Expr::ResultDecl));
    assert_eq!(dump_expr(&e), "result");
}

#[test]
fn unknown_top_level_feature_is_kept_and_resolvable() {
    let r = run(vec![
        el("PointerType", &[("id", "_7"), ("name", "int*")], vec![]),
        el("Struct", &[], vec![]),
        function("_10", "p", "_7", None),
    ]);
    assert_eq!(r.program.features.len(), 3);
    assert!(matches!(&r.program.features[0], Feature::Unknown { tag, .. } if tag == "PointerType"));
    assert!(matches!(&r.program.features[1], Feature::Unknown { id: None, .. }));
    assert_eq!(r.lines, vec!["fn p() -> int*;"]);
    assert!(r.diagnostics.is_empty());
}

#[test]
fn program_fields_are_mapped() {
    let d = doc(vec![
        el(
            "Namespace",
            &[("id", "_1"), ("name", "::"), ("members", "_2 _3"), ("mangled", "_Z2::"), ("demangled", "::")],
            vec![],
        ),
        el("File", &[("id", "f1"), ("name", "a.cpp")], vec![]),
        function("_10", "f", "_2", None),
    ]);
    let (p, diags) = parse_program(&d);
    assert!(diags.is_empty());
    assert_eq!(p.revision, "1.135");
    match &p.features[0] {
        Feature::Namespace { ident, members, mangled, demangled } => {
            assert_eq!(ident.id, "_1");
            assert_eq!(ident.name, "::");
            assert_eq!(members, &vec!["_2".to_string(), "_3".to_string()]);
            assert_eq!(mangled, "_Z2::");
            assert_eq!(demangled, "::");
        }
        f => panic!("unexpected {:?}", f),
    }
    match &p.features[2] {
        Feature::Function(g) => {
            assert_eq!(g.returns, "_2");
            assert_eq!(g.context, "");
            assert_eq!(g.file, "");
            assert_eq!(g.line, "1");
            assert_eq!(g.endline, "3");
        }
        f => panic!("unexpected {:?}", f),
    }
    assert_eq!(p.features[1].get_name().unwrap(), "a.cpp");
    assert_eq!(p.features[1].get_id().unwrap(), "f1");
}

#[test]
fn registry_resolves_in_any_order() {
    let d = doc(vec![function("_10", "f", "_2", None), int_type()]);
    let (p, _) = parse_program(&d);
    let reg = Registry::build(&p.features).ok().unwrap();
    assert_eq!(reg.resolve(&"_2".to_string()), Some(1));
    assert_eq!(reg.resolve(&"_10".to_string()), Some(0));
    assert_eq!(reg.resolve(&"_3".to_string()), None);
    assert_eq!(dump_type(&p.features[1]), "int");
}

#[test]
fn first_attribute_wins() {
    let n = el("Var_Decl", &[("id", "_1"), ("name", "x"), ("name", "y")], vec![]);
    assert_eq!(n.attr("name"), Some("x".to_string()));
    assert_eq!(n.attr("missing"), None);
    let e = decode_expr(&n, false).unwrap();
    assert_eq!(dump_statement(&e), "let mut x");
}

#[test]
fn var_decl_without_name_is_schema_error() {
    let r = decode_expr(&el("Var_Decl", &[("id", "_4")], vec![]), false);
    assert!(matches!(r, Err(Diagnostic::SchemaError { id: Some(ref i), .. }) if i == "_4"));
}

fn with_refs(mut f: Node, context: &str, file: &str) -> Node {
    for a in f.attrs.iter_mut() {
        if a.key == "context" {
            a.value = context.to_string();
        }
        if a.key == "file" {
            a.value = file.to_string();
        }
    }
    f
}

#[test]
fn empty_body_keeps_its_braces() {
    let r = run(vec![int_type(), function("_10", "g", "_2", Some(vec![]))]);
    assert_eq!(r.lines, vec!["fn g() -> int", "{", "}"]);
    assert!(r.diagnostics.is_empty());
}

#[test]
fn context_file_and_members_are_resolved() {
    let r = run(vec![
        el("Namespace", &[("id", "_1"), ("name", "::"), ("members", "_2 _10")], vec![]),
        el("File", &[("id", "f1"), ("name", "a.cpp")], vec![]),
        int_type(),
        with_refs(function("_10", "f", "_2", None), "_1", "f1"),
    ]);
    assert!(r.diagnostics.is_empty());
    assert_eq!(r.lines, vec!["fn f() -> int;"]);
}

#[test]
fn unresolved_context_file_and_members_are_reported() {
    let r = run(vec![
        el("Namespace", &[("id", "_1"), ("name", "::"), ("members", " _2  _77 ")], vec![]),
        int_type(),
        with_refs(function("_10", "f", "_2", None), "_88", "f9"),
    ]);
    assert!(!r.fatal);
    assert_eq!(r.lines, vec!["fn f() -> int;"]);
    assert_eq!(r.diagnostics.len(), 3);
    let got: Vec<(String, String)> = r
        .diagnostics
        .iter()
        .map(|d| match d {
            Diagnostic::UnresolvedReference { referrer, id } => (referrer.clone(), id.clone()),
            d => panic!("unexpected {:?}", d),
        })
        .collect();
    assert_eq!(
        got,
        vec![
            ("_1".to_string(), "_77".to_string()),
            ("_10".to_string(), "_88".to_string()),
            ("_10".to_string(), "f9".to_string())
        ]
    );
}

#[test]
fn body_payload_needs_its_named_levels() {
    let bad = el(
        "Function",
        &[("id", "_10"), ("name", "odd"), ("returns", "_2")],
        vec![el("Dump", &[], vec![el("Block", &[], vec![el("Statement_List", &[], vec![])])])],
    );
    let r = run(vec![int_type(), bad]);
    assert_eq!(r.program.features.len(), 1);
    assert!(r.lines.is_empty());
    assert!(matches!(&r.diagnostics[0], Diagnostic::SchemaError { tag, .. } if tag == "Function"));
}

#[test]
fn only_fundamental_types_have_display_names() {
    let d = doc(vec![
        el("Namespace", &[("id", "_1"), ("name", "::")], vec![]),
        el("Variable", &[("id", "_3"), ("name", "v")], vec![]),
        int_type(),
    ]);
    let (p, _) = parse_program(&d);
    assert_eq!(dump_type(&p.features[0]), "");
    assert_eq!(dump_type(&p.features[1]), "");
    assert_eq!(dump_type(&p.features[2]), "int");
}

#[test]
fn assignment_statement_keeps_target_then_source() {
    let n = el("Modify_Expr", &[], vec![el("Result_Decl", &[], vec![]), int_cst("3")]);
    let e = decode_expr(&n, false).unwrap();
    assert_eq!(dump_statement(&e), "result = 3");
    let n = el("Modify_Expr", &[], vec![var("_1", "y"), int_cst("-4")]);
    let e = decode_expr(&n, false).unwrap();
    assert_eq!(dump_statement(&e), "y = -4");
}

#[test]
fn integer_statement_is_its_literal() {
    let e = decode_expr(&int_cst("2147483647"), false).unwrap();
    assert_eq!(dump_statement(&e), "2147483647");
    assert_eq!(dump_statement(&e).parse::<i32>(), Ok(i32::MAX));
}

#[test]
fn member_lists_split_on_spaces() {
    assert_eq!(split_words(&" a  bc d ".to_string()), vec!["a", "bc", "d"]);
    assert!(split_words(&"   ".to_string()).is_empty());
    assert!(split_words(&String::new()).is_empty());
}

#[test]
fn unknown_nodes_keep_their_element() {
    let mut n = el("For_Stmt", &[("id", "_5")], vec![int_cst("1"), el("Goto_Stmt", &[], vec![])]);
    n.text = "raw".to_string();
    let e = decode_expr(&n, false).unwrap();
    match e {
        Expr::Unknown { tag, payload } => {
            assert_eq!(tag, "For_Stmt");
            assert_eq!(payload.tag, "For_Stmt");
            assert_eq!(payload.text, "raw");
            assert_eq!(payload.attrs.len(), 1);
            assert_eq!(payload.attrs[0].value, "_5");
            assert_eq!(payload.children.len(), 2);
            assert_eq!(payload.children[0].text, "1");
            assert_eq!(payload.children[1].tag, "Goto_Stmt");
        }
        e => panic!("unexpected {:?}", e),
    }
    let r = run(vec![el("Typedef", &[("id", "_6"), ("name", "t")], vec![el("Inner", &[], vec![])])]);
    match &r.program.features[0] {
        Feature::Unknown { payload, .. } => {
            assert_eq!(payload.tag, "Typedef");
            assert_eq!(payload.children[0].tag, "Inner");
        }
        f => panic!("unexpected {:?}", f),
    }
}
