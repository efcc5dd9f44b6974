use hunnu_compiler::ast::{ASTNode, LiteralType, LiteralValue, NodeData, TokenType};
use hunnu_compiler::ir::{Inst, IntPred, IrModule, Operand, Symbol, Ty};
use hunnu_compiler::state::CodeGen;
use hunnu_compiler::text::{decimal_string, has_nul, utf8_length};

fn node(data: NodeData) -> ASTNode {
    ASTNode { data }
}

fn b(data: NodeData) -> Box<ASTNode> {
    Box::new(node(data))
}

fn int_lit(v: i64) -> NodeData {
    NodeData::Literal { literal_type: LiteralType::Int, value: LiteralValue::Int(v) }
}

fn boolean(v: bool) -> NodeData {
    NodeData::Literal { literal_type: LiteralType::Bool, value: LiteralValue::Bool(v) }
}

fn string(s: &str) -> NodeData {
    NodeData::Literal { literal_type: LiteralType::String, value: LiteralValue::String(s.to_string()) }
}

fn ident(name: &str) -> NodeData {
    NodeData::Identifier { name: name.to_string() }
}

fn binary(op: TokenType, l: NodeData, r: NodeData) -> NodeData {
    NodeData::BinaryExpr { operator: op, left: b(l), right: b(r) }
}

fn let_(name: &str, init: NodeData) -> NodeData {
    NodeData::VarDecl { name: name.to_string(), initializer: b(init) }
}

fn print(arg: NodeData) -> NodeData {
    NodeData::PrintStmt { argument: b(arg) }
}

fn block(stmts: Vec<NodeData>) -> NodeData {
    NodeData::Block { statements: stmts.into_iter().map(node).collect() }
}

fn func(name: &str, params: &[&str], body: Vec<NodeData>) -> NodeData {
    NodeData::FnDecl {
        name: name.to_string(),
        params: params.iter().map(|p| p.to_string()).collect(),
        body: b(block(body)),
    }
}

fn program(stmts: Vec<NodeData>) -> ASTNode {
    node(NodeData::Program { statements: stmts.into_iter().map(node).collect() })
}

fn call(name: &str, args: Vec<NodeData>) -> NodeData {
    NodeData::CallExpr { name: name.to_string(), args: args.into_iter().map(node).collect() }
}

fn generate(p: &ASTNode) -> (CodeGen, Result<(), String>) {
    let mut codegen = CodeGen::new("test_module");
    let r = codegen.generate(p);
    (codegen, r)
}

fn generate_ok(p: &ASTNode) -> bool {
    generate(p).1.is_ok()
}

fn text(m: &IrModule, i: usize) -> &str {
    m.strings[i].as_str()
}

fn function_names(m: &IrModule) -> Vec<String> {
    m.functions.iter().map(|f| m.strings[f.name].clone()).collect()
}

#[test]
fn test_codegen_empty_program() {
    assert!(generate_ok(&program(vec![])));
}

#[test]
fn test_codegen_var_decl() {
    assert!(generate_ok(&program(vec![let_("x", int_lit(42))])));
}

#[test]
fn test_codegen_arithmetic() {
    let e = binary(TokenType::Plus, int_lit(3), binary(TokenType::Star, int_lit(4), int_lit(5)));
    assert!(generate_ok(&program(vec![let_("x", e)])));
}

#[test]
fn test_codegen_comparison() {
    assert!(generate_ok(&program(vec![let_("x", binary(TokenType::Gt, int_lit(10), int_lit(5)))])));
}

#[test]
fn test_codegen_equality() {
    assert!(generate_ok(&program(vec![let_("x", binary(TokenType::Eq, int_lit(1), int_lit(2)))])));
}

#[test]
fn test_codegen_fn_decl() {
    assert!(generate_ok(&program(vec![func("main", &[], vec![print(int_lit(42))])])));
}

#[test]
fn test_codegen_fn_with_params() {
    let ret = NodeData::ReturnStmt { value: Some(b(binary(TokenType::Plus, ident("a"), ident("b")))) };
    assert!(generate_ok(&program(vec![func("add", &["a", "b"], vec![ret])])));
}

#[test]
fn test_codegen_if_stmt() {
    let s = NodeData::IfStmt { condition: b(int_lit(1)), then_branch: b(block(vec![print(int_lit(1))])), else_branch: None };
    assert!(generate_ok(&program(vec![func("main", &[], vec![s])])));
}

#[test]
fn test_codegen_if_else() {
    let s = NodeData::IfStmt {
        condition: b(int_lit(1)),
        then_branch: b(block(vec![print(int_lit(1))])),
        else_branch: Some(b(block(vec![print(int_lit(2))]))),
    };
    assert!(generate_ok(&program(vec![func("main", &[], vec![s])])));
}

#[test]
fn test_codegen_while_loop() {
    let s = NodeData::WhileStmt { condition: b(int_lit(1)), body: b(block(vec![print(int_lit(1))])) };
    assert!(generate_ok(&program(vec![func("main", &[], vec![s])])));
}

#[test]
fn test_codegen_for_loop() {
    let s = NodeData::ForStmt {
        initializer: Some(b(let_("i", int_lit(0)))),
        condition: Some(b(binary(TokenType::Lt, ident("i"), int_lit(10)))),
        update: Some(b(NodeData::Assign { name: "i".to_string(), value: b(binary(TokenType::Plus, ident("i"), int_lit(1))) })),
        body: b(block(vec![print(ident("i"))])),
    };
    assert!(generate_ok(&program(vec![func("main", &[], vec![s])])));
}

#[test]
fn test_codegen_break_continue() {
    let w = |s: NodeData| NodeData::WhileStmt { condition: b(int_lit(1)), body: b(block(vec![s])) };
    assert!(generate_ok(&program(vec![func("main", &[], vec![w(NodeData::BreakStmt)])])));
    assert!(generate_ok(&program(vec![func("main", &[], vec![w(NodeData::ContinueStmt)])])));
}

#[test]
fn test_codegen_assignment() {
    let assign = NodeData::ExprStmt {
        expression: b(NodeData::Assign { name: "x".to_string(), value: b(binary(TokenType::Plus, ident("x"), int_lit(1))) }),
    };
    assert!(generate_ok(&program(vec![func("main", &[], vec![let_("x", int_lit(5)), assign])])));
}

#[test]
fn test_codegen_unary_minus() {
    let e = NodeData::UnaryExpr { operator: TokenType::Minus, operand: b(int_lit(5)) };
    assert!(generate_ok(&program(vec![let_("x", e)])));
}

#[test]
fn test_codegen_logical_not() {
    let e = NodeData::UnaryExpr { operator: TokenType::Not, operand: b(boolean(true)) };
    assert!(generate_ok(&program(vec![let_("x", e)])));
}

fn array123() -> NodeData {
    NodeData::ArrayExpr { elements: vec![node(int_lit(1)), node(int_lit(2)), node(int_lit(3))] }
}

#[test]
fn test_codegen_array() {
    assert!(generate_ok(&program(vec![func("main", &[], vec![let_("arr", array123())])])));
}

#[test]
fn test_codegen_index_expr() {
    let idx = NodeData::IndexExpr { array: b(ident("arr")), index: b(int_lit(0)) };
    assert!(generate_ok(&program(vec![func("main", &[], vec![let_("arr", array123()), let_("v", idx)])])));
}

#[test]
fn test_codegen_string_concat() {
    let e = NodeData::StringConcat { left: b(string("hello")), right: b(string(" world")) };
    assert!(generate_ok(&program(vec![func("main", &[], vec![let_("s", e)])])));
}

fn match_x() -> NodeData {
    NodeData::MatchExpr {
        value: b(ident("x")),
        patterns: vec![node(int_lit(1)), node(int_lit(2))],
        bodies: vec![node(int_lit(10)), node(int_lit(20))],
    }
}

#[test]
fn test_codegen_match_expr() {
    assert!(generate_ok(&program(vec![func("main", &[], vec![let_("x", int_lit(1)), let_("y", match_x())])])));
}

fn extern_puts() -> NodeData {
    NodeData::ExternFn {
        name: "puts".to_string(),
        params: vec!["s".to_string()],
        returns_int: 1,
        library: "libc.so.6".to_string(),
    }
}

#[test]
fn test_codegen_extern_fn() {
    assert!(generate_ok(&program(vec![extern_puts()])));
}

#[test]
fn test_codegen_try_catch() {
    let t = NodeData::TryStmt {
        try_block: b(block(vec![print(int_lit(1))])),
        catch_var: None,
        catch_block: Some(b(block(vec![print(int_lit(2))]))),
        finally_block: None,
    };
    assert!(generate_ok(&program(vec![func("main", &[], vec![t])])));
}

#[test]
fn test_codegen_block() {
    let inner = block(vec![let_("x", int_lit(1)), print(ident("x"))]);
    assert!(generate_ok(&program(vec![func("main", &[], vec![inner])])));
}

#[test]
fn test_codegen_return() {
    let ret = NodeData::ReturnStmt { value: Some(b(int_lit(42))) };
    assert!(generate_ok(&program(vec![func("f", &[], vec![ret])])));
}

#[test]
fn test_codegen_nested_blocks() {
    let w = NodeData::WhileStmt { condition: b(int_lit(1)), body: b(block(vec![print(int_lit(1))])) };
    let s = NodeData::IfStmt { condition: b(int_lit(1)), then_branch: b(block(vec![w])), else_branch: None };
    assert!(generate_ok(&program(vec![func("main", &[], vec![s])])));
}

fn full_program() -> ASTNode {
    let ret = NodeData::ReturnStmt { value: Some(b(binary(TokenType::Plus, ident("a"), ident("b")))) };
    program(vec![
        func("add", &["a", "b"], vec![ret]),
        func(
            "main",
            &[],
            vec![
                let_("x", int_lit(10)),
                let_("y", int_lit(20)),
                let_("z", call("add", vec![ident("x"), ident("y")])),
                print(ident("z")),
            ],
        ),
    ])
}

#[test]
fn test_codegen_full_program() {
    assert!(generate_ok(&full_program()));
}

// ---------------------------------------------------------------------------------------

#[test]
fn not_a_program_is_refused() {
    let (cg, r) = generate(&node(int_lit(1)));
    assert_eq!(r, Err("Expected program node".to_string()));
    assert!(cg.module().insts.is_empty());
}

#[test]
fn unknown_function_is_refused() {
    let p = program(vec![func("main", &[], vec![NodeData::ExprStmt { expression: b(call("foo", vec![])) }])]);
    assert_eq!(generate(&p).1, Err("Unknown function 'foo'".to_string()));
}

#[test]
fn function_declared_later_is_unknown_at_call() {
    let p = program(vec![
        func("main", &[], vec![NodeData::ExprStmt { expression: b(call("g", vec![])) }]),
        func("g", &[], vec![]),
    ]);
    assert_eq!(generate(&p).1, Err("Unknown function 'g'".to_string()));
}

#[test]
fn extern_declared_after_use_resolves() {
    let p = program(vec![
        func("main", &[], vec![NodeData::ExprStmt { expression: b(call("puts", vec![int_lit(1)])) }]),
        extern_puts(),
    ]);
    let (cg, r) = generate(&p);
    assert!(r.is_ok());
    let m = cg.module();
    assert_eq!(function_names(m), vec!["puts".to_string(), "main".to_string()]);
    assert_eq!(m.functions[0].ret, Ty::I64);
    assert_eq!(m.functions[0].param_count, 1);
}

#[test]
fn extern_return_kinds() {
    let ext = |name: &str, kind: i32| NodeData::ExternFn {
        name: name.to_string(),
        params: vec![],
        returns_int: kind,
        library: String::new(),
    };
    let p = program(vec![ext("a", 0), ext("b", 1), ext("c", 2), ext("d", 3), ext("a", 1)]);
    let (cg, r) = generate(&p);
    assert!(r.is_ok());
    let m = cg.module();
    let rets: Vec<Ty> = m.functions.iter().map(|f| f.ret).collect();
    assert_eq!(rets, vec![Ty::Void, Ty::I64, Ty::BytePtr, Ty::Double]);
}

#[test]
fn literal_kind_mismatch_is_refused() {
    let bad = |lt: LiteralType, lv: LiteralValue| {
        program(vec![let_("x", NodeData::Literal { literal_type: lt, value: lv })])
    };
    assert_eq!(generate(&bad(LiteralType::Int, LiteralValue::Bool(true))).1, Err("Expected int literal".to_string()));
    assert_eq!(generate(&bad(LiteralType::Float, LiteralValue::Int(1))).1, Err("Expected float literal".to_string()));
    assert_eq!(generate(&bad(LiteralType::Bool, LiteralValue::Int(1))).1, Err("Expected bool literal".to_string()));
    assert_eq!(generate(&bad(LiteralType::String, LiteralValue::Int(1))).1, Err("Expected string literal".to_string()));
}

#[test]
fn print_int_calls_printf_with_format() {
    let (cg, r) = generate(&program(vec![func("main", &[], vec![print(int_lit(42))])]));
    assert!(r.is_ok());
    let m = cg.module();
    assert_eq!(function_names(m), vec!["main".to_string(), "printf".to_string()]);
    let pf = &m.functions[1];
    assert!(pf.vararg);
    assert_eq!(pf.ret, Ty::I32);
    assert_eq!(pf.param_ty, Ty::BytePtr);
    assert_eq!(m.globals.len(), 1);
    assert_eq!(text(m, m.globals[0].name), "int_fmt");
    assert_eq!(text(m, m.globals[0].content), "%lld\n");
    let calls: Vec<&Inst> = m.insts.iter().map(|p| &p.inst).filter(|i| matches!(i, Inst::Call { .. })).collect();
    assert_eq!(calls.len(), 1);
    if let Inst::Call { callee, args_start, args_len, .. } = calls[0] {
        assert_eq!(*callee, 1);
        assert_eq!(*args_len, 2);
        assert_eq!(m.args[args_start + 1], Operand::ConstI64(42));
    }
    // main's block ends with `ret i64 0`.
    assert_eq!(m.insts.last().unwrap().inst, Inst::Ret { value: Operand::ConstI64(0) });
    assert!(m.target_default);
}

#[test]
fn printf_declared_once() {
    let (cg, r) = generate(&program(vec![func("main", &[], vec![print(int_lit(1)), print(string("s")), print(int_lit(3))])]));
    assert!(r.is_ok());
    let names = function_names(cg.module());
    assert_eq!(names.iter().filter(|n| n.as_str() == "printf").count(), 1);
}

#[test]
fn string_literal_global() {
    let (cg, r) = generate(&program(vec![func("main", &[], vec![print(string("héllo"))])]));
    assert!(r.is_ok());
    let m = cg.module();
    // The literal's global is named by its length in bytes.
    assert_eq!(text(m, m.globals[0].name), "str_6");
    assert_eq!(text(m, m.globals[0].content), "héllo");
    assert_eq!(text(m, m.globals[1].name), "str_fmt");
    let gep = m.insts[0].inst;
    assert_eq!(
        gep,
        Inst::InBoundsGep {
            elem: Ty::ArrayI8(7),
            ptr: Operand::Global(0),
            first: Operand::ConstI32(0),
            second: Operand::ConstI32(0),
            name: match gep {
                Inst::InBoundsGep { name, .. } => name,
                _ => 0,
            },
        }
    );
}

#[test]
fn string_literal_with_nul_is_stored_empty() {
    let (cg, r) = generate(&program(vec![func("main", &[], vec![print(string("a\0b"))])]));
    assert!(r.is_ok());
    let m = cg.module();
    assert_eq!(text(m, m.globals[0].name), "str_3");
    assert_eq!(text(m, m.globals[0].content), "");
}

#[test]
fn return_is_not_followed_by_another() {
    let (cg, r) = generate(&program(vec![func("f", &[], vec![NodeData::ReturnStmt { value: None }])]));
    assert!(r.is_ok());
    let m = cg.module();
    assert_eq!(m.insts.len(), 1);
    assert_eq!(m.insts[0].inst, Inst::RetVoid);
    assert!(m.blocks[0].terminated);
}

#[test]
fn void_function_gets_ret_void() {
    let (cg, r) = generate(&program(vec![func("f", &["a"], vec![])]));
    assert!(r.is_ok());
    let m = cg.module();
    assert_eq!(m.functions[0].ret, Ty::Void);
    assert!(!m.target_default);
    assert_eq!(m.param_names.len(), 1);
    assert_eq!(text(m, m.param_names[0].name), "a");
    assert_eq!(m.insts.last().unwrap().inst, Inst::RetVoid);
}

#[test]
fn break_outside_loop_emits_nothing() {
    let (cg, r) = generate(&program(vec![func("f", &[], vec![NodeData::BreakStmt, NodeData::ContinueStmt])]));
    assert!(r.is_ok());
    assert_eq!(cg.module().insts.len(), 1);
}

#[test]
fn break_branches_to_loop_end() {
    let w = NodeData::WhileStmt { condition: b(int_lit(1)), body: b(block(vec![NodeData::BreakStmt])) };
    let (cg, r) = generate(&program(vec![func("main", &[], vec![w])]));
    assert!(r.is_ok());
    let m = cg.module();
    let labels: Vec<&str> = m.blocks.iter().map(|bl| text(m, bl.label)).collect();
    assert_eq!(labels, vec!["entry", "while_cond", "while_body", "while_end"]);
    assert!(m.insts.iter().any(|p| p.block == Some(2) && p.inst == Inst::Br { target: 3 }));
    // The body ends with the break, so no branch back to the condition is added there.
    assert!(!m.insts.iter().any(|p| p.block == Some(2) && p.inst == Inst::Br { target: 1 }));
}

#[test]
fn continue_in_for_branches_to_update() {
    let f = NodeData::ForStmt {
        initializer: None,
        condition: None,
        update: None,
        body: b(block(vec![NodeData::ContinueStmt])),
    };
    let (cg, r) = generate(&program(vec![func("main", &[], vec![f])]));
    assert!(r.is_ok());
    let m = cg.module();
    let labels: Vec<&str> = m.blocks.iter().map(|bl| text(m, bl.label)).collect();
    assert_eq!(labels, vec!["entry", "for_cond", "for_body", "for_update", "for_end"]);
    assert!(m.insts.iter().any(|p| p.block == Some(2) && p.inst == Inst::Br { target: 3 }));
    // Without a condition the loop tests the constant 1.
    assert!(m.insts.iter().any(|p| matches!(p.inst, Inst::ICmp { pred: IntPred::Ne, lhs: Operand::ConstI64(1), .. })));
}

#[test]
fn match_arms_blocks() {
    let (cg, r) = generate(&program(vec![func("main", &[], vec![let_("x", int_lit(1)), let_("y", match_x())])]));
    assert!(r.is_ok());
    let m = cg.module();
    let labels: Vec<&str> = m.blocks.iter().map(|bl| text(m, bl.label)).collect();
    assert_eq!(labels, vec!["entry", "match_end", "match_arm_0", "match_arm_body_0", "match_arm_body_1"]);
}

#[test]
fn field_access_uses_field_index() {
    let ty = NodeData::TypeDecl { name: "Point".to_string(), fields: vec!["x".to_string(), "y".to_string()] };
    let fa = NodeData::FieldAccess { object: b(ident("p")), field: "y".to_string() };
    let (cg, r) = generate(&program(vec![ty, func("main", &[], vec![let_("p", int_lit(0)), print(fa)])]));
    assert!(r.is_ok());
    let m = cg.module();
    assert_eq!(m.structs.len(), 1);
    assert_eq!(m.structs[0].field_count, 2);
    assert!(m.insts.iter().any(|p| matches!(
        p.inst,
        Inst::InBoundsGep { elem: Ty::Struct(0), second: Operand::ConstI32(1), .. }
    )));
}

#[test]
fn unknown_field_reads_zero() {
    let fa = NodeData::FieldAccess { object: b(int_lit(7)), field: "z".to_string() };
    let (cg, r) = generate(&program(vec![func("main", &[], vec![print(fa)])]));
    assert!(r.is_ok());
    let m = cg.module();
    let call = m.insts.iter().find(|p| matches!(p.inst, Inst::Call { .. })).unwrap();
    if let Inst::Call { args_start, .. } = call.inst {
        assert_eq!(m.args[args_start + 1], Operand::ConstI64(0));
    }
}

#[test]
fn control_flow_outside_function_faults() {
    let s = NodeData::WhileStmt { condition: b(int_lit(1)), body: b(block(vec![])) };
    let (cg, r) = generate(&program(vec![s]));
    assert!(r.is_ok());
    assert!(cg.is_faulted());
}

#[test]
fn nul_in_name_faults() {
    let (cg, r) = generate(&program(vec![func("main", &[], vec![let_("a\0", int_lit(1))])]));
    assert!(r.is_ok());
    assert!(cg.is_faulted());
    let (cg2, _) = generate(&full_program());
    assert!(!cg2.is_faulted());
}

#[test]
fn identifier_naming_a_global_loads_it() {
    let (cg, r) = generate(&program(vec![func("main", &[], vec![print(int_lit(1)), print(ident("int_fmt"))])]));
    assert!(r.is_ok());
    let m = cg.module();
    assert!(m.insts.iter().any(|p| matches!(p.inst, Inst::Load { ptr: Operand::Global(0), .. })));
    assert_eq!(m.symbols[2], Symbol::Global(0));
}

#[test]
fn unbound_identifier_reads_zero() {
    let (cg, r) = generate(&program(vec![func("main", &[], vec![print(ident("nope"))])]));
    assert!(r.is_ok());
    let m = cg.module();
    assert!(!m.insts.iter().any(|p| matches!(p.inst, Inst::Load { .. })));
}

#[test]
fn comparison_widens_to_i64() {
    let (cg, r) = generate(&program(vec![func("main", &[], vec![let_("x", binary(TokenType::Le, int_lit(1), int_lit(2)))])]));
    assert!(r.is_ok());
    let m = cg.module();
    assert!(matches!(m.insts[0].inst, Inst::ICmp { pred: IntPred::Sle, lhs: Operand::ConstI64(1), rhs: Operand::ConstI64(2), .. }));
    assert!(matches!(m.insts[1].inst, Inst::ZExt { value: Operand::Inst(0), .. }));
    assert_eq!(text(m, match m.insts[1].inst { Inst::ZExt { name, .. } => name, _ => 0 }), "le_int");
}

#[test]
fn negative_literal_bits() {
    let (cg, r) = generate(&program(vec![func("main", &[], vec![print(int_lit(-1))])]));
    assert!(r.is_ok());
    let m = cg.module();
    let call = m.insts.iter().find(|p| matches!(p.inst, Inst::Call { .. })).unwrap();
    if let Inst::Call { args_start, .. } = call.inst {
        assert_eq!(m.args[args_start + 1], Operand::ConstI64(u64::MAX));
    }
}

#[test]
fn array_elements_are_stored() {
    let (cg, r) = generate(&program(vec![func("main", &[], vec![let_("arr", array123())])]));
    assert!(r.is_ok());
    let m = cg.module();
    assert_eq!(m.insts[0].inst, Inst::Alloca { ty: Ty::ArrayI64(3), name: match m.insts[0].inst { Inst::Alloca { name, .. } => name, _ => 0 } });
    let stores = m.insts.iter().filter(|p| matches!(p.inst, Inst::Store { .. })).count();
    // three elements and the variable itself
    assert_eq!(stores, 4);
    let names: Vec<&str> = m
        .insts
        .iter()
        .filter_map(|p| match p.inst {
            Inst::InBoundsGep { name, .. } => Some(text(m, name)),
            _ => None,
        })
        .collect();
    assert_eq!(names, vec!["array_ptr_0", "array_ptr_1", "array_ptr_2", "array_decay"]);
}

#[test]
fn concat_declared_once_and_called() {
    let e = NodeData::StringConcat { left: b(string("a")), right: b(string("b")) };
    let e2 = NodeData::StringConcat { left: b(string("c")), right: b(string("d")) };
    let (cg, r) = generate(&program(vec![func("main", &[], vec![let_("s", e), let_("t", e2)])]));
    assert!(r.is_ok());
    let names = function_names(cg.module());
    assert_eq!(names, vec!["main".to_string(), "__hunnu_concat".to_string()]);
}

#[test]
fn decimal_rendering() {
    assert_eq!(decimal_string(0), "0");
    assert_eq!(decimal_string(7), "7");
    assert_eq!(decimal_string(1234567890), "1234567890");
    assert!(has_nul(&"x\0".to_string()));
    assert!(!has_nul(&"x".to_string()));
    assert_eq!(utf8_length(&"héllo".to_string()), 6);
}

#[test]
fn function_scope_closes_after_declaration() {
    // `a` is bound in `f` only: in `g` it is unbound and reads as zero, so nothing loads it.
    let (cg, r) = generate(&program(vec![
        func("f", &["a"], vec![]),
        func("g", &[], vec![print(ident("a"))]),
    ]));
    assert!(r.is_ok());
    let m = cg.module();
    assert!(!m.insts.iter().any(|p| matches!(p.inst, Inst::Load { .. })));
    let call = m.insts.iter().find(|p| matches!(p.inst, Inst::Call { .. })).unwrap();
    if let Inst::Call { args_start, .. } = call.inst {
        assert_eq!(m.args[args_start + 1], Operand::ConstI64(0));
    }
}

#[test]
fn second_generation_only_adds() {
    let mut cg = CodeGen::new("test_module");
    assert!(cg.generate(&program(vec![func("f", &[], vec![print(int_lit(1))])])).is_ok());
    let before_functions = function_names(cg.module());
    let before_insts: Vec<_> = cg.module().insts.clone();
    let before_strings = cg.module().strings.clone();
    assert!(cg.generate(&program(vec![func("g", &[], vec![print(int_lit(2))])])).is_ok());
    let m = cg.module();
    let after_functions = function_names(m);
    assert_eq!(&after_functions[..before_functions.len()], &before_functions[..]);
    assert_eq!(&m.insts[..before_insts.len()], &before_insts[..]);
    assert_eq!(&m.strings[..before_strings.len()], &before_strings[..]);
    assert!(after_functions.contains(&"g".to_string()));
    // printf stays declared once.
    assert_eq!(after_functions.iter().filter(|n| n.as_str() == "printf").count(), 1);
}

#[test]
fn constant_expression_after_break_leaves_body_closed() {
    // `while (1) { break; 1 + 2 }`: the addition of two constants is folded, so nothing is
    // inserted after the break and no branch back to the condition follows it.
    let w = NodeData::WhileStmt {
        condition: b(int_lit(1)),
        body: b(block(vec![
            NodeData::BreakStmt,
            NodeData::ExprStmt { expression: b(binary(TokenType::Plus, int_lit(1), int_lit(2))) },
        ])),
    };
    let (cg, r) = generate(&program(vec![func("main", &[], vec![w])]));
    assert!(r.is_ok());
    let m = cg.module();
    let body: Vec<Inst> = m.insts.iter().filter(|p| p.block == Some(2)).map(|p| p.inst).collect();
    assert_eq!(body, vec![Inst::Br { target: 3 }]);
    assert!(m.blocks[2].terminated);
    let add = m.insts.iter().find(|p| matches!(p.inst, Inst::Arith { .. })).unwrap();
    assert!(add.folded);
    assert_eq!(add.block, None);
}

#[test]
fn folding_needs_every_operand_constant() {
    // `1 + 2` folds; `x + 1` with `x` loaded from its slot does not, and goes into the block.
    let (cg, r) = generate(&program(vec![func("main", &[], vec![
        let_("a", binary(TokenType::Plus, int_lit(1), int_lit(2))),
        let_("x", int_lit(5)),
        let_("y", binary(TokenType::Plus, ident("x"), int_lit(1))),
    ])]));
    assert!(r.is_ok());
    let m = cg.module();
    let adds: Vec<_> = m.insts.iter().filter(|p| matches!(p.inst, Inst::Arith { .. })).collect();
    assert_eq!(adds.len(), 2);
    assert!(adds[0].folded && adds[0].block.is_none());
    assert!(!adds[1].folded && adds[1].block == Some(0));
    // A comparison of a folded value with a constant folds too, and so does its widening.
    let (cg, r) = generate(&program(vec![func("main", &[], vec![
        let_("c", binary(TokenType::Lt, binary(TokenType::Plus, int_lit(1), int_lit(2)), int_lit(4))),
    ])]));
    assert!(r.is_ok());
    let m = cg.module();
    assert!(m.insts.iter().filter(|p| !matches!(p.inst, Inst::Alloca { .. } | Inst::Store { .. } | Inst::Ret { .. })).all(|p| p.folded));
}

#[test]
fn string_literal_address_is_folded() {
    let (cg, r) = generate(&program(vec![func("main", &[], vec![let_("s", string("hi"))])]));
    assert!(r.is_ok());
    let m = cg.module();
    let gep = m.insts.iter().find(|p| matches!(p.inst, Inst::InBoundsGep { .. })).unwrap();
    assert!(gep.folded);
}

#[test]
fn address_of_bound_variable_then_dereference_loads_its_slot() {
    let addr = NodeData::AddressOf { operand: b(ident("x")) };
    let deref = NodeData::Dereference { operand: b(addr) };
    let (cg, r) = generate(&program(vec![func("main", &[], vec![let_("x", int_lit(5)), let_("y", deref)])]));
    assert!(r.is_ok());
    let m = cg.module();
    // `x`'s slot is the first instruction; taking its address adds no slot of its own.
    assert!(matches!(m.insts[0].inst, Inst::Alloca { .. }));
    let allocas = m.insts.iter().filter(|p| matches!(p.inst, Inst::Alloca { .. })).count();
    assert_eq!(allocas, 2);
    let load = m.insts.iter().find(|p| matches!(p.inst, Inst::Load { .. })).unwrap();
    match load.inst {
        Inst::Load { ptr, name } => {
            assert_eq!(ptr, Operand::Inst(0));
            assert_eq!(text(m, name), "deref");
        }
        _ => unreachable!(),
    }
    assert_eq!(load.block, Some(0));
    assert!(!load.folded);
}

#[test]
fn program_of_one_extern_declares_it_once() {
    let (cg, r) = generate(&program(vec![extern_puts()]));
    assert!(r.is_ok());
    assert_eq!(function_names(cg.module()), vec!["puts".to_string()]);
    assert!(cg.module().insts.is_empty());
}
