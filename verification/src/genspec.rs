//! What the code generator builds, stated as functions from a generator state and a
//! syntax node to the next state and the result.
//!
//! Each function follows the construct it translates: the values it computes, the
//! instructions and blocks it adds in order, where the builder stands afterwards, and the
//! first error that stops it.
use vstd::prelude::*;
use crate::ast::{ASTNode, LiteralType, LiteralValue, NodeData, TokenType};
use crate::ir::{texts, ArithOp, Inst, IntPred, Operand, ParamName, Symbol, Ty};
use crate::state::{GenV, LoopInfo};
use crate::text::{byte_array_len, decimal, utf8_len};

verus! {

/// The state after generating an expression, and its value or the error that stopped it.
pub type ExprOut = (GenV, Result<Operand, Seq<char>>);

/// The state after generating a statement, and the error that stopped it, if any.
pub type StmtOut = (GenV, Result<(), Seq<char>>);

pub open spec fn zero64() -> Operand {
    Operand::ConstI64(0)
}

pub open spec fn zero32() -> Operand {
    Operand::ConstI32(0)
}

/// A statement's outcome from an expression's.
pub open spec fn unit(o: ExprOut) -> StmtOut {
    (o.0, match o.1 {
        Ok(_) => Ok(()),
        Err(e) => Err(e),
    })
}

/// Length of the list of children that a node's generation walks through by index.
pub open spec fn list_len(n: ASTNode) -> nat {
    match n.data {
        NodeData::Program { statements } => statements.len() as nat,
        NodeData::Block { statements } => statements.len() as nat,
        NodeData::CallExpr { args, .. } => args.len() as nat,
        NodeData::ArrayExpr { elements } => elements.len() as nat,
        NodeData::MatchExpr { patterns, bodies, .. } => arm_count(patterns.len() as nat, bodies.len() as nat),
        _ => 0,
    }
}

/// A match has as many arms as it has both patterns and bodies for.
pub open spec fn arm_count(patterns: nat, bodies: nat) -> nat {
    if patterns <= bodies {
        patterns
    } else {
        bodies
    }
}

// ---------------------------------------------------------------------------------------
// Building blocks shared by several constructs.
// ---------------------------------------------------------------------------------------

/// Interns a value name, then adds the instruction that bears it.
pub open spec fn place_named(g: GenV, name: Seq<char>, mk: spec_fn(usize) -> Inst) -> (GenV, Operand) {
    let (g1, nm) = g.intern(name);
    g1.place(mk(nm))
}

/// A private constant string global and a pointer to its first byte.
pub open spec fn string_global(g: GenV, name: Seq<char>, content: Seq<char>) -> (GenV, Operand) {
    let (g1, gl) = g.add_global(name, content);
    place_named(
        g1,
        "str"@,
        |nm: usize|
            Inst::InBoundsGep {
                elem: Ty::ArrayI8(byte_array_len(content)),
                ptr: Operand::Global(gl),
                first: zero32(),
                second: zero32(),
                name: nm,
            },
    )
}

/// `printf` is declared once, as `i32 (i8*, ...)`, the first time it is needed.
pub open spec fn get_or_create_printf(g: GenV) -> (GenV, usize) {
    match g.printf_fn {
        Some(f) => (g, f),
        None => {
            let (g1, f) = g.add_function("printf"@, Ty::I32, Ty::BytePtr, 1, true);
            (GenV { printf_fn: Some(f), ..g1 }, f)
        },
    }
}

/// The runtime's string concatenation is declared once, as `i8* (i8*, i8*)`.
pub open spec fn get_or_create_concat(g: GenV) -> (GenV, usize) {
    match g.concat_fn {
        Some(f) => (g, f),
        None => {
            let (g1, f) = g.add_function("__hunnu_concat"@, Ty::BytePtr, Ty::BytePtr, 2, false);
            (GenV { concat_fn: Some(f), ..g1 }, f)
        },
    }
}

/// A call of `callee` with the given arguments.
pub open spec fn call(g: GenV, callee: usize, args: Seq<Operand>, name: Seq<char>) -> (GenV, Operand) {
    let (g1, start) = g.push_args(args);
    place_named(
        g1,
        name,
        |nm: usize| Inst::Call { callee, args_start: start, args_len: args.len() as usize, name: nm },
    )
}

/// `printf(fmt, v)`, with the format held in a global of the given name.
pub open spec fn emit_printf(g: GenV, fmt: Seq<char>, global_name: Seq<char>, v: Operand) -> GenV {
    let (g1, pf) = get_or_create_printf(g);
    let (g2, fp) = string_global(g1, global_name, fmt);
    call(g2, pf, seq![fp, v], "printf_call"@).0
}

pub open spec fn emit_printf_int(g: GenV, v: Operand) -> GenV {
    emit_printf(g, "%lld\n"@, "int_fmt"@, v)
}

pub open spec fn emit_printf_str(g: GenV, v: Operand) -> GenV {
    emit_printf(g, "%s\n"@, "str_fmt"@, v)
}

pub open spec fn emit_printf_float(g: GenV, v: Operand) -> GenV {
    emit_printf(g, "%g\n"@, "float_fmt"@, v)
}

/// An `i1` comparison widened to `i64`.
pub open spec fn compare(g: GenV, pred: IntPred, lhs: Operand, rhs: Operand, test_name: Seq<char>, int_name: Seq<char>) -> (GenV, Operand) {
    let (g1, c) = place_named(g, test_name, |nm: usize| Inst::ICmp { pred, lhs, rhs, name: nm });
    place_named(g1, int_name, |nm: usize| Inst::ZExt { value: c, name: nm })
}

/// The test of a condition value against zero.
pub open spec fn test_nonzero(g: GenV, v: Operand, name: Seq<char>) -> (GenV, Operand) {
    place_named(g, name, |nm: usize| Inst::ICmp { pred: IntPred::Ne, lhs: v, rhs: zero64(), name: nm })
}

/// A branch to `target` unless block `b` already ends with a terminator.
pub open spec fn branch_unless_terminated(g: GenV, b: usize, target: usize) -> GenV {
    if g.terminated(b) {
        g
    } else {
        g.place(Inst::Br { target }).0
    }
}

/// The text a string literal is stored with: a literal holding NUL is stored empty.
pub open spec fn literal_text(s: Seq<char>) -> Seq<char> {
    if s.contains('\0') {
        Seq::empty()
    } else {
        s
    }
}

/// The name of a string literal's global, from the literal's length in bytes.
pub open spec fn literal_global_name(s: Seq<char>) -> Seq<char> {
    "str_"@ + decimal(utf8_len(s) as nat)
}

/// The return type of an external function, from its declared return kind.
pub open spec fn extern_ret(returns_int: i32) -> Ty {
    if returns_int == 2 {
        Ty::BytePtr
    } else if returns_int == 3 {
        Ty::Double
    } else if returns_int != 0 {
        Ty::I64
    } else {
        Ty::Void
    }
}

// ---------------------------------------------------------------------------------------
// Literals and names.
// ---------------------------------------------------------------------------------------

pub open spec fn gen_literal(g: GenV, lt: LiteralType, lv: LiteralValue) -> ExprOut {
    match lt {
        LiteralType::Int => match lv {
            LiteralValue::Int(v) => (g, Ok(Operand::ConstI64(v as u64))),
            _ => (g, Err("Expected int literal"@)),
        },
        LiteralType::Float => match lv {
            LiteralValue::Float(b) => (g, Ok(Operand::ConstF64(b))),
            _ => (g, Err("Expected float literal"@)),
        },
        LiteralType::Bool => match lv {
            LiteralValue::Bool(b) => (g, Ok(Operand::ConstI64(if b { 1 } else { 0 }))),
            _ => (g, Err("Expected bool literal"@)),
        },
        LiteralType::String => match lv {
            LiteralValue::String(s) => {
                let (g1, p) = string_global(g, literal_global_name(s@), literal_text(s@));
                (g1, Ok(p))
            },
            _ => (g, Err("Expected string literal"@)),
        },
    }
}

/// A variable is loaded from its address; otherwise a global of that name is loaded;
/// otherwise the value is zero.
pub open spec fn gen_identifier(g: GenV, name: Seq<char>) -> ExprOut {
    match g.named_get(name) {
        Some(a) => {
            let (g1, v) = place_named(g, "load"@, |nm: usize| Inst::Load { ptr: a, name: nm });
            (g1, Ok(v))
        },
        None => {
            let g1 = g.check_name(name);
            match g1.lookup(name) {
                Some(Symbol::Global(x)) => {
                    let (g2, v) = place_named(g1, "load"@, |nm: usize| Inst::Load { ptr: Operand::Global(x), name: nm });
                    (g2, Ok(v))
                },
                _ => (g1, Ok(zero64())),
            }
        },
    }
}

/// The instruction that a binary operator translates to, once both sides are known.
pub open spec fn binary_op(g: GenV, op: TokenType, lhs: Operand, rhs: Operand) -> ExprOut {
    let arith = |a: ArithOp, name: Seq<char>| {
        let (g1, v) = place_named(g, name, |nm: usize| Inst::Arith { op: a, lhs, rhs, name: nm });
        (g1, Ok(v))
    };
    let test = |p: IntPred, n1: Seq<char>, n2: Seq<char>| {
        let (g1, v) = compare(g, p, lhs, rhs, n1, n2);
        (g1, Ok(v))
    };
    match op {
        TokenType::Plus => arith(ArithOp::Add, "add"@),
        TokenType::Minus => arith(ArithOp::Sub, "sub"@),
        TokenType::Star => arith(ArithOp::Mul, "mul"@),
        TokenType::Slash => arith(ArithOp::SDiv, "div"@),
        TokenType::Percent => arith(ArithOp::SRem, "rem"@),
        TokenType::Eq => test(IntPred::Eq, "eq"@, "eq_int"@),
        TokenType::Neq => test(IntPred::Ne, "ne"@, "ne_int"@),
        TokenType::Lt => test(IntPred::Slt, "lt"@, "lt_int"@),
        TokenType::Le => test(IntPred::Sle, "le"@, "le_int"@),
        TokenType::Gt => test(IntPred::Sgt, "gt"@, "gt_int"@),
        TokenType::Ge => test(IntPred::Sge, "ge"@, "ge_int"@),
        _ => (g, Ok(lhs)),
    }
}

/// The instruction that a unary operator translates to, once its operand is known.
pub open spec fn unary_op(g: GenV, op: TokenType, v: Operand) -> ExprOut {
    match op {
        TokenType::Minus => {
            let (g1, r) = place_named(g, "neg"@, |nm: usize| Inst::Neg { value: v, name: nm });
            (g1, Ok(r))
        },
        TokenType::Not => {
            let (g1, r) = compare(g, IntPred::Eq, v, zero64(), "not"@, "not_int"@);
            (g1, Ok(r))
        },
        _ => (g, Ok(v)),
    }
}

/// The error of a call of a name that no function of the module bears.
pub open spec fn unknown_function(name: Seq<char>) -> Seq<char> {
    "Unknown function '"@ + name + "'"@
}

// ---------------------------------------------------------------------------------------
// Expressions.
// ---------------------------------------------------------------------------------------

pub open spec fn gen_expr(g: GenV, n: ASTNode) -> ExprOut
    decreases n, 2nat, 0nat,
{
    match n.data {
        NodeData::Literal { literal_type, value } => gen_literal(g, literal_type, value),
        NodeData::Identifier { name } => gen_identifier(g, name@),
        NodeData::BinaryExpr { .. } => gen_binary(g, n),
        NodeData::CallExpr { .. } => gen_call(g, n),
        NodeData::Assign { .. } => gen_assign(g, n),
        NodeData::UnaryExpr { .. } => gen_unary(g, n),
        NodeData::ArrayExpr { .. } => gen_array(g, n),
        NodeData::IndexExpr { .. } => gen_index(g, n),
        NodeData::IndexAssign { .. } => gen_index_assign(g, n),
        NodeData::StringConcat { .. } => gen_concat(g, n),
        NodeData::MatchExpr { .. } => gen_match(g, n),
        NodeData::FieldAccess { .. } => gen_field(g, n),
        NodeData::AddressOf { .. } => gen_address_of(g, n),
        NodeData::Dereference { .. } => gen_deref(g, n),
        _ => (g, Ok(zero64())),
    }
}

pub open spec fn gen_binary(g: GenV, n: ASTNode) -> ExprOut
    decreases n, 1nat, 0nat,
{
    match n.data {
        NodeData::BinaryExpr { operator, left, right } => {
            let (g1, r1) = gen_expr(g, *left);
            match r1 {
                Err(e) => (g1, Err(e)),
                Ok(lhs) => {
                    let (g2, r2) = gen_expr(g1, *right);
                    match r2 {
                        Err(e) => (g2, Err(e)),
                        Ok(rhs) => binary_op(g2, operator, lhs, rhs),
                    }
                },
            }
        },
        _ => (g, Ok(zero64())),
    }
}

pub open spec fn gen_unary(g: GenV, n: ASTNode) -> ExprOut
    decreases n, 1nat, 0nat,
{
    match n.data {
        NodeData::UnaryExpr { operator, operand } => {
            let (g1, r) = gen_expr(g, *operand);
            match r {
                Err(e) => (g1, Err(e)),
                Ok(v) => unary_op(g1, operator, v),
            }
        },
        _ => (g, Ok(zero64())),
    }
}

/// The arguments of a call from index `i` on, after the values `acc` of those before.
pub open spec fn gen_args(g: GenV, n: ASTNode, i: nat, acc: Seq<Operand>) -> (GenV, Result<Seq<Operand>, Seq<char>>)
    decreases n, 0nat, list_len(n) - i,
{
    match n.data {
        NodeData::CallExpr { args, .. } => if i < args.len() {
            let (g1, r) = gen_expr(g, args@[i as int]);
            match r {
                Err(e) => (g1, Err(e)),
                Ok(v) => gen_args(g1, n, i + 1, acc.push(v)),
            }
        } else {
            (g, Ok(acc))
        },
        _ => (g, Ok(acc)),
    }
}

pub open spec fn gen_call(g: GenV, n: ASTNode) -> ExprOut
    decreases n, 1nat, 0nat,
{
    match n.data {
        NodeData::CallExpr { name, .. } => {
            let g1 = g.check_name(name@);
            match g1.lookup(name@) {
                Some(Symbol::Func(f)) => {
                    let (g2, r) = gen_args(g1, n, 0, Seq::empty());
                    match r {
                        Err(e) => (g2, Err(e)),
                        Ok(vals) => {
                            let (g3, v) = call(g2, f, vals, "call"@);
                            (g3, Ok(v))
                        },
                    }
                },
                _ => (g1, Err(unknown_function(name@))),
            }
        },
        _ => (g, Ok(zero64())),
    }
}

pub open spec fn gen_assign(g: GenV, n: ASTNode) -> ExprOut
    decreases n, 1nat, 0nat,
{
    match n.data {
        NodeData::Assign { name, value } => {
            let (g1, r) = gen_expr(g, *value);
            match r {
                Err(e) => (g1, Err(e)),
                Ok(v) => match g1.named_get(name@) {
                    Some(a) => (g1.place(Inst::Store { value: v, ptr: a }).0, Ok(v)),
                    None => {
                        let g2 = g1.check_name(name@);
                        match g2.lookup(name@) {
                            Some(Symbol::Global(x)) => (g2.place(Inst::Store { value: v, ptr: Operand::Global(x) }).0, Ok(v)),
                            _ => (g2, Ok(v)),
                        }
                    },
                },
            }
        },
        _ => (g, Ok(zero64())),
    }
}

/// The array type of an array literal with `len` elements, its count truncated to 32 bits.
pub open spec fn array_ty(len: nat) -> Ty {
    Ty::ArrayI64((len % 0x1_0000_0000) as u32)
}

/// The elements of an array literal from index `i` on, each stored into the array `a`.
pub open spec fn gen_array_elems(g: GenV, n: ASTNode, i: nat, ty: Ty, a: Operand) -> StmtOut
    decreases n, 0nat, list_len(n) - i,
{
    match n.data {
        NodeData::ArrayExpr { elements } => if i < elements.len() {
            let (g1, r) = gen_expr(g, elements@[i as int]);
            match r {
                Err(e) => (g1, Err(e)),
                Ok(v) => {
                    let (g2, p) = place_named(
                        g1,
                        "array_ptr_"@ + decimal(i),
                        |nm: usize| Inst::InBoundsGep { elem: ty, ptr: a, first: zero64(), second: Operand::ConstI64(i as u64), name: nm },
                    );
                    let g3 = g2.place(Inst::Store { value: v, ptr: p }).0;
                    gen_array_elems(g3, n, i + 1, ty, a)
                },
            }
        } else {
            (g, Ok(()))
        },
        _ => (g, Ok(())),
    }
}

pub open spec fn gen_array(g: GenV, n: ASTNode) -> ExprOut
    decreases n, 1nat, 0nat,
{
    match n.data {
        NodeData::ArrayExpr { elements } => {
            let ty = array_ty(elements.len() as nat);
            let (g1, a) = place_named(g, "array"@, |nm: usize| Inst::Alloca { ty, name: nm });
            let (g2, r) = gen_array_elems(g1, n, 0, ty, a);
            match r {
                Err(e) => (g2, Err(e)),
                Ok(_) => {
                    let (g3, p) = place_named(
                        g2,
                        "array_decay"@,
                        |nm: usize| Inst::InBoundsGep { elem: ty, ptr: a, first: zero64(), second: zero64(), name: nm },
                    );
                    (g3, Ok(p))
                },
            }
        },
        _ => (g, Ok(zero64())),
    }
}

pub open spec fn gen_index(g: GenV, n: ASTNode) -> ExprOut
    decreases n, 1nat, 0nat,
{
    match n.data {
        NodeData::IndexExpr { array, index } => {
            let (g1, r1) = gen_expr(g, *array);
            match r1 {
                Err(e) => (g1, Err(e)),
                Ok(ap) => {
                    let (g2, r2) = gen_expr(g1, *index);
                    match r2 {
                        Err(e) => (g2, Err(e)),
                        Ok(iv) => {
                            let (g3, p) = place_named(g2, "index_ptr"@, |nm: usize| Inst::Gep { elem: Ty::I64, ptr: ap, index: iv, name: nm });
                            let (g4, v) = place_named(g3, "index_load"@, |nm: usize| Inst::Load { ptr: p, name: nm });
                            (g4, Ok(v))
                        },
                    }
                },
            }
        },
        _ => (g, Ok(zero64())),
    }
}

pub open spec fn gen_index_assign(g: GenV, n: ASTNode) -> ExprOut
    decreases n, 1nat, 0nat,
{
    match n.data {
        NodeData::IndexAssign { array, index, value } => {
            let (g1, r1) = gen_expr(g, *array);
            match r1 {
                Err(e) => (g1, Err(e)),
                Ok(ap) => {
                    let (g2, r2) = gen_expr(g1, *index);
                    match r2 {
                        Err(e) => (g2, Err(e)),
                        Ok(iv) => {
                            let (g3, r3) = gen_expr(g2, *value);
                            match r3 {
                                Err(e) => (g3, Err(e)),
                                Ok(v) => {
                                    let (g4, p) = place_named(g3, "index_ptr"@, |nm: usize| Inst::Gep { elem: Ty::I64, ptr: ap, index: iv, name: nm });
                                    (g4.place(Inst::Store { value: v, ptr: p }).0, Ok(v))
                                },
                            }
                        },
                    }
                },
            }
        },
        _ => (g, Ok(zero64())),
    }
}

pub open spec fn gen_concat(g: GenV, n: ASTNode) -> ExprOut
    decreases n, 1nat, 0nat,
{
    match n.data {
        NodeData::StringConcat { left, right } => {
            let (g1, r1) = gen_expr(g, *left);
            match r1 {
                Err(e) => (g1, Err(e)),
                Ok(lv) => {
                    let (g2, r2) = gen_expr(g1, *right);
                    match r2 {
                        Err(e) => (g2, Err(e)),
                        Ok(rv) => {
                            let (g3, cf) = get_or_create_concat(g2);
                            let (g4, v) = call(g3, cf, seq![lv, rv], "concat"@);
                            (g4, Ok(v))
                        },
                    }
                },
            }
        },
        _ => (g, Ok(zero64())),
    }
}

/// The arms of a match from index `i` on: each compares the matched value `v` with its
/// pattern, branches to its body or on, and the body stores into `result`.
pub open spec fn gen_arms(g: GenV, n: ASTNode, i: nat, v: Operand, result: Operand, end: usize) -> StmtOut
    decreases n, 0nat, list_len(n) - i,
{
    match n.data {
        NodeData::MatchExpr { patterns, bodies, .. } => {
            let num = arm_count(patterns.len() as nat, bodies.len() as nat);
            if i < num {
                let (g1, next) = if i + 1 < num {
                    let (g0, b) = g.create_block("match_arm_"@ + decimal(i));
                    (g0, Some(b))
                } else {
                    (g, None)
                };
                let (g2, r) = gen_expr(g1, patterns@[i as int]);
                match r {
                    Err(e) => (g2, Err(e)),
                    Ok(pv) => {
                        let (g3, c) = place_named(g2, "match_cmp"@, |nm: usize| Inst::ICmp { pred: IntPred::Eq, lhs: v, rhs: pv, name: nm });
                        let (g4, arm) = g3.create_block("match_arm_body_"@ + decimal(i));
                        let g5 = match next {
                            Some(nx) => g4.place(Inst::CondBr { cond: c, then_block: arm, else_block: nx }).0.position_at(nx),
                            None => g4.place(Inst::CondBr { cond: c, then_block: arm, else_block: end }).0,
                        };
                        let g6 = g5.position_at(arm);
                        let (g7, rb) = gen_expr(g6, bodies@[i as int]);
                        match rb {
                            Err(e) => (g7, Err(e)),
                            Ok(bv) => {
                                let g8 = g7.place(Inst::Store { value: bv, ptr: result }).0;
                                let g9 = g8.place(Inst::Br { target: end }).0;
                                gen_arms(g9, n, i + 1, v, result, end)
                            },
                        }
                    },
                }
            } else {
                (g, Ok(()))
            }
        },
        _ => (g, Ok(())),
    }
}

pub open spec fn gen_match(g: GenV, n: ASTNode) -> ExprOut
    decreases n, 1nat, 0nat,
{
    match n.data {
        NodeData::MatchExpr { value, .. } => {
            let (g1, ra) = place_named(g, "match_result"@, |nm: usize| Inst::Alloca { ty: Ty::I64, name: nm });
            let (g2, r) = gen_expr(g1, *value);
            match r {
                Err(e) => (g2, Err(e)),
                Ok(v) => {
                    let (g3, end) = g2.create_block("match_end"@);
                    let (g4, ra2) = gen_arms(g3, n, 0, v, ra, end);
                    match ra2 {
                        Err(e) => (g4, Err(e)),
                        Ok(_) => {
                            let g5 = g4.position_at(end);
                            let (g6, x) = place_named(g5, "match_load"@, |nm: usize| Inst::Load { ptr: ra, name: nm });
                            (g6, Ok(x))
                        },
                    }
                },
            }
        },
        _ => (g, Ok(zero64())),
    }
}

pub open spec fn gen_field(g: GenV, n: ASTNode) -> ExprOut
    decreases n, 1nat, 0nat,
{
    match n.data {
        NodeData::FieldAccess { object, field } => {
            let (g1, r) = gen_expr(g, *object);
            match r {
                Err(e) => (g1, Err(e)),
                Ok(op) => match g1.find_field(field@) {
                    Some((st, j)) => {
                        let (g2, p) = place_named(
                            g1,
                            "field_ptr"@,
                            |nm: usize| Inst::InBoundsGep { elem: Ty::Struct(st), ptr: op, first: zero32(), second: Operand::ConstI32(j as u64), name: nm },
                        );
                        let (g3, v) = place_named(g2, "field_load"@, |nm: usize| Inst::Load { ptr: p, name: nm });
                        (g3, Ok(v))
                    },
                    None => (g1, Ok(zero64())),
                },
            }
        },
        _ => (g, Ok(zero64())),
    }
}

pub open spec fn gen_address_of(g: GenV, n: ASTNode) -> ExprOut
    decreases n, 1nat, 0nat,
{
    match n.data {
        NodeData::AddressOf { operand } => {
            let bound = match operand.data {
                NodeData::Identifier { name } => g.named_get(name@),
                _ => None,
            };
            match bound {
                Some(a) => (g, Ok(a)),
                None => {
                    let (g1, r) = gen_expr(g, *operand);
                    match r {
                        Err(e) => (g1, Err(e)),
                        Ok(v) => {
                            let (g2, a) = place_named(g1, "addr"@, |nm: usize| Inst::Alloca { ty: Ty::I64, name: nm });
                            (g2.place(Inst::Store { value: v, ptr: a }).0, Ok(a))
                        },
                    }
                },
            }
        },
        _ => (g, Ok(zero64())),
    }
}

pub open spec fn gen_deref(g: GenV, n: ASTNode) -> ExprOut
    decreases n, 1nat, 0nat,
{
    match n.data {
        NodeData::Dereference { operand } => {
            let (g1, r) = gen_expr(g, *operand);
            match r {
                Err(e) => (g1, Err(e)),
                Ok(p) => {
                    let (g2, v) = place_named(g1, "deref"@, |nm: usize| Inst::Load { ptr: p, name: nm });
                    (g2, Ok(v))
                },
            }
        },
        _ => (g, Ok(zero64())),
    }
}

// ---------------------------------------------------------------------------------------
// Statements.
// ---------------------------------------------------------------------------------------

pub open spec fn gen_stmt(g: GenV, n: ASTNode) -> StmtOut
    decreases n, 3nat, 0nat,
{
    match n.data {
        NodeData::VarDecl { .. } => gen_var_decl(g, n),
        NodeData::FnDecl { .. } => gen_fn_decl(g, n),
        NodeData::PrintStmt { .. } => gen_print(g, n),
        NodeData::Block { .. } => gen_block(g, n, 0),
        NodeData::ExprStmt { expression } => unit(gen_expr(g, *expression)),
        NodeData::ReturnStmt { .. } => gen_return(g, n),
        NodeData::IfStmt { .. } => gen_if(g, n),
        NodeData::WhileStmt { .. } => gen_while(g, n),
        NodeData::ForStmt { .. } => gen_for(g, n),
        NodeData::BreakStmt => (gen_break(g), Ok(())),
        NodeData::ContinueStmt => (gen_continue(g), Ok(())),
        NodeData::TryStmt { .. } => gen_try(g, n),
        _ => unit(gen_expr(g, n)),
    }
}

/// `break` branches to the end of the innermost loop; outside a loop it does nothing.
pub open spec fn gen_break(g: GenV) -> GenV {
    if g.loops.len() > 0 {
        g.place(Inst::Br { target: g.loops.last().end_block }).0
    } else {
        g
    }
}

/// `continue` branches to the next-iteration block of the innermost loop; outside a loop
/// it does nothing.
pub open spec fn gen_continue(g: GenV) -> GenV {
    if g.loops.len() > 0 {
        g.place(Inst::Br { target: g.loops.last().cond_block }).0
    } else {
        g
    }
}

/// The statements of a block from index `i` on, stopping at the first error.
pub open spec fn gen_block(g: GenV, n: ASTNode, i: nat) -> StmtOut
    decreases n, 0nat, list_len(n) - i,
{
    match n.data {
        NodeData::Block { statements } => if i < statements.len() {
            let (g1, r) = gen_stmt(g, statements@[i as int]);
            match r {
                Err(e) => (g1, Err(e)),
                Ok(_) => gen_block(g1, n, i + 1),
            }
        } else {
            (g, Ok(()))
        },
        _ => (g, Ok(())),
    }
}

pub open spec fn gen_var_decl(g: GenV, n: ASTNode) -> StmtOut
    decreases n, 1nat, 0nat,
{
    match n.data {
        NodeData::VarDecl { name, initializer } => {
            let (g1, r) = gen_expr(g, *initializer);
            match r {
                Err(e) => (g1, Err(e)),
                Ok(v) => {
                    let g2 = g1.check_name(name@);
                    let (g3, a) = place_named(g2, name@, |nm: usize| Inst::Alloca { ty: Ty::I64, name: nm });
                    let g4 = g3.place(Inst::Store { value: v, ptr: a }).0;
                    (g4.named_insert(name@, a), Ok(()))
                },
            }
        },
        _ => (g, Ok(())),
    }
}

/// Each parameter from index `i` on is named, given a stack slot, and bound to it.
pub open spec fn gen_params(g: GenV, ps: Seq<Seq<char>>, f: usize, i: nat) -> GenV
    decreases ps.len() - i,
{
    if i < ps.len() {
        let p = ps[i as int];
        let g1 = g.check_name(p);
        let (g2, pn) = g1.intern(p);
        let g3 = GenV { param_names: g2.param_names.push(ParamName { func: f, index: i as u32, name: pn }), ..g2 };
        let (g4, a) = place_named(g3, p, |nm: usize| Inst::Alloca { ty: Ty::I64, name: nm });
        let g5 = g4.place(Inst::Store { value: Operand::Param(f, i as u32), ptr: a }).0;
        gen_params(g5.named_insert(p, a), ps, f, i + 1)
    } else {
        g
    }
}

/// The return added at the end of a function body whose last block is still open.
pub open spec fn finish_body(g: GenV, is_main: bool) -> GenV {
    let open = match g.position {
        Some(b) => !g.terminated(b),
        None => true,
    };
    if open {
        if is_main {
            g.place(Inst::Ret { value: zero64() }).0
        } else {
            g.place(Inst::RetVoid).0
        }
    } else {
        g
    }
}

pub open spec fn gen_fn_decl(g: GenV, n: ASTNode) -> StmtOut
    decreases n, 1nat, 0nat,
{
    match n.data {
        NodeData::FnDecl { name, params, body } => {
            let is_main = name@ == "main"@;
            let ret = if is_main { Ty::I64 } else { Ty::Void };
            let g1 = g.check_name(name@);
            let (g2, f) = g1.add_function(name@, ret, Ty::I64, params.len(), false);
            let g3 = if is_main { GenV { target_default: true, ..g2 } } else { g2 };
            let (g4, entry) = g3.append_block(f, "entry"@);
            let g5 = GenV { current_function: Some(f), ..g4.position_at(entry) };
            let g6 = gen_params(g5, texts(params@), f, 0);
            let (g7, r) = gen_stmt(g6, *body);
            match r {
                Err(e) => (g7, Err(e)),
                Ok(_) => {
                    let g8 = finish_body(g7, is_main);
                    (GenV { current_function: None, ..g8.named_clear() }, Ok(()))
                },
            }
        },
        _ => (g, Ok(())),
    }
}

pub open spec fn gen_print(g: GenV, n: ASTNode) -> StmtOut
    decreases n, 1nat, 0nat,
{
    match n.data {
        NodeData::PrintStmt { argument } => match argument.data {
            NodeData::Literal { literal_type, value } => {
                let (g1, r) = gen_literal(g, literal_type, value);
                match r {
                    Err(e) => (g1, Err(e)),
                    Ok(v) => (
                        match literal_type {
                            LiteralType::Float => emit_printf_float(g1, v),
                            LiteralType::String => emit_printf_str(g1, v),
                            _ => emit_printf_int(g1, v),
                        },
                        Ok(()),
                    ),
                }
            },
            _ => {
                let (g1, r) = gen_expr(g, *argument);
                match r {
                    Err(e) => (g1, Err(e)),
                    Ok(v) => (emit_printf_int(g1, v), Ok(())),
                }
            },
        },
        _ => (g, Ok(())),
    }
}

pub open spec fn gen_return(g: GenV, n: ASTNode) -> StmtOut
    decreases n, 1nat, 0nat,
{
    match n.data {
        NodeData::ReturnStmt { value } => match value {
            Some(v) => {
                let (g1, r) = gen_expr(g, *v);
                match r {
                    Err(e) => (g1, Err(e)),
                    Ok(x) => (g1.place(Inst::Ret { value: x }).0, Ok(())),
                }
            },
            None => (g.place(Inst::RetVoid).0, Ok(())),
        },
        _ => (g, Ok(())),
    }
}

pub open spec fn gen_if(g: GenV, n: ASTNode) -> StmtOut
    decreases n, 1nat, 0nat,
{
    match n.data {
        NodeData::IfStmt { condition, then_branch, else_branch } => {
            let (g1, r) = gen_expr(g, *condition);
            match r {
                Err(e) => (g1, Err(e)),
                Ok(cv) => {
                    let (g2, c) = test_nonzero(g1, cv, "if_cond"@);
                    let (g3, then_b) = g2.create_block("then"@);
                    let (g4, else_b) = g3.create_block("else"@);
                    let (g5, merge) = g4.create_block("if_merge"@);
                    let g6 = g5.place(Inst::CondBr { cond: c, then_block: then_b, else_block: else_b }).0;
                    let (g7, rt) = gen_stmt(g6.position_at(then_b), *then_branch);
                    match rt {
                        Err(e) => (g7, Err(e)),
                        Ok(_) => {
                            let g8 = branch_unless_terminated(g7, then_b, merge).position_at(else_b);
                            let (g9, re) = match else_branch {
                                Some(eb) => gen_stmt(g8, *eb),
                                None => (g8, Ok(())),
                            };
                            match re {
                                Err(e) => (g9, Err(e)),
                                Ok(_) => (branch_unless_terminated(g9, else_b, merge).position_at(merge), Ok(())),
                            }
                        },
                    }
                },
            }
        },
        _ => (g, Ok(())),
    }
}

pub open spec fn gen_while(g: GenV, n: ASTNode) -> StmtOut
    decreases n, 1nat, 0nat,
{
    match n.data {
        NodeData::WhileStmt { condition, body } => {
            let (g1, cond_b) = g.create_block("while_cond"@);
            let (g2, body_b) = g1.create_block("while_body"@);
            let (g3, end_b) = g2.create_block("while_end"@);
            let g4 = g3.place(Inst::Br { target: cond_b }).0.position_at(cond_b);
            let (g5, r) = gen_expr(g4, *condition);
            match r {
                Err(e) => (g5, Err(e)),
                Ok(cv) => {
                    let (g6, c) = test_nonzero(g5, cv, "while_cmp"@);
                    let g7 = g6.place(Inst::CondBr { cond: c, then_block: body_b, else_block: end_b }).0.position_at(body_b);
                    let g8 = GenV { loops: g7.loops.push(LoopInfo { cond_block: cond_b, end_block: end_b }), ..g7 };
                    let (g9, rb) = gen_stmt(g8, *body);
                    match rb {
                        Err(e) => (g9, Err(e)),
                        Ok(_) => {
                            let g10 = g9.pop_loop();
                            (branch_unless_terminated(g10, body_b, cond_b).position_at(end_b), Ok(()))
                        },
                    }
                },
            }
        },
        _ => (g, Ok(())),
    }
}

pub open spec fn gen_for(g: GenV, n: ASTNode) -> StmtOut
    decreases n, 1nat, 0nat,
{
    match n.data {
        NodeData::ForStmt { initializer, condition, update, body } => {
            let (g1, ri) = match initializer {
                Some(init) => gen_stmt(g, *init),
                None => (g, Ok(())),
            };
            match ri {
                Err(e) => (g1, Err(e)),
                Ok(_) => {
                    let (g2, cond_b) = g1.create_block("for_cond"@);
                    let (g3, body_b) = g2.create_block("for_body"@);
                    let (g4, update_b) = g3.create_block("for_update"@);
                    let (g5, end_b) = g4.create_block("for_end"@);
                    let g6 = g5.place(Inst::Br { target: cond_b }).0.position_at(cond_b);
                    let (g7, rc) = match condition {
                        Some(c) => gen_expr(g6, *c),
                        None => (g6, Ok(Operand::ConstI64(1))),
                    };
                    match rc {
                        Err(e) => (g7, Err(e)),
                        Ok(cv) => {
                            let (g8, c) = test_nonzero(g7, cv, "for_cmp"@);
                            let g9 = g8.place(Inst::CondBr { cond: c, then_block: body_b, else_block: end_b }).0.position_at(body_b);
                            let g10 = GenV { loops: g9.loops.push(LoopInfo { cond_block: update_b, end_block: end_b }), ..g9 };
                            let (g11, rb) = gen_stmt(g10, *body);
                            match rb {
                                Err(e) => (g11, Err(e)),
                                Ok(_) => {
                                    let g12 = g11.pop_loop();
                                    let g13 = branch_unless_terminated(g12, body_b, update_b).position_at(update_b);
                                    let (g14, ru) = match update {
                                        Some(u) => gen_expr(g13, *u),
                                        None => (g13, Ok(zero64())),
                                    };
                                    match ru {
                                        Err(e) => (g14, Err(e)),
                                        Ok(_) => (g14.place(Inst::Br { target: cond_b }).0.position_at(end_b), Ok(())),
                                    }
                                },
                            }
                        },
                    }
                },
            }
        },
        _ => (g, Ok(())),
    }
}

/// Without exception support, the try block, the catch block and the finally block run
/// one after the other.
pub open spec fn gen_try(g: GenV, n: ASTNode) -> StmtOut
    decreases n, 1nat, 0nat,
{
    match n.data {
        NodeData::TryStmt { try_block, catch_block, finally_block, .. } => {
            let (g1, r1) = gen_stmt(g, *try_block);
            match r1 {
                Err(e) => (g1, Err(e)),
                Ok(_) => {
                    let (g2, r2) = match catch_block {
                        Some(c) => gen_stmt(g1, *c),
                        None => (g1, Ok(())),
                    };
                    match r2 {
                        Err(e) => (g2, Err(e)),
                        Ok(_) => match finally_block {
                            Some(f) => gen_stmt(g2, *f),
                            None => (g2, Ok(())),
                        },
                    }
                },
            }
        },
        _ => (g, Ok(())),
    }
}

// ---------------------------------------------------------------------------------------
// Programs.
// ---------------------------------------------------------------------------------------

/// The first pass over a program: struct types and external functions are declared.
pub open spec fn register_decl(g: GenV, n: ASTNode) -> GenV {
    match n.data {
        NodeData::TypeDecl { name, fields } => {
            let g1 = g.check_name(name@);
            let (g2, st) = g1.add_struct(name@, fields.len());
            g2.record_struct(name@, st, texts(fields@))
        },
        NodeData::ExternFn { name, params, returns_int, .. } => {
            let g1 = g.check_name(name@);
            match g1.lookup(name@) {
                Some(Symbol::Func(_)) => g1,
                _ => g1.add_function(name@, extern_ret(returns_int), Ty::I64, params.len(), false).0,
            }
        },
        _ => g,
    }
}

pub open spec fn register_all(g: GenV, s: Seq<ASTNode>, i: nat) -> GenV
    decreases s.len() - i,
{
    if i < s.len() {
        register_all(register_decl(g, s[i as int]), s, i + 1)
    } else {
        g
    }
}

/// The second pass: the statements of the program in order, stopping at the first error.
pub open spec fn gen_top(g: GenV, s: Seq<ASTNode>, i: nat) -> StmtOut
    decreases s.len() - i,
{
    if i < s.len() {
        let (g1, r) = gen_stmt(g, s[i as int]);
        match r {
            Err(e) => (g1, Err(e)),
            Ok(_) => gen_top(g1, s, i + 1),
        }
    } else {
        (g, Ok(()))
    }
}

/// The message for a tree whose root is not a program.
pub open spec fn not_a_program() -> Seq<char> {
    "Expected program node"@
}

/// What `generate` does with a tree.
pub open spec fn gen_program(g: GenV, n: ASTNode) -> StmtOut {
    match n.data {
        NodeData::Program { statements } => gen_top(register_all(g, statements@, 0), statements@, 0),
        _ => (g, Err(not_a_program())),
    }
}

} // verus!
