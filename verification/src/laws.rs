//! Properties that hold of every generation step.
//!
//! * The module only grows: text, symbols, functions, globals, struct types, parameter
//!   names, call arguments and instructions already built are never changed, and blocks
//!   keep their function and label (`evolves`).
//! * The generator stays sound: the builder's insertion block exists, every instruction
//!   sits in an existing block or in none, and a block is marked terminated exactly when
//!   the last instruction inserted into it is a terminator (`sound`).
//! * `printf` and the concatenation helper, once declared, stay the declared ones; a fault
//!   stays recorded.  Requesting `printf` again, or declaring an external function again,
//!   changes nothing.
//! * Expressions leave the loop stack alone; a statement that succeeds leaves it as it
//!   found it.
//! * A function body always ends in a closed block, and a function's variables go out of
//!   scope with it.
//! * The address of a variable is its slot, and dereferencing it loads from that slot.
use vstd::prelude::*;
use crate::ast::{ASTNode, LiteralType, LiteralValue, NodeData, TokenType};
use crate::genspec::{
    arm_count, array_ty, gen_address_of, gen_args, gen_arms, gen_array, gen_array_elems, gen_assign, gen_binary,
    gen_call, gen_concat, gen_deref, gen_expr, gen_field, gen_index, gen_index_assign, gen_match, gen_unary,
    get_or_create_concat, list_len, StmtOut, gen_stmt, gen_block, gen_var_decl, gen_params, finish_body, gen_fn_decl,
    gen_print, gen_return, gen_if, gen_while, gen_for, gen_try, gen_program, gen_top, register_all, register_decl, binary_op, branch_unless_terminated, call, compare, emit_printf, gen_identifier, gen_literal, get_or_create_printf,
    literal_global_name, literal_text, place_named, string_global, test_nonzero, unary_op, zero32, zero64,
};
use crate::ir::{texts, Inst, Operand, Placed, Ty};
use crate::state::{GenV, LoopInfo};

verus! {

/// `a` is a prefix of `b`.
pub open spec fn prefix_of<T>(a: Seq<T>, b: Seq<T>) -> bool {
    a.len() <= b.len() && forall|k: int| 0 <= k < a.len() ==> #[trigger] b[k] == a[k]
}

/// `h` is a later state of the generator that produced `g`.
pub open spec fn evolves(g: GenV, h: GenV) -> bool {
    &&& prefix_of(g.strings, h.strings)
    &&& prefix_of(g.args, h.args)
    &&& prefix_of(g.structs, h.structs)
    &&& prefix_of(g.functions, h.functions)
    &&& prefix_of(g.param_names, h.param_names)
    &&& prefix_of(g.globals, h.globals)
    &&& prefix_of(g.symbols, h.symbols)
    &&& prefix_of(g.insts, h.insts)
    &&& g.blocks.len() <= h.blocks.len()
    &&& forall|b: int| 0 <= b < g.blocks.len() ==> (#[trigger] h.blocks[b]).func == g.blocks[b].func
        && h.blocks[b].label == g.blocks[b].label
    &&& g.printf_fn is Some ==> h.printf_fn == g.printf_fn
    &&& g.concat_fn is Some ==> h.concat_fn == g.concat_fn
    &&& g.fault ==> h.fault
    &&& g.target_default ==> h.target_default
    &&& h.module_name == g.module_name
}

/// The index of the last instruction inserted into block `b`.
pub open spec fn last_in(s: Seq<Placed>, b: usize) -> Option<int>
    decreases s.len(),
{
    if s.len() == 0 {
        None
    } else if s.last().block == Some(b) {
        Some(s.len() - 1)
    } else {
        last_in(s.drop_last(), b)
    }
}

/// Block `b` ends with a terminator.
pub open spec fn block_closed(g: GenV, b: usize) -> bool {
    match last_in(g.insts, b) {
        Some(k) => g.insts[k].inst.spec_is_terminator(),
        None => false,
    }
}

/// The instruction sits in none of the blocks or in one of the first `n`.
pub open spec fn placed_in(p: Placed, n: nat) -> bool {
    match p.block {
        Some(b) => b < n,
        None => true,
    }
}

/// The builder's bookkeeping agrees with the instructions built.
pub open spec fn sound(g: GenV) -> bool {
    &&& g.position matches Some(p) ==> p < g.blocks.len()
    &&& forall|k: int| 0 <= k < g.insts.len() ==> placed_in(#[trigger] g.insts[k], g.blocks.len())
    &&& forall|b: usize| b < g.blocks.len() ==> (#[trigger] g.blocks[b as int]).terminated == block_closed(g, b)
}

proof fn lemma_last_in_none(s: Seq<Placed>, b: usize, n: nat)
    requires
        forall|k: int| 0 <= k < s.len() ==> placed_in(#[trigger] s[k], n),
        b >= n,
    ensures
        last_in(s, b) is None,
    decreases s.len(),
{
    if s.len() > 0 {
        assert(s.last() == s[s.len() - 1]);
        let t = s.drop_last();
        assert forall|k: int| 0 <= k < t.len() implies placed_in(#[trigger] t[k], n) by {
            assert(t[k] == s[k]);
        }
        lemma_last_in_none(t, b, n);
    }
}

proof fn lemma_last_in_range(s: Seq<Placed>, b: usize)
    ensures
        last_in(s, b) matches Some(k) ==> 0 <= k < s.len() && s[k].block == Some(b),
    decreases s.len(),
{
    if s.len() > 0 && s.last().block != Some(b) {
        lemma_last_in_range(s.drop_last(), b);
    }
}

proof fn lemma_last_in_push(s: Seq<Placed>, x: Placed, b: usize)
    ensures
        last_in(s.push(x), b) == (if x.block == Some(b) { Some(s.len() as int) } else { last_in(s, b) }),
{
    assert(s.push(x).drop_last() =~= s);
}

/// Adding an instruction keeps the generator sound; only an instruction that computes a
/// value can be folded.
pub proof fn lemma_place(g: GenV, i: Inst)
    requires
        sound(g),
    ensures
        evolves(g, g.place(i).0),
        sound(g.place(i).0),
        g.folds(i) ==> i is Arith || i is ICmp || i is ZExt || i is Neg || i is InBoundsGep || i is Gep,
{
    reveal(GenV::folds);
    let h = g.place(i).0;
    let x = if g.folds(i) {
        Placed { block: None, inst: i, folded: true }
    } else {
        Placed { block: g.position, inst: i, folded: false }
    };
    assert(h.insts == g.insts.push(x));
    assert forall|b: usize| b < h.blocks.len() implies (#[trigger] h.blocks[b as int]).terminated == block_closed(h, b) by {
        lemma_last_in_push(g.insts, x, b);
        lemma_last_in_range(g.insts, b);
        assert(g.blocks[b as int].terminated == block_closed(g, b));
        match last_in(g.insts, b) {
            Some(k) => {
                assert(h.insts[k] == g.insts[k]);
            },
            None => {},
        }
    }
    assert forall|k: int| 0 <= k < h.insts.len() implies placed_in(#[trigger] h.insts[k], h.blocks.len()) by {
        if k < g.insts.len() {
            assert(h.insts[k] == g.insts[k]);
        }
    }
}

/// A new block keeps the generator sound.
pub proof fn lemma_append_block(g: GenV, f: usize, label: Seq<char>)
    requires
        sound(g),
    ensures
        evolves(g, g.append_block(f, label).0),
        sound(g.append_block(f, label).0),
        g.append_block(f, label).1 < g.append_block(f, label).0.blocks.len(),
        g.append_block(f, label).0.blocks.len() == g.blocks.len() + 1,
{
    let h = g.append_block(f, label).0;
    assert forall|b: usize| b < h.blocks.len() implies (#[trigger] h.blocks[b as int]).terminated == block_closed(h, b) by {
        if b == g.blocks.len() {
            lemma_last_in_none(g.insts, b, g.blocks.len());
        } else {
            assert(h.blocks[b as int] == g.blocks[b as int]);
        }
    }
}

/// A new block of the current function keeps the generator sound.
pub proof fn lemma_create_block(g: GenV, label: Seq<char>)
    requires
        sound(g),
    ensures
        evolves(g, g.create_block(label).0),
        sound(g.create_block(label).0),
        g.create_block(label).1 < g.create_block(label).0.blocks.len(),
        g.create_block(label).0.blocks.len() == g.blocks.len() + 1,
        g.create_block(label).0.loops == g.loops,
{
    match g.current_function {
        Some(f) => lemma_append_block(g, f, label),
        None => lemma_append_block(GenV { fault: true, ..g }, 0, label),
    }
}

pub proof fn lemma_place_named(g: GenV, name: Seq<char>, mk: spec_fn(usize) -> Inst)
    requires
        sound(g),
    ensures
        evolves(g, place_named(g, name, mk).0),
        sound(place_named(g, name, mk).0),
        place_named(g, name, mk).0.loops == g.loops,
{
    let (g1, nm) = g.intern(name);
    lemma_place(g1, mk(nm));
}

pub proof fn lemma_string_global(g: GenV, name: Seq<char>, content: Seq<char>)
    requires
        sound(g),
    ensures
        evolves(g, string_global(g, name, content).0),
        sound(string_global(g, name, content).0),
        string_global(g, name, content).0.loops == g.loops,
{
    let (g1, gl) = g.add_global(name, content);
    lemma_place_named(
        g1,
        "str"@,
        |nm: usize|
            Inst::InBoundsGep {
                elem: Ty::ArrayI8(crate::text::byte_array_len(content)),
                ptr: Operand::Global(gl),
                first: zero32(),
                second: zero32(),
                name: nm,
            },
    );
}

pub proof fn lemma_call(g: GenV, callee: usize, args: Seq<Operand>, name: Seq<char>)
    requires
        sound(g),
    ensures
        evolves(g, call(g, callee, args, name).0),
        sound(call(g, callee, args, name).0),
        call(g, callee, args, name).0.loops == g.loops,
{
    let (g1, start) = g.push_args(args);
    lemma_place_named(
        g1,
        name,
        |nm: usize| Inst::Call { callee, args_start: start, args_len: args.len() as usize, name: nm },
    );
}

pub proof fn lemma_emit_printf(g: GenV, fmt: Seq<char>, global_name: Seq<char>, v: Operand)
    requires
        sound(g),
    ensures
        evolves(g, emit_printf(g, fmt, global_name, v)),
        sound(emit_printf(g, fmt, global_name, v)),
        emit_printf(g, fmt, global_name, v).loops == g.loops,
{
    let (g1, pf) = get_or_create_printf(g);
    let (g2, fp) = string_global(g1, global_name, fmt);
    lemma_string_global(g1, global_name, fmt);
    lemma_call(g2, pf, seq![fp, v], "printf_call"@);
}

pub proof fn lemma_compare(g: GenV, pred: crate::ir::IntPred, lhs: Operand, rhs: Operand, n1: Seq<char>, n2: Seq<char>)
    requires
        sound(g),
    ensures
        evolves(g, compare(g, pred, lhs, rhs, n1, n2).0),
        sound(compare(g, pred, lhs, rhs, n1, n2).0),
        compare(g, pred, lhs, rhs, n1, n2).0.loops == g.loops,
{
    let (g1, c) = place_named(g, n1, |nm: usize| Inst::ICmp { pred, lhs, rhs, name: nm });
    lemma_place_named(g, n1, |nm: usize| Inst::ICmp { pred, lhs, rhs, name: nm });
    lemma_place_named(g1, n2, |nm: usize| Inst::ZExt { value: c, name: nm });
}

pub proof fn lemma_test_nonzero(g: GenV, v: Operand, name: Seq<char>)
    requires
        sound(g),
    ensures
        evolves(g, test_nonzero(g, v, name).0),
        sound(test_nonzero(g, v, name).0),
        test_nonzero(g, v, name).0.loops == g.loops,
        test_nonzero(g, v, name).0.blocks.len() == g.blocks.len(),
{
    lemma_place_named(g, name, |nm: usize| Inst::ICmp { pred: crate::ir::IntPred::Ne, lhs: v, rhs: zero64(), name: nm });
}

pub proof fn lemma_branch_unless_terminated(g: GenV, b: usize, target: usize)
    requires
        sound(g),
    ensures
        evolves(g, branch_unless_terminated(g, b, target)),
        sound(branch_unless_terminated(g, b, target)),
        branch_unless_terminated(g, b, target).loops == g.loops,
        branch_unless_terminated(g, b, target).blocks.len() == g.blocks.len(),
{
    if !g.terminated(b) {
        lemma_place(g, Inst::Br { target });
    }
}

pub proof fn lemma_literal(g: GenV, lt: LiteralType, lv: LiteralValue)
    requires
        sound(g),
    ensures
        evolves(g, gen_literal(g, lt, lv).0),
        sound(gen_literal(g, lt, lv).0),
        gen_literal(g, lt, lv).0.loops == g.loops,
{
    match lv {
        LiteralValue::String(s) => if lt == LiteralType::String {
            lemma_string_global(g, literal_global_name(s@), literal_text(s@));
        },
        _ => {},
    }
}

pub proof fn lemma_identifier(g: GenV, name: Seq<char>)
    requires
        sound(g),
    ensures
        evolves(g, gen_identifier(g, name).0),
        sound(gen_identifier(g, name).0),
        gen_identifier(g, name).0.loops == g.loops,
{
    match g.named_get(name) {
        Some(a) => lemma_place_named(g, "load"@, |nm: usize| Inst::Load { ptr: a, name: nm }),
        None => {
            let g1 = g.check_name(name);
            match g1.lookup(name) {
                Some(crate::ir::Symbol::Global(x)) => lemma_place_named(g1, "load"@, |nm: usize| Inst::Load { ptr: Operand::Global(x), name: nm }),
                _ => {},
            }
        },
    }
}

pub proof fn lemma_binary_op(g: GenV, op: TokenType, lhs: Operand, rhs: Operand)
    requires
        sound(g),
    ensures
        evolves(g, binary_op(g, op, lhs, rhs).0),
        sound(binary_op(g, op, lhs, rhs).0),
        binary_op(g, op, lhs, rhs).0.loops == g.loops,
{
    let arith = |a: crate::ir::ArithOp| |nm: usize| Inst::Arith { op: a, lhs, rhs, name: nm };
    match op {
        TokenType::Plus => lemma_place_named(g, "add"@, arith(crate::ir::ArithOp::Add)),
        TokenType::Minus => lemma_place_named(g, "sub"@, arith(crate::ir::ArithOp::Sub)),
        TokenType::Star => lemma_place_named(g, "mul"@, arith(crate::ir::ArithOp::Mul)),
        TokenType::Slash => lemma_place_named(g, "div"@, arith(crate::ir::ArithOp::SDiv)),
        TokenType::Percent => lemma_place_named(g, "rem"@, arith(crate::ir::ArithOp::SRem)),
        TokenType::Eq => lemma_compare(g, crate::ir::IntPred::Eq, lhs, rhs, "eq"@, "eq_int"@),
        TokenType::Neq => lemma_compare(g, crate::ir::IntPred::Ne, lhs, rhs, "ne"@, "ne_int"@),
        TokenType::Lt => lemma_compare(g, crate::ir::IntPred::Slt, lhs, rhs, "lt"@, "lt_int"@),
        TokenType::Le => lemma_compare(g, crate::ir::IntPred::Sle, lhs, rhs, "le"@, "le_int"@),
        TokenType::Gt => lemma_compare(g, crate::ir::IntPred::Sgt, lhs, rhs, "gt"@, "gt_int"@),
        TokenType::Ge => lemma_compare(g, crate::ir::IntPred::Sge, lhs, rhs, "ge"@, "ge_int"@),
        _ => {},
    }
}

pub proof fn lemma_unary_op(g: GenV, op: TokenType, v: Operand)
    requires
        sound(g),
    ensures
        evolves(g, unary_op(g, op, v).0),
        sound(unary_op(g, op, v).0),
        unary_op(g, op, v).0.loops == g.loops,
{
    match op {
        TokenType::Minus => lemma_place_named(g, "neg"@, |nm: usize| Inst::Neg { value: v, name: nm }),
        TokenType::Not => lemma_compare(g, crate::ir::IntPred::Eq, v, zero64(), "not"@, "not_int"@),
        _ => {},
    }
}


/// An expression's generation: the module grows, the generator stays sound, a builder
/// with an insertion block keeps one, and the loop stack is untouched.
pub open spec fn expr_step(g: GenV, h: GenV) -> bool {
    evolves(g, h) && sound(h) && h.loops == g.loops && (g.position is Some ==> h.position is Some)
}

/// A statement's generation: the module grows, the generator stays sound, a builder with
/// an insertion block keeps one, and if the statement succeeds the loop stack is as it was.
pub open spec fn stmt_step(g: GenV, o: StmtOut) -> bool {
    &&& evolves(g, o.0)
    &&& sound(o.0)
    &&& (g.position is Some ==> o.0.position is Some)
    &&& (o.1 is Ok ==> o.0.loops == g.loops)
}

pub proof fn lemma_expr(g: GenV, n: ASTNode)
    requires
        sound(g),
    ensures
        expr_step(g, gen_expr(g, n).0),
    decreases n, 2nat, 0nat,
{
    match n.data {
        NodeData::Literal { literal_type, value } => lemma_literal(g, literal_type, value),
        NodeData::Identifier { name } => lemma_identifier(g, name@),
        NodeData::BinaryExpr { .. } => lemma_binary(g, n),
        NodeData::CallExpr { .. } => lemma_call_expr(g, n),
        NodeData::Assign { .. } => lemma_assign(g, n),
        NodeData::UnaryExpr { .. } => lemma_unary(g, n),
        NodeData::ArrayExpr { .. } => lemma_array(g, n),
        NodeData::IndexExpr { .. } => lemma_index(g, n),
        NodeData::IndexAssign { .. } => lemma_index_assign(g, n),
        NodeData::StringConcat { .. } => lemma_concat(g, n),
        NodeData::MatchExpr { .. } => lemma_match(g, n),
        NodeData::FieldAccess { .. } => lemma_field(g, n),
        NodeData::AddressOf { .. } => lemma_address_of(g, n),
        NodeData::Dereference { .. } => lemma_deref(g, n),
        _ => {},
    }
}

proof fn lemma_binary(g: GenV, n: ASTNode)
    requires
        sound(g),
    ensures
        expr_step(g, gen_binary(g, n).0),
    decreases n, 1nat, 0nat,
{
    match n.data {
        NodeData::BinaryExpr { operator, left, right } => {
            lemma_expr(g, *left);
            let (g1, r1) = gen_expr(g, *left);
            if let Ok(lhs) = r1 {
                lemma_expr(g1, *right);
                let (g2, r2) = gen_expr(g1, *right);
                if let Ok(rhs) = r2 {
                    lemma_binary_op(g2, operator, lhs, rhs);
                }
            }
        },
        _ => {},
    }
}

proof fn lemma_unary(g: GenV, n: ASTNode)
    requires
        sound(g),
    ensures
        expr_step(g, gen_unary(g, n).0),
    decreases n, 1nat, 0nat,
{
    match n.data {
        NodeData::UnaryExpr { operator, operand } => {
            lemma_expr(g, *operand);
            let (g1, r) = gen_expr(g, *operand);
            if let Ok(v) = r {
                lemma_unary_op(g1, operator, v);
            }
        },
        _ => {},
    }
}

proof fn lemma_args(g: GenV, n: ASTNode, i: nat, acc: Seq<Operand>)
    requires
        sound(g),
    ensures
        expr_step(g, gen_args(g, n, i, acc).0),
    decreases n, 0nat, list_len(n) - i,
{
    match n.data {
        NodeData::CallExpr { args, .. } => if i < args.len() {
            lemma_expr(g, args@[i as int]);
            let (g1, r) = gen_expr(g, args@[i as int]);
            if let Ok(v) = r {
                lemma_args(g1, n, i + 1, acc.push(v));
            }
        },
        _ => {},
    }
}

proof fn lemma_call_expr(g: GenV, n: ASTNode)
    requires
        sound(g),
    ensures
        expr_step(g, gen_call(g, n).0),
    decreases n, 1nat, 0nat,
{
    match n.data {
        NodeData::CallExpr { name, .. } => {
            let g1 = g.check_name(name@);
            if let Some(crate::ir::Symbol::Func(f)) = g1.lookup(name@) {
                lemma_args(g1, n, 0, Seq::empty());
                let (g2, r) = gen_args(g1, n, 0, Seq::empty());
                if let Ok(vals) = r {
                    lemma_call(g2, f, vals, "call"@);
                }
            }
        },
        _ => {},
    }
}

proof fn lemma_assign(g: GenV, n: ASTNode)
    requires
        sound(g),
    ensures
        expr_step(g, gen_assign(g, n).0),
    decreases n, 1nat, 0nat,
{
    match n.data {
        NodeData::Assign { name, value } => {
            lemma_expr(g, *value);
            let (g1, r) = gen_expr(g, *value);
            if let Ok(v) = r {
                match g1.named_get(name@) {
                    Some(a) => lemma_place(g1, Inst::Store { value: v, ptr: a }),
                    None => {
                        let g2 = g1.check_name(name@);
                        if let Some(crate::ir::Symbol::Global(x)) = g2.lookup(name@) {
                            lemma_place(g2, Inst::Store { value: v, ptr: Operand::Global(x) });
                        }
                    },
                }
            }
        },
        _ => {},
    }
}

proof fn lemma_array_elems(g: GenV, n: ASTNode, i: nat, ty: Ty, a: Operand)
    requires
        sound(g),
    ensures
        expr_step(g, gen_array_elems(g, n, i, ty, a).0),
    decreases n, 0nat, list_len(n) - i,
{
    match n.data {
        NodeData::ArrayExpr { elements } => if i < elements.len() {
            lemma_expr(g, elements@[i as int]);
            let (g1, r) = gen_expr(g, elements@[i as int]);
            if let Ok(v) = r {
                let mk = |nm: usize| Inst::InBoundsGep { elem: ty, ptr: a, first: zero64(), second: Operand::ConstI64(i as u64), name: nm };
                lemma_place_named(g1, "array_ptr_"@ + crate::text::decimal(i), mk);
                let (g2, p) = place_named(g1, "array_ptr_"@ + crate::text::decimal(i), mk);
                lemma_place(g2, Inst::Store { value: v, ptr: p });
                let g3 = g2.place(Inst::Store { value: v, ptr: p }).0;
                lemma_array_elems(g3, n, i + 1, ty, a);
            }
        },
        _ => {},
    }
}

proof fn lemma_array(g: GenV, n: ASTNode)
    requires
        sound(g),
    ensures
        expr_step(g, gen_array(g, n).0),
    decreases n, 1nat, 0nat,
{
    match n.data {
        NodeData::ArrayExpr { elements } => {
            let ty = array_ty(elements.len() as nat);
            let mk = |nm: usize| Inst::Alloca { ty, name: nm };
            lemma_place_named(g, "array"@, mk);
            let (g1, a) = place_named(g, "array"@, mk);
            lemma_array_elems(g1, n, 0, ty, a);
            let (g2, r) = gen_array_elems(g1, n, 0, ty, a);
            if r is Ok {
                lemma_place_named(
                    g2,
                    "array_decay"@,
                    |nm: usize| Inst::InBoundsGep { elem: ty, ptr: a, first: zero64(), second: zero64(), name: nm },
                );
            }
        },
        _ => {},
    }
}

proof fn lemma_index(g: GenV, n: ASTNode)
    requires
        sound(g),
    ensures
        expr_step(g, gen_index(g, n).0),
    decreases n, 1nat, 0nat,
{
    match n.data {
        NodeData::IndexExpr { array, index } => {
            lemma_expr(g, *array);
            let (g1, r1) = gen_expr(g, *array);
            if let Ok(ap) = r1 {
                lemma_expr(g1, *index);
                let (g2, r2) = gen_expr(g1, *index);
                if let Ok(iv) = r2 {
                    let mk = |nm: usize| Inst::Gep { elem: Ty::I64, ptr: ap, index: iv, name: nm };
                    lemma_place_named(g2, "index_ptr"@, mk);
                    let (g3, p) = place_named(g2, "index_ptr"@, mk);
                    lemma_place_named(g3, "index_load"@, |nm: usize| Inst::Load { ptr: p, name: nm });
                }
            }
        },
        _ => {},
    }
}

proof fn lemma_index_assign(g: GenV, n: ASTNode)
    requires
        sound(g),
    ensures
        expr_step(g, gen_index_assign(g, n).0),
    decreases n, 1nat, 0nat,
{
    match n.data {
        NodeData::IndexAssign { array, index, value } => {
            lemma_expr(g, *array);
            let (g1, r1) = gen_expr(g, *array);
            if let Ok(ap) = r1 {
                lemma_expr(g1, *index);
                let (g2, r2) = gen_expr(g1, *index);
                if let Ok(iv) = r2 {
                    lemma_expr(g2, *value);
                    let (g3, r3) = gen_expr(g2, *value);
                    if let Ok(v) = r3 {
                        let mk = |nm: usize| Inst::Gep { elem: Ty::I64, ptr: ap, index: iv, name: nm };
                        lemma_place_named(g3, "index_ptr"@, mk);
                        let (g4, p) = place_named(g3, "index_ptr"@, mk);
                        lemma_place(g4, Inst::Store { value: v, ptr: p });
                    }
                }
            }
        },
        _ => {},
    }
}

proof fn lemma_concat(g: GenV, n: ASTNode)
    requires
        sound(g),
    ensures
        expr_step(g, gen_concat(g, n).0),
    decreases n, 1nat, 0nat,
{
    match n.data {
        NodeData::StringConcat { left, right } => {
            lemma_expr(g, *left);
            let (g1, r1) = gen_expr(g, *left);
            if let Ok(lv) = r1 {
                lemma_expr(g1, *right);
                let (g2, r2) = gen_expr(g1, *right);
                if let Ok(rv) = r2 {
                    let (g3, cf) = get_or_create_concat(g2);
                    lemma_call(g3, cf, seq![lv, rv], "concat"@);
                }
            }
        },
        _ => {},
    }
}

#[verifier::rlimit(80)]
#[verifier::spinoff_prover]
pub(crate) proof fn lemma_arms(g: GenV, n: ASTNode, i: nat, v: Operand, result: Operand, end: usize)
    requires
        sound(g),
        end < g.blocks.len(),
    ensures
        expr_step(g, gen_arms(g, n, i, v, result, end).0),
    decreases n, 0nat, list_len(n) - i,
{
    match n.data {
        NodeData::MatchExpr { patterns, bodies, .. } => {
            let num = arm_count(patterns.len() as nat, bodies.len() as nat);
            if i < num {
                let (g1, next) = if i + 1 < num {
                    lemma_create_block(g, "match_arm_"@ + crate::text::decimal(i));
                    let (g0, b) = g.create_block("match_arm_"@ + crate::text::decimal(i));
                    (g0, Some(b))
                } else {
                    (g, None)
                };
                assert(next matches Some(nx) ==> nx < g1.blocks.len());
                lemma_expr(g1, patterns@[i as int]);
                let (g2, r) = gen_expr(g1, patterns@[i as int]);
                if let Ok(pv) = r {
                    let mk = |nm: usize| Inst::ICmp { pred: crate::ir::IntPred::Eq, lhs: v, rhs: pv, name: nm };
                    lemma_place_named(g2, "match_cmp"@, mk);
                    let (g3, c) = place_named(g2, "match_cmp"@, mk);
                    lemma_create_block(g3, "match_arm_body_"@ + crate::text::decimal(i));
                    let (g4, arm) = g3.create_block("match_arm_body_"@ + crate::text::decimal(i));
                    let g5 = match next {
                        Some(nx) => {
                            lemma_place(g4, Inst::CondBr { cond: c, then_block: arm, else_block: nx });
                            g4.place(Inst::CondBr { cond: c, then_block: arm, else_block: nx }).0.position_at(nx)
                        },
                        None => {
                            lemma_place(g4, Inst::CondBr { cond: c, then_block: arm, else_block: end });
                            g4.place(Inst::CondBr { cond: c, then_block: arm, else_block: end }).0
                        },
                    };
                    let g6 = g5.position_at(arm);
                    lemma_expr(g6, bodies@[i as int]);
                    let (g7, rb) = gen_expr(g6, bodies@[i as int]);
                    if let Ok(bv) = rb {
                        lemma_place(g7, Inst::Store { value: bv, ptr: result });
                        let g8 = g7.place(Inst::Store { value: bv, ptr: result }).0;
                        lemma_place(g8, Inst::Br { target: end });
                        let g9 = g8.place(Inst::Br { target: end }).0;
                        lemma_arms(g9, n, i + 1, v, result, end);
                    }
                }
            }
        },
        _ => {},
    }
}

proof fn lemma_match(g: GenV, n: ASTNode)
    requires
        sound(g),
    ensures
        expr_step(g, gen_match(g, n).0),
    decreases n, 1nat, 0nat,
{
    match n.data {
        NodeData::MatchExpr { value, .. } => {
            let mk = |nm: usize| Inst::Alloca { ty: Ty::I64, name: nm };
            lemma_place_named(g, "match_result"@, mk);
            let (g1, ra) = place_named(g, "match_result"@, mk);
            lemma_expr(g1, *value);
            let (g2, r) = gen_expr(g1, *value);
            if let Ok(v) = r {
                lemma_create_block(g2, "match_end"@);
                let (g3, end) = g2.create_block("match_end"@);
                lemma_arms(g3, n, 0, v, ra, end);
                let (g4, ra2) = gen_arms(g3, n, 0, v, ra, end);
                if ra2 is Ok {
                    let g5 = g4.position_at(end);
                    lemma_place_named(g5, "match_load"@, |nm: usize| Inst::Load { ptr: ra, name: nm });
                }
            }
        },
        _ => {},
    }
}

proof fn lemma_field(g: GenV, n: ASTNode)
    requires
        sound(g),
    ensures
        expr_step(g, gen_field(g, n).0),
    decreases n, 1nat, 0nat,
{
    match n.data {
        NodeData::FieldAccess { object, field } => {
            lemma_expr(g, *object);
            let (g1, r) = gen_expr(g, *object);
            if let Ok(op) = r {
                if let Some((st, j)) = g1.find_field(field@) {
                    let mk = |nm: usize| Inst::InBoundsGep { elem: Ty::Struct(st), ptr: op, first: zero32(), second: Operand::ConstI32(j as u64), name: nm };
                    lemma_place_named(g1, "field_ptr"@, mk);
                    let (g2, p) = place_named(g1, "field_ptr"@, mk);
                    lemma_place_named(g2, "field_load"@, |nm: usize| Inst::Load { ptr: p, name: nm });
                }
            }
        },
        _ => {},
    }
}

proof fn lemma_address_of(g: GenV, n: ASTNode)
    requires
        sound(g),
    ensures
        expr_step(g, gen_address_of(g, n).0),
    decreases n, 1nat, 0nat,
{
    match n.data {
        NodeData::AddressOf { operand } => {
            let bound = match operand.data {
                NodeData::Identifier { name } => g.named_get(name@),
                _ => None,
            };
            if bound is None {
                lemma_expr(g, *operand);
                let (g1, r) = gen_expr(g, *operand);
                if let Ok(v) = r {
                    let mk = |nm: usize| Inst::Alloca { ty: Ty::I64, name: nm };
                    lemma_place_named(g1, "addr"@, mk);
                    let (g2, a) = place_named(g1, "addr"@, mk);
                    lemma_place(g2, Inst::Store { value: v, ptr: a });
                }
            }
        },
        _ => {},
    }
}

proof fn lemma_deref(g: GenV, n: ASTNode)
    requires
        sound(g),
    ensures
        expr_step(g, gen_deref(g, n).0),
    decreases n, 1nat, 0nat,
{
    match n.data {
        NodeData::Dereference { operand } => {
            lemma_expr(g, *operand);
            let (g1, r) = gen_expr(g, *operand);
            if let Ok(p) = r {
                lemma_place_named(g1, "deref"@, |nm: usize| Inst::Load { ptr: p, name: nm });
            }
        },
        _ => {},
    }
}

pub proof fn lemma_stmt(g: GenV, n: ASTNode)
    requires
        sound(g),
    ensures
        stmt_step(g, gen_stmt(g, n)),
    decreases n, 3nat, 0nat,
{
    match n.data {
        NodeData::VarDecl { .. } => lemma_var_decl(g, n),
        NodeData::FnDecl { .. } => lemma_fn_decl(g, n),
        NodeData::PrintStmt { .. } => lemma_print(g, n),
        NodeData::Block { .. } => lemma_block(g, n, 0),
        NodeData::ExprStmt { expression } => lemma_expr(g, *expression),
        NodeData::ReturnStmt { .. } => lemma_return(g, n),
        NodeData::IfStmt { .. } => lemma_if(g, n),
        NodeData::WhileStmt { .. } => lemma_while(g, n),
        NodeData::ForStmt { .. } => lemma_for(g, n),
        NodeData::BreakStmt => if g.loops.len() > 0 {
            lemma_place(g, Inst::Br { target: g.loops.last().end_block });
        },
        NodeData::ContinueStmt => if g.loops.len() > 0 {
            lemma_place(g, Inst::Br { target: g.loops.last().cond_block });
        },
        NodeData::TryStmt { .. } => lemma_try(g, n),
        _ => lemma_expr(g, n),
    }
}

proof fn lemma_block(g: GenV, n: ASTNode, i: nat)
    requires
        sound(g),
    ensures
        stmt_step(g, gen_block(g, n, i)),
    decreases n, 0nat, list_len(n) - i,
{
    match n.data {
        NodeData::Block { statements } => if i < statements.len() {
            lemma_stmt(g, statements@[i as int]);
            let (g1, r) = gen_stmt(g, statements@[i as int]);
            if r is Ok {
                lemma_block(g1, n, i + 1);
            }
        },
        _ => {},
    }
}

proof fn lemma_var_decl(g: GenV, n: ASTNode)
    requires
        sound(g),
    ensures
        stmt_step(g, gen_var_decl(g, n)),
    decreases n, 1nat, 0nat,
{
    match n.data {
        NodeData::VarDecl { name, initializer } => {
            lemma_expr(g, *initializer);
            let (g1, r) = gen_expr(g, *initializer);
            if let Ok(v) = r {
                let g2 = g1.check_name(name@);
                let mk = |nm: usize| Inst::Alloca { ty: Ty::I64, name: nm };
                lemma_place_named(g2, name@, mk);
                let (g3, a) = place_named(g2, name@, mk);
                lemma_place(g3, Inst::Store { value: v, ptr: a });
            }
        },
        _ => {},
    }
}

proof fn lemma_params(g: GenV, ps: Seq<Seq<char>>, f: usize, i: nat)
    requires
        sound(g),
    ensures
        expr_step(g, gen_params(g, ps, f, i)),
    decreases ps.len() - i,
{
    if i < ps.len() {
        let p = ps[i as int];
        let g1 = g.check_name(p);
        let (g2, pn) = g1.intern(p);
        let g3 = GenV { param_names: g2.param_names.push(crate::ir::ParamName { func: f, index: i as u32, name: pn }), ..g2 };
        let mk = |nm: usize| Inst::Alloca { ty: Ty::I64, name: nm };
        lemma_place_named(g3, p, mk);
        let (g4, a) = place_named(g3, p, mk);
        lemma_place(g4, Inst::Store { value: Operand::Param(f, i as u32), ptr: a });
        let g5 = g4.place(Inst::Store { value: Operand::Param(f, i as u32), ptr: a }).0;
        lemma_params(g5.named_insert(p, a), ps, f, i + 1);
    }
}

proof fn lemma_finish_body(g: GenV, is_main: bool)
    requires
        sound(g),
    ensures
        expr_step(g, finish_body(g, is_main)),
{
    let open = match g.position {
        Some(b) => !g.terminated(b),
        None => true,
    };
    if open {
        if is_main {
            lemma_place(g, Inst::Ret { value: zero64() });
        } else {
            lemma_place(g, Inst::RetVoid);
        }
    }
}

#[verifier::rlimit(40)]
proof fn lemma_fn_decl(g: GenV, n: ASTNode)
    requires
        sound(g),
    ensures
        stmt_step(g, gen_fn_decl(g, n)),
    decreases n, 1nat, 0nat,
{
    match n.data {
        NodeData::FnDecl { name, params, body } => {
            let is_main = name@ == "main"@;
            let ret = if is_main { Ty::I64 } else { Ty::Void };
            let g1 = g.check_name(name@);
            let (g2, f) = g1.add_function(name@, ret, Ty::I64, params.len(), false);
            let g3 = if is_main { GenV { target_default: true, ..g2 } } else { g2 };
            lemma_append_block(g3, f, "entry"@);
            let (g4, entry) = g3.append_block(f, "entry"@);
            let g5 = GenV { current_function: Some(f), ..g4.position_at(entry) };
            lemma_params(g5, texts(params@), f, 0);
            let g6 = gen_params(g5, texts(params@), f, 0);
            lemma_stmt(g6, *body);
            let (g7, r) = gen_stmt(g6, *body);
            if r is Ok {
                lemma_finish_body(g7, is_main);
            }
        },
        _ => {},
    }
}

proof fn lemma_print(g: GenV, n: ASTNode)
    requires
        sound(g),
    ensures
        stmt_step(g, gen_print(g, n)),
    decreases n, 1nat, 0nat,
{
    match n.data {
        NodeData::PrintStmt { argument } => match argument.data {
            NodeData::Literal { literal_type, value } => {
                lemma_literal(g, literal_type, value);
                let (g1, r) = gen_literal(g, literal_type, value);
                if let Ok(v) = r {
                    match literal_type {
                        LiteralType::Float => lemma_emit_printf(g1, "%g\n"@, "float_fmt"@, v),
                        LiteralType::String => lemma_emit_printf(g1, "%s\n"@, "str_fmt"@, v),
                        _ => lemma_emit_printf(g1, "%lld\n"@, "int_fmt"@, v),
                    }
                }
            },
            _ => {
                lemma_expr(g, *argument);
                let (g1, r) = gen_expr(g, *argument);
                if let Ok(v) = r {
                    lemma_emit_printf(g1, "%lld\n"@, "int_fmt"@, v);
                }
            },
        },
        _ => {},
    }
}

proof fn lemma_return(g: GenV, n: ASTNode)
    requires
        sound(g),
    ensures
        stmt_step(g, gen_return(g, n)),
    decreases n, 1nat, 0nat,
{
    match n.data {
        NodeData::ReturnStmt { value } => match value {
            Some(v) => {
                lemma_expr(g, *v);
                let (g1, r) = gen_expr(g, *v);
                if let Ok(x) = r {
                    lemma_place(g1, Inst::Ret { value: x });
                }
            },
            None => lemma_place(g, Inst::RetVoid),
        },
        _ => {},
    }
}

#[verifier::rlimit(60)]
proof fn lemma_if(g: GenV, n: ASTNode)
    requires
        sound(g),
    ensures
        stmt_step(g, gen_if(g, n)),
    decreases n, 1nat, 0nat,
{
    match n.data {
        NodeData::IfStmt { condition, then_branch, else_branch } => {
            lemma_expr(g, *condition);
            let (g1, r) = gen_expr(g, *condition);
            if let Ok(cv) = r {
                lemma_test_nonzero(g1, cv, "if_cond"@);
                let (g2, c) = test_nonzero(g1, cv, "if_cond"@);
                lemma_create_block(g2, "then"@);
                let (g3, then_b) = g2.create_block("then"@);
                lemma_create_block(g3, "else"@);
                let (g4, else_b) = g3.create_block("else"@);
                lemma_create_block(g4, "if_merge"@);
                let (g5, merge) = g4.create_block("if_merge"@);
                lemma_place(g5, Inst::CondBr { cond: c, then_block: then_b, else_block: else_b });
                let g6 = g5.place(Inst::CondBr { cond: c, then_block: then_b, else_block: else_b }).0;
                lemma_stmt(g6.position_at(then_b), *then_branch);
                let (g7, rt) = gen_stmt(g6.position_at(then_b), *then_branch);
                if rt is Ok {
                    lemma_branch_unless_terminated(g7, then_b, merge);
                    let g8 = branch_unless_terminated(g7, then_b, merge).position_at(else_b);
                    match else_branch {
                        Some(eb) => lemma_stmt(g8, *eb),
                        None => {},
                    }
                    let (g9, re) = match else_branch {
                        Some(eb) => gen_stmt(g8, *eb),
                        None => (g8, Ok(())),
                    };
                    if re is Ok {
                        lemma_branch_unless_terminated(g9, else_b, merge);
                    }
                }
            }
        },
        _ => {},
    }
}

#[verifier::rlimit(60)]
proof fn lemma_while(g: GenV, n: ASTNode)
    requires
        sound(g),
    ensures
        stmt_step(g, gen_while(g, n)),
    decreases n, 1nat, 0nat,
{
    match n.data {
        NodeData::WhileStmt { condition, body } => {
            lemma_create_block(g, "while_cond"@);
            let (g1, cond_b) = g.create_block("while_cond"@);
            lemma_create_block(g1, "while_body"@);
            let (g2, body_b) = g1.create_block("while_body"@);
            lemma_create_block(g2, "while_end"@);
            let (g3, end_b) = g2.create_block("while_end"@);
            lemma_place(g3, Inst::Br { target: cond_b });
            let g4 = g3.place(Inst::Br { target: cond_b }).0.position_at(cond_b);
            lemma_expr(g4, *condition);
            let (g5, r) = gen_expr(g4, *condition);
            if let Ok(cv) = r {
                lemma_test_nonzero(g5, cv, "while_cmp"@);
                let (g6, c) = test_nonzero(g5, cv, "while_cmp"@);
                lemma_place(g6, Inst::CondBr { cond: c, then_block: body_b, else_block: end_b });
                let g7 = g6.place(Inst::CondBr { cond: c, then_block: body_b, else_block: end_b }).0.position_at(body_b);
                let l = LoopInfo { cond_block: cond_b, end_block: end_b };
                let g8 = GenV { loops: g7.loops.push(l), ..g7 };
                lemma_stmt(g8, *body);
                let (g9, rb) = gen_stmt(g8, *body);
                if rb is Ok {
                    assert(g7.loops.push(l).drop_last() =~= g7.loops);
                    let g10 = g9.pop_loop();
                    lemma_branch_unless_terminated(g10, body_b, cond_b);
                }
            }
        },
        _ => {},
    }
}

/// The part of a `for` statement from the branch into its body on.
pub(crate) open spec fn for_rest(
    g9: GenV,
    body: ASTNode,
    update: Option<Box<ASTNode>>,
    cond_b: usize,
    body_b: usize,
    update_b: usize,
    end_b: usize,
) -> StmtOut {
    let g10 = GenV { loops: g9.loops.push(LoopInfo { cond_block: update_b, end_block: end_b }), ..g9 };
    let (g11, rb) = gen_stmt(g10, body);
    match rb {
        Err(e) => (g11, Err(e)),
        Ok(_) => {
            let g12 = g11.pop_loop();
            let g13 = branch_unless_terminated(g12, body_b, update_b).position_at(update_b);
            let (g14, ru) = match update {
                Some(u) => gen_expr(g13, *u),
                None => (g13, Ok(zero64())),
            };
            match ru {
                Err(e) => (g14, Err(e)),
                Ok(_) => (g14.place(Inst::Br { target: cond_b }).0.position_at(end_b), Ok(())),
            }
        },
    }
}

pub(crate) proof fn lemma_for_rest(
    g9: GenV,
    body: ASTNode,
    update: Option<Box<ASTNode>>,
    cond_b: usize,
    body_b: usize,
    update_b: usize,
    end_b: usize,
    n: ASTNode,
)
    requires
        sound(g9),
        g9.position is Some,
        cond_b < g9.blocks.len(),
        body_b < g9.blocks.len(),
        update_b < g9.blocks.len(),
        end_b < g9.blocks.len(),
        n.data matches NodeData::ForStmt { update: u, body: b, .. } && u == update && *b == body,
    ensures
        stmt_step(g9, for_rest(g9, body, update, cond_b, body_b, update_b, end_b)),
    decreases n, 0nat, 0nat,
{
    let l = LoopInfo { cond_block: update_b, end_block: end_b };
    let g10 = GenV { loops: g9.loops.push(l), ..g9 };
    lemma_stmt(g10, body);
    let (g11, rb) = gen_stmt(g10, body);
    if rb is Ok {
        assert(g9.loops.push(l).drop_last() =~= g9.loops);
        let g12 = g11.pop_loop();
        lemma_branch_unless_terminated(g12, body_b, update_b);
        let g13 = branch_unless_terminated(g12, body_b, update_b).position_at(update_b);
        match update {
            Some(u) => {
                assert(decreases_to!(n => *u));
                lemma_expr(g13, *u);
            },
            None => {},
        }
        let (g14, ru) = match update {
            Some(u) => gen_expr(g13, *u),
            None => (g13, Ok(zero64())),
        };
        if ru is Ok {
            lemma_place(g14, Inst::Br { target: cond_b });
        }
    }
}

/// The part of a `for` statement from its condition block on.
spec fn for_from_cond(g6: GenV, n: ASTNode, cond_b: usize, body_b: usize, update_b: usize, end_b: usize) -> StmtOut {
    match n.data {
        NodeData::ForStmt { condition, update, body, .. } => {
            let (g7, rc) = match condition {
                Some(c) => gen_expr(g6, *c),
                None => (g6, Ok(Operand::ConstI64(1))),
            };
            match rc {
                Err(e) => (g7, Err(e)),
                Ok(cv) => {
                    let (g8, c) = test_nonzero(g7, cv, "for_cmp"@);
                    let g9 = g8.place(Inst::CondBr { cond: c, then_block: body_b, else_block: end_b }).0.position_at(body_b);
                    for_rest(g9, *body, update, cond_b, body_b, update_b, end_b)
                },
            }
        },
        _ => (g6, Ok(())),
    }
}

#[verifier::spinoff_prover]
proof fn lemma_for_from_cond(g6: GenV, n: ASTNode, cond_b: usize, body_b: usize, update_b: usize, end_b: usize)
    requires
        sound(g6),
        g6.position is Some,
        cond_b < g6.blocks.len(),
        body_b < g6.blocks.len(),
        update_b < g6.blocks.len(),
        end_b < g6.blocks.len(),
        n.data is ForStmt,
    ensures
        stmt_step(g6, for_from_cond(g6, n, cond_b, body_b, update_b, end_b)),
    decreases n, 0nat, 1nat,
{
    match n.data {
        NodeData::ForStmt { condition, update, body, .. } => {
            match condition {
                Some(c) => lemma_expr(g6, *c),
                None => {},
            }
            let (g7, rc) = match condition {
                Some(c) => gen_expr(g6, *c),
                None => (g6, Ok(Operand::ConstI64(1))),
            };
            if let Ok(cv) = rc {
                lemma_test_nonzero(g7, cv, "for_cmp"@);
                let (g8, c) = test_nonzero(g7, cv, "for_cmp"@);
                lemma_place(g8, Inst::CondBr { cond: c, then_block: body_b, else_block: end_b });
                let g9 = g8.place(Inst::CondBr { cond: c, then_block: body_b, else_block: end_b }).0.position_at(body_b);
                lemma_for_rest(g9, *body, update, cond_b, body_b, update_b, end_b, n);
            }
        },
        _ => {},
    }
}

#[verifier::spinoff_prover]
proof fn lemma_for(g: GenV, n: ASTNode)
    requires
        sound(g),
    ensures
        stmt_step(g, gen_for(g, n)),
    decreases n, 1nat, 0nat,
{
    match n.data {
        NodeData::ForStmt { initializer, condition, update, body } => {
            match initializer {
                Some(init) => lemma_stmt(g, *init),
                None => {},
            }
            let (g1, ri) = match initializer {
                Some(init) => gen_stmt(g, *init),
                None => (g, Ok(())),
            };
            if ri is Ok {
                lemma_create_block(g1, "for_cond"@);
                let (g2, cond_b) = g1.create_block("for_cond"@);
                lemma_create_block(g2, "for_body"@);
                let (g3, body_b) = g2.create_block("for_body"@);
                lemma_create_block(g3, "for_update"@);
                let (g4, update_b) = g3.create_block("for_update"@);
                lemma_create_block(g4, "for_end"@);
                let (g5, end_b) = g4.create_block("for_end"@);
                lemma_place(g5, Inst::Br { target: cond_b });
                let g6 = g5.place(Inst::Br { target: cond_b }).0.position_at(cond_b);
                lemma_for_from_cond(g6, n, cond_b, body_b, update_b, end_b);
                assert(gen_for(g, n) == for_from_cond(g6, n, cond_b, body_b, update_b, end_b));
            }
        },
        _ => {},
    }
}

proof fn lemma_try(g: GenV, n: ASTNode)
    requires
        sound(g),
    ensures
        stmt_step(g, gen_try(g, n)),
    decreases n, 1nat, 0nat,
{
    match n.data {
        NodeData::TryStmt { try_block, catch_block, finally_block, .. } => {
            lemma_stmt(g, *try_block);
            let (g1, r1) = gen_stmt(g, *try_block);
            if r1 is Ok {
                match catch_block {
                    Some(c) => lemma_stmt(g1, *c),
                    None => {},
                }
                let (g2, r2) = match catch_block {
                    Some(c) => gen_stmt(g1, *c),
                    None => (g1, Ok(())),
                };
                if r2 is Ok {
                    match finally_block {
                        Some(f) => lemma_stmt(g2, *f),
                        None => {},
                    }
                }
            }
        },
        _ => {},
    }
}

proof fn lemma_register_decl(g: GenV, n: ASTNode)
    requires
        sound(g),
    ensures
        expr_step(g, register_decl(g, n)),
        register_decl(g, n).globals == g.globals,
{
}

proof fn lemma_register_all(g: GenV, s: Seq<ASTNode>, i: nat)
    requires
        sound(g),
    ensures
        expr_step(g, register_all(g, s, i)),
        register_all(g, s, i).globals == g.globals,
    decreases s.len() - i,
{
    if i < s.len() {
        lemma_register_decl(g, s[i as int]);
        lemma_register_all(register_decl(g, s[i as int]), s, i + 1);
    }
}

proof fn lemma_top(g: GenV, s: Seq<ASTNode>, i: nat)
    requires
        sound(g),
    ensures
        stmt_step(g, gen_top(g, s, i)),
    decreases s.len() - i,
{
    if i < s.len() {
        lemma_stmt(g, s[i as int]);
        let (g1, r) = gen_stmt(g, s[i as int]);
        if r is Ok {
            lemma_top(g1, s, i + 1);
        }
    }
}

/// Generating a program only adds to the module: no text, symbol, function, global,
/// struct type, parameter name, call argument or instruction built before is changed,
/// and every block keeps its function and label.  The generator stays sound: the builder
/// inserts into an existing block, every instruction sits in an existing block (or in
/// none, before the first function), and a block counts as terminated exactly when the
/// last instruction inserted into it is a terminator.  A declared `printf` or string
/// concatenation helper stays the one declared, and a fault stays recorded.
pub proof fn law_generate_grows_and_stays_sound(g: GenV, program: ASTNode)
    requires
        sound(g),
    ensures
        evolves(g, gen_program(g, program).0),
        sound(gen_program(g, program).0),
{
    match program.data {
        NodeData::Program { statements } => {
            lemma_register_all(g, statements@, 0);
            lemma_top(register_all(g, statements@, 0), statements@, 0);
        },
        _ => {},
    }
}

/// A statement that is generated without error leaves the stack of enclosing loops as it
/// found it, and an expression never touches it; both only add to the module and keep
/// the generator sound.
pub proof fn law_statement_keeps_loop_stack(g: GenV, n: ASTNode)
    requires
        sound(g),
    ensures
        gen_stmt(g, n).1 is Ok ==> gen_stmt(g, n).0.loops == g.loops,
        gen_expr(g, n).0.loops == g.loops,
        evolves(g, gen_stmt(g, n).0),
        sound(gen_stmt(g, n).0),
{
    lemma_stmt(g, n);
    lemma_expr(g, n);
}

/// `printf` is declared at most once: once declared, every later statement reuses the
/// same declaration.
pub proof fn law_printf_declared_once(g: GenV, n: ASTNode)
    requires
        sound(g),
        g.printf_fn is Some,
    ensures
        gen_stmt(g, n).0.printf_fn == g.printf_fn,
        gen_stmt(g, n).0.functions.len() >= g.functions.len(),
{
    lemma_stmt(g, n);
}

proof fn lemma_lookup_from_stable(g: GenV, h: GenV, name: Seq<char>, k: nat)
    requires
        g.well_formed(),
        evolves(g, h),
        g.lookup_from(name, k) is Some,
    ensures
        h.lookup_from(name, k) == g.lookup_from(name, k),
    decreases g.symbols.len() - k,
{
    if k < g.symbols.len() {
        let sym = g.symbols[k as int];
        assert(h.symbols[k as int] == sym);
        match sym {
            crate::ir::Symbol::Func(f) => {
                assert(h.functions[f as int] == g.functions[f as int]);
                assert(h.strings[g.functions[f as int].name as int] == g.strings[g.functions[f as int].name as int]);
            },
            crate::ir::Symbol::Global(x) => {
                assert(h.globals[x as int] == g.globals[x as int]);
                assert(h.strings[g.globals[x as int].name as int] == g.strings[g.globals[x as int].name as int]);
            },
        }
        if g.symbol_name(sym) != name {
            lemma_lookup_from_stable(g, h, name, k + 1);
        }
    }
}

/// What a name resolves to never changes once it resolves: symbols are only added after
/// the existing ones, so the first symbol bearing a name stays the first.
pub proof fn law_lookup_stable(g: GenV, h: GenV, name: Seq<char>)
    requires
        g.well_formed(),
        evolves(g, h),
        g.lookup(name) is Some,
    ensures
        h.lookup(name) == g.lookup(name),
{
    lemma_lookup_from_stable(g, h, name, 0);
}

proof fn lemma_record_from_range(g: GenV, name: Seq<char>, k: nat)
    ensures
        g.record_from(name, k) matches Some(j) ==> j < g.records.len(),
    decreases g.records.len() - k,
{
    if k < g.records.len() && g.strings[g.records[k as int].name as int] != name {
        lemma_record_from_range(g, name, k + 1);
    }
}

/// The tables that a symbol lookup reads fit the machine's indices.
pub open spec fn bounded(g: GenV) -> bool {
    &&& g.strings.len() <= usize::MAX
    &&& g.functions.len() <= usize::MAX
    &&& g.globals.len() <= usize::MAX
    &&& g.symbols.len() <= usize::MAX
}

#[verifier::spinoff_prover]
proof fn lemma_register_keeps_wf(g: GenV, n: ASTNode)
    requires
        g.well_formed(),
        bounded(register_decl(g, n)),
    ensures
        register_decl(g, n).well_formed(),
{
    match n.data {
        NodeData::TypeDecl { name, fields } => {
            let g1 = g.check_name(name@);
            let (g2, st) = g1.add_struct(name@, fields.len());
            lemma_record_from_range(g2, name@, 0);
            let h = g2.record_struct(name@, st, texts(fields@));
            let rec = crate::state::StructRecord {
                name: g2.strings.len() as usize,
                ty: st,
                first_field: (g2.strings.len() + 1) as usize,
                field_count: texts(fields@).len() as usize,
            };
            let ts = texts(fields@);
            let g4 = g2.intern(name@).0.intern_all(ts);
            assert(ts.len() == fields@.len());
            assert(h.strings == g4.strings);
            assert(h.strings.len() == g2.strings.len() + 1 + ts.len());
            match g2.record_from(name@, 0) {
                Some(k0) => assert(h.records == g2.records.update(k0 as int, rec)),
                None => assert(h.records == g2.records.push(rec)),
            }
            assert forall|k: int| 0 <= k < h.records.len() implies #[trigger] h.records[k].name < h.strings.len()
                && h.records[k].first_field + h.records[k].field_count <= h.strings.len() by {
                if k < g2.records.len() && h.records[k] == g2.records[k] {
                    assert(g2.records[k].name < g2.strings.len());
                } else {
                    assert(h.records[k] == rec);
                }
            }
            assert(register_decl(g, n) == h);
            assert(h.well_formed());
        },
        _ => {},
    }
}

proof fn lemma_lookup_from_func_exists(g: GenV, name: Seq<char>, k: nat, j: nat)
    requires
        k <= j < g.symbols.len(),
        g.symbol_name(g.symbols[j as int]) == name,
    ensures
        g.lookup_from(name, k) is Some,
    decreases j - k,
{
    if g.symbol_name(g.symbols[k as int]) != name {
        lemma_lookup_from_func_exists(g, name, k + 1, j);
    }
}

proof fn lemma_lookup_no_global(g: GenV, name: Seq<char>, k: nat)
    requires
        g.well_formed(),
        g.globals.len() == 0,
    ensures
        !(g.lookup_from(name, k) is Some && g.lookup_from(name, k)->0 is Global),
    decreases g.symbols.len() - k,
{
    if k < g.symbols.len() {
        assert(g.symbols[k as int] is Func);
        if g.symbol_name(g.symbols[k as int]) != name {
            lemma_lookup_no_global(g, name, k + 1);
        }
    }
}

/// Registering an external function, without globals in the module, makes its name
/// resolve to a function.
proof fn lemma_extern_registered(g: GenV, n: ASTNode)
    requires
        g.well_formed(),
        g.globals.len() == 0,
        n.data is ExternFn,
        bounded(register_decl(g, n)),
    ensures
        register_decl(g, n).lookup(n.data->ExternFn_name@) matches Some(crate::ir::Symbol::Func(_)),
{
    let name = n.data->ExternFn_name@;
    let g1 = g.check_name(name);
    lemma_lookup_no_global(g1, name, 0);
    match g1.lookup(name) {
        Some(crate::ir::Symbol::Func(_)) => {},
        _ => {
            let h = register_decl(g, n);
            let j = g1.symbols.len();
            let f = g1.functions.len();
            assert(h.symbols[j as int] == crate::ir::Symbol::Func(f as usize));
            assert(h.functions[f as int].name == g1.strings.len());
            assert(h.strings[g1.strings.len() as int] == name);
            lemma_lookup_from_func_exists(h, name, 0, j);
            lemma_lookup_none_prefix(g1, h, name, 0);
            assert(g1.lookup_from(name, j) is None);
            lemma_lookup_no_global(h, name, 0);
        },
    }
}

proof fn lemma_lookup_from_range(g: GenV, name: Seq<char>, k: nat)
    requires
        g.well_formed(),
    ensures
        g.lookup_from(name, k) matches Some(crate::ir::Symbol::Global(x)) ==> x < g.globals.len(),
        g.lookup_from(name, k) matches Some(crate::ir::Symbol::Func(f)) ==> f < g.functions.len(),
    decreases g.symbols.len() - k,
{
    if k < g.symbols.len() && g.symbol_name(g.symbols[k as int]) != name {
        lemma_lookup_from_range(g, name, k + 1);
    }
}

/// Searching a longer symbol table finds, past the shorter one's end, only new symbols.
proof fn lemma_lookup_none_prefix(g: GenV, h: GenV, name: Seq<char>, k: nat)
    requires
        g.well_formed(),
        evolves(g, h),
        g.lookup_from(name, k) is None,
        k <= g.symbols.len(),
    ensures
        h.lookup_from(name, k) == h.lookup_from(name, g.symbols.len()),
    decreases g.symbols.len() - k,
{
    if k < g.symbols.len() {
        let sym = g.symbols[k as int];
        assert(h.symbols[k as int] == sym);
        match sym {
            crate::ir::Symbol::Func(f) => {
                assert(h.functions[f as int] == g.functions[f as int]);
                assert(h.strings[g.functions[f as int].name as int] == g.strings[g.functions[f as int].name as int]);
            },
            crate::ir::Symbol::Global(x) => {
                assert(h.globals[x as int] == g.globals[x as int]);
                assert(h.strings[g.globals[x as int].name as int] == g.strings[g.globals[x as int].name as int]);
            },
        }
        lemma_lookup_none_prefix(g, h, name, k + 1);
    }
}

/// The state after the first pass has declared the first `i` statements of a program.
pub open spec fn registered_upto(g: GenV, s: Seq<ASTNode>, i: nat) -> GenV
    decreases i,
{
    if i == 0 || i > s.len() {
        g
    } else {
        register_decl(registered_upto(g, s, (i - 1) as nat), s[i - 1])
    }
}

proof fn lemma_register_decl_evolves(g: GenV, n: ASTNode)
    ensures
        evolves(g, register_decl(g, n)),
        register_decl(g, n).globals == g.globals,
{
}

proof fn lemma_register_all_evolves(g: GenV, s: Seq<ASTNode>, i: nat)
    ensures
        evolves(g, register_all(g, s, i)),
    decreases s.len() - i,
{
    if i < s.len() {
        lemma_register_decl_evolves(g, s[i as int]);
        lemma_register_all_evolves(register_decl(g, s[i as int]), s, i + 1);
    }
}

proof fn lemma_register_split(g: GenV, s: Seq<ASTNode>, i: nat)
    requires
        i <= s.len(),
    ensures
        register_all(g, s, 0) == register_all(registered_upto(g, s, i), s, i),
    decreases i,
{
    if i > 0 {
        lemma_register_split(g, s, (i - 1) as nat);
    }
}

proof fn lemma_registered_upto(g: GenV, s: Seq<ASTNode>, i: nat)
    requires
        g.well_formed(),
        g.globals.len() == 0,
        i <= s.len(),
        bounded(register_all(g, s, 0)),
    ensures
        registered_upto(g, s, i).well_formed(),
        registered_upto(g, s, i).globals.len() == 0,
        evolves(registered_upto(g, s, i), register_all(g, s, 0)),
    decreases i,
{
    lemma_register_split(g, s, i);
    lemma_register_all_evolves(registered_upto(g, s, i), s, i);
    if i > 0 {
        let prev = registered_upto(g, s, (i - 1) as nat);
        lemma_registered_upto(g, s, (i - 1) as nat);
        lemma_register_decl_evolves(prev, s[i - 1]);
        lemma_register_keeps_wf(prev, s[i - 1]);
    }
}

/// Every external function declared in a program can be called from any statement of it,
/// wherever its declaration stands: the first pass declares them all before any code is
/// generated, and a name that resolves keeps resolving to the same function in every
/// later state.  (The module is taken without globals, as a fresh one is, and small
/// enough for its tables to be indexed.)
pub proof fn law_externs_resolve(g: GenV, s: Seq<ASTNode>, i: nat, h: GenV)
    requires
        g.well_formed(),
        g.globals.len() == 0,
        i < s.len(),
        s[i as int].data is ExternFn,
        bounded(register_all(g, s, 0)),
        evolves(register_all(g, s, 0), h),
    ensures
        h.lookup(s[i as int].data->ExternFn_name@) matches Some(crate::ir::Symbol::Func(_)),
{
    let name = s[i as int].data->ExternFn_name@;
    let st = registered_upto(g, s, i);
    lemma_registered_upto(g, s, i);
    lemma_registered_upto(g, s, i + 1);
    let st1 = registered_upto(g, s, i + 1);
    assert(st1 == register_decl(st, s[i as int]));
    lemma_extern_registered(st, s[i as int]);
    let fin = register_all(g, s, 0);
    law_lookup_stable(st1, fin, name);
    lemma_register_all_evolves(g, s, 0);
    lemma_registered_upto(g, s, s.len());
    lemma_register_all_keeps_wf_bounded(g, s);
    law_lookup_stable(fin, h, name);
}

proof fn lemma_register_all_keeps_wf_bounded(g: GenV, s: Seq<ASTNode>)
    requires
        g.well_formed(),
        g.globals.len() == 0,
        bounded(register_all(g, s, 0)),
    ensures
        register_all(g, s, 0).well_formed(),
{
    lemma_registered_upto(g, s, s.len());
    lemma_register_split(g, s, s.len());
}

/// A tree whose root is not a program is refused with "Expected program node", and the
/// generator is left as it was.
pub proof fn law_not_a_program(g: GenV, n: ASTNode)
    requires
        !(n.data is Program),
    ensures
        gen_program(g, n) == (g, Err::<(), Seq<char>>("Expected program node"@)),
{
}

/// A call of a name that no function of the module bears fails with
/// "Unknown function '<name>'" before any argument is generated.
pub proof fn law_unknown_function(g: GenV, n: ASTNode)
    requires
        n.data is CallExpr,
        !(g.lookup(n.data->CallExpr_name@) matches Some(crate::ir::Symbol::Func(_))),
    ensures
        gen_expr(g, n) == (
            g.check_name(n.data->CallExpr_name@),
            Err::<Operand, Seq<char>>("Unknown function '"@ + n.data->CallExpr_name@ + "'"@),
        ),
{
    lemma_lookup_same_tables(g, g.check_name(n.data->CallExpr_name@), n.data->CallExpr_name@, 0);
}

proof fn lemma_lookup_same_tables(g: GenV, h: GenV, name: Seq<char>, k: nat)
    requires
        h.symbols == g.symbols,
        h.functions == g.functions,
        h.globals == g.globals,
        h.strings == g.strings,
    ensures
        h.lookup_from(name, k) == g.lookup_from(name, k),
    decreases g.symbols.len() - k,
{
    if k < g.symbols.len() {
        lemma_lookup_same_tables(g, h, name, k + 1);
    }
}

/// A function declaration that is generated without error leaves no current function and
/// no variable bound: names bound inside a function are not visible after it.
pub proof fn law_function_scope_closes(g: GenV, n: ASTNode)
    requires
        n.data is FnDecl,
        gen_stmt(g, n).1 is Ok,
    ensures
        gen_stmt(g, n).0.current_function is None,
        gen_stmt(g, n).0.named.len() == 0,
{
}

/// `printf` is created once: the first request declares `i32 printf(i8*, ...)` and
/// records it; every later request returns the same function and changes nothing.  (The
/// tables are taken small enough to be indexed.)
pub proof fn law_printf_created_once(g: GenV)
    requires
        g.functions.len() < usize::MAX,
        g.strings.len() < usize::MAX,
    ensures
        ({
            let (h, f) = get_or_create_printf(g);
            &&& h.printf_fn == Some(f)
            &&& get_or_create_printf(h) == (h, f)
            &&& g.printf_fn is None ==> {
                &&& h.functions.len() == g.functions.len() + 1
                &&& f == g.functions.len()
                &&& h.functions[f as int].ret == Ty::I32
                &&& h.functions[f as int].param_ty == Ty::BytePtr
                &&& h.functions[f as int].param_count == 1
                &&& h.functions[f as int].vararg
                &&& h.strings[h.functions[f as int].name as int] == "printf"@
            }
            &&& g.printf_fn matches Some(f0) ==> h == g && f == f0
        }),
{
}

/// Declaring an external function a second time changes nothing: the name already
/// resolves to the function the first declaration added or found.  (This fails where a
/// global already bears the name, since the name then resolves to the global.)
pub proof fn law_extern_declaration_idempotent(g: GenV, n: ASTNode)
    requires
        g.well_formed(),
        n.data is ExternFn,
        !(g.lookup(n.data->ExternFn_name@) matches Some(crate::ir::Symbol::Global(_))),
        bounded(register_decl(g, n)),
    ensures
        register_decl(register_decl(g, n), n) == register_decl(g, n),
{
    let name = n.data->ExternFn_name@;
    let g1 = g.check_name(name);
    lemma_lookup_same_tables(g, g1, name, 0);
    let h = register_decl(g, n);
    match g1.lookup(name) {
        Some(crate::ir::Symbol::Func(_)) => {
            assert(h == g1);
        },
        _ => {
            let j = g1.symbols.len();
            let f = g1.functions.len();
            lemma_register_decl_evolves(g, n);
            assert(h.symbols[j as int] == crate::ir::Symbol::Func(f as usize));
            assert(h.functions[f as int].name == g1.strings.len());
            assert(h.strings[g1.strings.len() as int] == name);
            assert(h.lookup_from(name, j) == Some(crate::ir::Symbol::Func(f as usize)));
            lemma_lookup_none_prefix(g1, h, name, 0);
        },
    }
    assert(h.check_name(name) == h);
}

/// Taking the address of a variable gives the slot it is bound to and generates nothing;
/// dereferencing that address places one `i64` load from the slot, named `deref`, at the
/// builder's position, and changes nothing else but the string table and that block.
pub proof fn law_address_of_dereference(g: GenV, x: ASTNode, a: ASTNode, d: ASTNode)
    requires
        x.data is Identifier,
        g.named_get(x.data->Identifier_name@) is Some,
        a.data matches NodeData::AddressOf { operand } && *operand == x,
        d.data matches NodeData::Dereference { operand } && *operand == a,
    ensures
        ({
            let s = g.named_get(x.data->Identifier_name@)->0;
            let (h, r) = gen_expr(g, d);
            &&& gen_expr(g, a) == (g, Ok::<Operand, Seq<char>>(s))
            &&& r == Ok::<Operand, Seq<char>>(Operand::Inst(g.insts.len() as usize))
            &&& h.insts == g.insts.push(
                Placed { block: g.position, inst: Inst::Load { ptr: s, name: g.strings.len() as usize }, folded: false },
            )
            &&& h.strings == g.strings.push("deref"@)
            &&& h.position == g.position
            &&& h.named == g.named
            &&& h.loops == g.loops
            &&& h.symbols == g.symbols
            &&& h.functions == g.functions
            &&& h.globals == g.globals
            &&& h.args == g.args
            &&& h.blocks.len() == g.blocks.len()
        }),
{
    reveal(GenV::folds);
    let s = g.named_get(x.data->Identifier_name@)->0;
    assert(gen_expr(g, a) == gen_address_of(g, a));
    assert(gen_expr(g, d) == gen_deref(g, d));
    let g1 = g.intern("deref"@).0;
    assert(!g1.folds(Inst::Load { ptr: s, name: g.strings.len() as usize }));
}

/// A program of one statement generates as that statement does after the first pass has
/// registered it.
pub proof fn lemma_single_statement_program(g: GenV, p: ASTNode, st: ASTNode)
    requires
        p.data matches NodeData::Program { statements } && statements@ == seq![st],
    ensures
        gen_program(g, p) == gen_stmt(register_decl(g, st), st),
{
    match p.data {
        NodeData::Program { statements } => {
            let s = statements@;
            let g1 = register_decl(g, st);
            assert(register_all(g, s, 0) == register_all(g1, s, 1));
            assert(register_all(g1, s, 1) == g1);
            assert(s[0] == st);
            let (g2, r) = gen_stmt(g1, st);
            if r is Ok {
                let u: () = r->Ok_0;
                assert(u == ());
                assert(r == Ok::<(), Seq<char>>(()));
                assert(gen_top(g2, s, 1) == (g2, Ok::<(), Seq<char>>(())));
            }
            assert(gen_top(g1, s, 0) == gen_stmt(g1, st));
        },
        _ => {},
    }
}

/// Every function body ends in a closed block: after a function declaration is generated
/// without error, the block the builder stands in ends with a return or a branch, since a
/// body that falls off its end gets a default return (`ret i64 0` for `main`, `ret void`
/// otherwise).
pub proof fn law_function_body_is_closed(g: GenV, n: ASTNode)
    requires
        sound(g),
        n.data is FnDecl,
        gen_stmt(g, n).1 is Ok,
    ensures
        gen_stmt(g, n).0.position matches Some(p) && block_closed(gen_stmt(g, n).0, p),
{
    match n.data {
        NodeData::FnDecl { name, params, body } => {
            let is_main = name@ == "main"@;
            let ret = if is_main { Ty::I64 } else { Ty::Void };
            let g1 = g.check_name(name@);
            let (g2, f) = g1.add_function(name@, ret, Ty::I64, params.len(), false);
            let g3 = if is_main { GenV { target_default: true, ..g2 } } else { g2 };
            lemma_append_block(g3, f, "entry"@);
            let (g4, entry) = g3.append_block(f, "entry"@);
            let g5 = GenV { current_function: Some(f), ..g4.position_at(entry) };
            lemma_params(g5, texts(params@), f, 0);
            let g6 = gen_params(g5, texts(params@), f, 0);
            lemma_stmt(g6, *body);
            let g7 = gen_stmt(g6, *body).0;
            lemma_finish_body(g7, is_main);
            let g8 = finish_body(g7, is_main);
            let p = g7.position->0;
            if !g7.terminated(p) {
                let i = if is_main { Inst::Ret { value: zero64() } } else { Inst::RetVoid };
                lemma_place(g7, i);
                assert(last_in(g8.insts, p) == Some(g7.insts.len() as int));
            }
            assert(g8.blocks[p as int].terminated);
        },
        _ => {},
    }
}

/// `break` and `continue` outside any loop generate nothing.
pub proof fn law_jump_outside_loop_is_noop(g: GenV, n: ASTNode)
    requires
        n.data is BreakStmt || n.data is ContinueStmt,
        g.loops.len() == 0,
    ensures
        gen_stmt(g, n) == (g, Ok::<(), Seq<char>>(())),
{
}

/// Inside a loop, `break` branches to the loop's end and `continue` to the block that
/// starts its next iteration.
pub proof fn law_jump_targets(g: GenV, n: ASTNode)
    requires
        n.data is BreakStmt || n.data is ContinueStmt,
        g.loops.len() > 0,
    ensures
        gen_stmt(g, n).0.insts.last().inst == (Inst::Br {
            target: if n.data is BreakStmt { g.loops.last().end_block } else { g.loops.last().cond_block },
        }),
        gen_stmt(g, n).0.insts.len() == g.insts.len() + 1,
{
}
} // verus!
