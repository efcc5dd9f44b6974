//! What the code emitted for a construct means: comparisons compute the source operator's
//! relation, branches lead where the source says, calls receive their arguments in
//! source order, and parameters are bound to their own arguments.
use vstd::prelude::*;
use crate::ast::{ASTNode, NodeData, TokenType};
use crate::genspec::{
    arm_count, branch_unless_terminated, gen_arms, gen_binary, gen_unary, gen_while, gen_concat, gen_expr, gen_params, gen_stmt, place_named,
    test_nonzero, zero64,
};
use crate::ir::{ArithOp, Inst, IntPred, Operand};
use crate::laws::{
    lemma_branch_unless_terminated, lemma_create_block, lemma_expr, lemma_place, lemma_place_named, lemma_stmt,
    lemma_test_nonzero, prefix_of, sound,
};
use crate::text::decimal;
use crate::state::GenV;

verus! {

/// Whether an LLVM integer comparison with predicate `p` holds of two signed values.
pub open spec fn predicate_holds(p: IntPred, a: int, b: int) -> bool {
    match p {
        IntPred::Eq => a == b,
        IntPred::Ne => a != b,
        IntPred::Slt => a < b,
        IntPred::Sle => a <= b,
        IntPred::Sgt => a > b,
        IntPred::Sge => a >= b,
    }
}

/// The comparison operators of the language.
pub open spec fn is_comparison(op: TokenType) -> bool {
    ||| op is Eq
    ||| op is Neq
    ||| op is Lt
    ||| op is Le
    ||| op is Gt
    ||| op is Ge
}

/// The relation a comparison operator of the language denotes on integers.
pub open spec fn denotes(op: TokenType, a: int, b: int) -> bool {
    match op {
        TokenType::Eq => a == b,
        TokenType::Neq => a != b,
        TokenType::Lt => a < b,
        TokenType::Le => a <= b,
        TokenType::Gt => a > b,
        TokenType::Ge => a >= b,
        _ => false,
    }
}

/// A comparison `left op right` computes the operator's relation: after both operands are
/// generated, one integer comparison of the left value with the right value is added whose
/// predicate holds exactly when the operator's relation does, then its widening to `i64`,
/// which is the expression's value.
pub proof fn law_comparison_computes_its_relation(g: GenV, n: ASTNode)
    requires
        n.data matches NodeData::BinaryExpr { operator, left, right } && is_comparison(operator)
            && gen_expr(g, *left).1 is Ok && gen_expr(gen_expr(g, *left).0, *right).1 is Ok,
    ensures
        match n.data {
            NodeData::BinaryExpr { operator, left, right } => {
                let (g1, rl) = gen_expr(g, *left);
                let (g2, rr) = gen_expr(g1, *right);
                let k: int = g2.insts.len() as int;
                let (h, r) = gen_expr(g, n);
                &&& h.insts.len() == k + 2
                &&& h.insts[k].inst matches Inst::ICmp { pred, lhs, rhs, .. }
                    && lhs == rl->Ok_0 && rhs == rr->Ok_0
                    && forall|a: int, b: int| predicate_holds(pred, a, b) == denotes(operator, a, b)
                &&& h.insts[k + 1].inst == (Inst::ZExt { value: Operand::Inst(k as usize), name: h.insts[k + 1].inst->ZExt_name })
                &&& r == Ok::<Operand, Seq<char>>(Operand::Inst((k + 1) as usize))
            },
            _ => true,
        },
{
    reveal(GenV::folds);
    assert(gen_expr(g, n) == gen_binary(g, n));
}

/// A string concatenation calls the concatenation function with the left operand's value
/// as its first argument and the right operand's value as its second; the call's result
/// is the expression's value.  (The argument table is taken small enough to be indexed.)
pub proof fn law_concat_passes_left_then_right(g: GenV, n: ASTNode)
    requires
        n.data matches NodeData::StringConcat { left, right } && gen_expr(g, *left).1 is Ok
            && gen_expr(gen_expr(g, *left).0, *right).1 is Ok,
        gen_expr(g, n).0.args.len() <= usize::MAX,
    ensures
        match n.data {
            NodeData::StringConcat { left, right } => {
                let (g1, rl) = gen_expr(g, *left);
                let (g2, rr) = gen_expr(g1, *right);
                let (h, r) = gen_expr(g, n);
                let k: int = h.insts.len() - 1;
                &&& h.insts.len() == g2.insts.len() + 1
                &&& h.insts[k].inst matches Inst::Call { args_start, args_len, .. }
                    && args_len == 2 && args_start + 2 == h.args.len()
                    && h.args[args_start as int] == rl->Ok_0 && h.args[args_start + 1] == rr->Ok_0
                &&& r == Ok::<Operand, Seq<char>>(Operand::Inst(k as usize))
            },
            _ => true,
        },
{
    reveal(GenV::folds);
    assert(gen_expr(g, n) == gen_concat(g, n));
}

/// The parameter at position `i`, named `p`, has its slot allocated by instruction `a`,
/// initialised from argument `i` of function `f` by the instruction after it, and is
/// bound to that slot by binding `b`.
pub open spec fn binds(h: GenV, a: int, b: int, f: usize, i: int, p: Seq<char>) -> bool {
    &&& h.insts[a].inst is Alloca
    &&& h.insts[a + 1].inst == (Inst::Store { value: Operand::Param(f, i as u32), ptr: Operand::Inst(a as usize) })
    &&& h.named[b].1 == Operand::Inst(a as usize)
    &&& h.strings[h.named[b].0 as int] == p
}

/// The binding of the parameters from position `j` on.
proof fn lemma_params_bind(g: GenV, ps: Seq<Seq<char>>, f: usize, j: nat)
    requires
        j <= ps.len(),
        gen_params(g, ps, f, j).strings.len() <= usize::MAX,
    ensures
        ({
            let h = gen_params(g, ps, f, j);
            &&& prefix_of(g.insts, h.insts)
            &&& prefix_of(g.named, h.named)
            &&& prefix_of(g.strings, h.strings)
            &&& h.insts.len() == g.insts.len() + 2 * (ps.len() - j)
            &&& h.named.len() == g.named.len() + (ps.len() - j)
            &&& forall|i: int| #![trigger ps[i]] j <= i < ps.len() ==> binds(
                h,
                g.insts.len() + 2 * (i - j),
                g.named.len() + (i - j),
                f,
                i,
                ps[i],
            )
        }),
    decreases ps.len() - j,
{
    reveal(GenV::folds);
    if j < ps.len() {
        let p = ps[j as int];
        let g1 = g.check_name(p);
        let (g2, pn) = g1.intern(p);
        let g3 = GenV { param_names: g2.param_names.push(crate::ir::ParamName { func: f, index: j as u32, name: pn }), ..g2 };
        let (g4, slot) = crate::genspec::place_named(g3, p, |nm: usize| Inst::Alloca { ty: crate::ir::Ty::I64, name: nm });
        let g5 = g4.place(Inst::Store { value: Operand::Param(f, j as u32), ptr: slot }).0;
        let g6 = g5.named_insert(p, slot);
        assert(gen_params(g, ps, f, j) == gen_params(g6, ps, f, j + 1));
        lemma_params_bind(g6, ps, f, j + 1);
        let h = gen_params(g6, ps, f, j + 1);
        assert(g6.insts.len() == g.insts.len() + 2);
        assert(g6.named.len() == g.named.len() + 1);
        assert(g6.named[g.named.len() as int] == (g5.strings.len() as usize, slot));
        assert(g6.strings[g5.strings.len() as int] == p);
        assert(slot == Operand::Inst(g.insts.len() as usize));
        assert forall|i: int| #![trigger ps[i]] j <= i < ps.len() implies binds(
            h,
            g.insts.len() + 2 * (i - j),
            g.named.len() + (i - j),
            f,
            i,
            ps[i],
        ) by {
            if i == j {
                assert(h.insts[g.insts.len() as int] == g6.insts[g.insts.len() as int]);
                assert(h.insts[g.insts.len() + 1int] == g6.insts[g.insts.len() + 1int]);
                assert(h.named[g.named.len() as int] == g6.named[g.named.len() as int]);
                assert(h.strings[g5.strings.len() as int] == g6.strings[g5.strings.len() as int]);
            } else {
                assert(binds(h, g6.insts.len() + 2 * (i - (j + 1)), g6.named.len() + (i - (j + 1)), f, i, ps[i]));
            }
        }
        assert forall|k: int| 0 <= k < g.insts.len() implies #[trigger] h.insts[k] == g.insts[k] by {
            assert(g6.insts[k] == g.insts[k]);
        }
        assert forall|k: int| 0 <= k < g.named.len() implies #[trigger] h.named[k] == g.named[k] by {
            assert(g6.named[k] == g.named[k]);
        }
        assert forall|k: int| 0 <= k < g.strings.len() implies #[trigger] h.strings[k] == g.strings[k] by {
            assert(g6.strings[k] == g.strings[k]);
        }
    }
}

/// In a function declaration every parameter is bound to a slot of its own, initialised
/// from the function's argument at the parameter's position: for each `i`, the `i`-th new
/// binding gives the `i`-th parameter's name the `i`-th new slot, and the store that
/// follows that slot's allocation writes argument `i` of the function into it.  (The
/// string table is taken small enough to be indexed.)
pub proof fn law_parameters_bound_to_their_arguments(g: GenV, ps: Seq<Seq<char>>, f: usize)
    requires
        gen_params(g, ps, f, 0).strings.len() <= usize::MAX,
    ensures
        gen_params(g, ps, f, 0).insts.len() == g.insts.len() + 2 * ps.len(),
        gen_params(g, ps, f, 0).named.len() == g.named.len() + ps.len(),
        forall|i: int| #![trigger ps[i]] 0 <= i < ps.len() ==> binds(
            gen_params(g, ps, f, 0),
            g.insts.len() + 2 * i,
            g.named.len() + i,
            f,
            i,
            ps[i],
        ),
{
    lemma_params_bind(g, ps, f, 0);
}

/// The label of block `b`.
pub open spec fn label_of(h: GenV, b: usize) -> Seq<char> {
    h.strings[h.blocks[b as int].label as int]
}

/// An `if` statement branches on its condition: right after the condition is generated, a
/// test that holds exactly when the condition's value is non-zero is added, and then a
/// conditional branch on that test whose true edge goes to the new block labelled `then`
/// and whose false edge goes to the new block labelled `else` after it.  (The tables are
/// taken small enough to be indexed.)
#[verifier::rlimit(40)]
#[verifier::spinoff_prover]
pub proof fn law_if_branches_on_its_condition(g: GenV, n: ASTNode)
    requires
        sound(g),
        n.data matches NodeData::IfStmt { condition, .. } && gen_expr(g, *condition).1 is Ok,
        gen_stmt(g, n).0.strings.len() <= usize::MAX,
        gen_stmt(g, n).0.blocks.len() <= usize::MAX,
    ensures
        match n.data {
            NodeData::IfStmt { condition, .. } => {
                let (g1, rc) = gen_expr(g, *condition);
                let k: int = g1.insts.len() as int;
                let h = gen_stmt(g, n).0;
                &&& h.insts.len() >= k + 2
                &&& h.insts[k].inst matches Inst::ICmp { pred, lhs, rhs, .. }
                    && lhs == rc->Ok_0 && rhs == Operand::ConstI64(0)
                    && forall|a: int| predicate_holds(pred, a, 0) == (a != 0)
                &&& h.insts[k + 1].inst matches Inst::CondBr { cond, then_block, else_block }
                    && cond == Operand::Inst(k as usize)
                    && then_block == g1.blocks.len() && else_block == g1.blocks.len() + 1
                    && label_of(h, then_block) == "then"@ && label_of(h, else_block) == "else"@
            },
            _ => true,
        },
{
    reveal(GenV::folds);
    match n.data {
        NodeData::IfStmt { condition, then_branch, else_branch } => {
            lemma_expr(g, *condition);
            let (g1, r) = gen_expr(g, *condition);
            let cv = r->Ok_0;
            lemma_test_nonzero(g1, cv, "if_cond"@);
            let (g2, c) = test_nonzero(g1, cv, "if_cond"@);
            lemma_create_block(g2, "then"@);
            let (g3, then_b) = g2.create_block("then"@);
            lemma_create_block(g3, "else"@);
            let (g4, else_b) = g3.create_block("else"@);
            lemma_create_block(g4, "if_merge"@);
            let (g5, merge) = g4.create_block("if_merge"@);
            let br = Inst::CondBr { cond: c, then_block: then_b, else_block: else_b };
            lemma_place(g5, br);
            let g6 = g5.place(br).0;
            lemma_stmt(g6.position_at(then_b), *then_branch);
            let (g7, rt) = gen_stmt(g6.position_at(then_b), *then_branch);
            if rt is Ok {
                lemma_branch_unless_terminated(g7, then_b, merge);
                let g8 = branch_unless_terminated(g7, then_b, merge).position_at(else_b);
                match else_branch {
                    Some(eb) => lemma_stmt(g8, *eb),
                    None => {},
                }
                let (g9, re) = match else_branch {
                    Some(eb) => gen_stmt(g8, *eb),
                    None => (g8, Ok(())),
                };
                if re is Ok {
                    lemma_branch_unless_terminated(g9, else_b, merge);
                }
            }
            let h = gen_stmt(g, n).0;
            assert(crate::laws::evolves(g6, h));
            let k: int = g1.insts.len() as int;
            assert(g6.insts[k] == h.insts[k]);
            assert(g6.insts[k + 1] == h.insts[k + 1]);
            assert(g3.strings[g2.strings.len() as int] == "then"@);
            assert(g4.strings[g3.strings.len() as int] == "else"@);
            assert(h.strings[g2.strings.len() as int] == g6.strings[g2.strings.len() as int]);
            assert(h.strings[g3.strings.len() as int] == g6.strings[g3.strings.len() as int]);
            assert(h.blocks[then_b as int].label == g6.blocks[then_b as int].label);
            assert(h.blocks[else_b as int].label == g6.blocks[else_b as int].label);
        },
        _ => {},
    }
}

/// The block in which the pattern of arm `i` of a match with `num` arms is tested: a new
/// block for every arm but the last, which is tested where the previous test failed.
pub open spec fn arm_test_state(g: GenV, i: nat, num: nat) -> GenV {
    if i + 1 < num {
        g.create_block("match_arm_"@ + decimal(i)).0
    } else {
        g
    }
}

/// Arm `i` of a match is guarded by an equality test: once its pattern is generated, a
/// comparison is added that holds exactly when the matched value equals the pattern's
/// value, and then a conditional branch on it whose true edge goes to the new block
/// labelled `match_arm_body_<i>` and whose false edge goes to the next arm's test block
/// or, for the last arm, to the match's end.  (The tables are taken small enough to be
/// indexed.)
#[verifier::rlimit(40)]
#[verifier::spinoff_prover]
pub proof fn law_match_arm_tests_equality(g: GenV, n: ASTNode, i: nat, v: Operand, result: Operand, end: usize)
    requires
        sound(g),
        end < g.blocks.len(),
        n.data is MatchExpr,
        i < arm_count(n.data->MatchExpr_patterns.len() as nat, n.data->MatchExpr_bodies.len() as nat),
        gen_arms(g, n, i, v, result, end).0.strings.len() <= usize::MAX,
        gen_arms(g, n, i, v, result, end).0.blocks.len() <= usize::MAX,
    ensures
        ({
            let num = arm_count(n.data->MatchExpr_patterns.len() as nat, n.data->MatchExpr_bodies.len() as nat);
            let (g2, rp) = gen_expr(arm_test_state(g, i, num), n.data->MatchExpr_patterns@[i as int]);
            let k: int = g2.insts.len() as int;
            let h = gen_arms(g, n, i, v, result, end).0;
            rp is Ok ==> {
                &&& h.insts.len() >= k + 2
                &&& h.insts[k].inst matches Inst::ICmp { pred, lhs, rhs, .. }
                    && lhs == v && rhs == rp->Ok_0
                    && forall|a: int, b: int| predicate_holds(pred, a, b) == (a == b)
                &&& h.insts[k + 1].inst matches Inst::CondBr { cond, then_block, else_block }
                    && cond == Operand::Inst(k as usize)
                    && then_block == g2.blocks.len()
                    && label_of(h, then_block) == "match_arm_body_"@ + decimal(i)
                    && else_block == (if i + 1 < num { g.blocks.len() as usize } else { end })
            }
        }),
{
    reveal(GenV::folds);
    match n.data {
        NodeData::MatchExpr { patterns, bodies, .. } => {
            let num = arm_count(patterns.len() as nat, bodies.len() as nat);
            let (g1, next) = if i + 1 < num {
                lemma_create_block(g, "match_arm_"@ + decimal(i));
                let (g0, b) = g.create_block("match_arm_"@ + decimal(i));
                (g0, Some(b))
            } else {
                (g, None)
            };
            assert(g1 == arm_test_state(g, i, num));
            lemma_expr(g1, patterns@[i as int]);
            let (g2, r) = gen_expr(g1, patterns@[i as int]);
            if let Ok(pv) = r {
                let mk = |nm: usize| Inst::ICmp { pred: IntPred::Eq, lhs: v, rhs: pv, name: nm };
                lemma_place_named(g2, "match_cmp"@, mk);
                let (g3, c) = place_named(g2, "match_cmp"@, mk);
                lemma_create_block(g3, "match_arm_body_"@ + decimal(i));
                let (g4, arm) = g3.create_block("match_arm_body_"@ + decimal(i));
                let target = match next {
                    Some(nx) => nx,
                    None => end,
                };
                let br = Inst::CondBr { cond: c, then_block: arm, else_block: target };
                lemma_place(g4, br);
                let g5 = match next {
                    Some(nx) => g4.place(br).0.position_at(nx),
                    None => g4.place(br).0,
                };
                let g6 = g5.position_at(arm);
                lemma_expr(g6, bodies@[i as int]);
                let (g7, rb) = gen_expr(g6, bodies@[i as int]);
                if let Ok(bv) = rb {
                    lemma_place(g7, Inst::Store { value: bv, ptr: result });
                    let g8 = g7.place(Inst::Store { value: bv, ptr: result }).0;
                    lemma_place(g8, Inst::Br { target: end });
                    let g9 = g8.place(Inst::Br { target: end }).0;
                    crate::laws::lemma_arms(g9, n, i + 1, v, result, end);
                }
                let h = gen_arms(g, n, i, v, result, end).0;
                assert(crate::laws::evolves(g5, h));
                let k: int = g2.insts.len() as int;
                assert(g5.insts[k] == h.insts[k]);
                assert(g5.insts[k + 1] == h.insts[k + 1]);
                assert(g4.strings[g3.strings.len() as int] == "match_arm_body_"@ + decimal(i));
                assert(h.strings[g3.strings.len() as int] == g5.strings[g3.strings.len() as int]);
                assert(h.blocks[arm as int].label == g5.blocks[arm as int].label);
            }
        },
        _ => {},
    }
}

/// Truncating integer division, as LLVM's `sdiv` computes it (zero for a zero divisor,
/// where LLVM leaves the result undefined).
pub open spec fn quotient(x: int, y: int) -> int {
    let ax = if x < 0 { -x } else { x };
    let ay = if y < 0 { -y } else { y };
    if y == 0 {
        0
    } else if (x >= 0) == (y > 0) {
        ax / ay
    } else {
        -(ax / ay)
    }
}

/// The remainder that goes with `quotient`, as LLVM's `srem` computes it.
pub open spec fn remainder(x: int, y: int) -> int {
    x - y * quotient(x, y)
}

/// The value an LLVM integer arithmetic instruction computes from two signed values.
pub open spec fn arith_value(a: ArithOp, x: int, y: int) -> int {
    match a {
        ArithOp::Add => x + y,
        ArithOp::Sub => x - y,
        ArithOp::Mul => x * y,
        ArithOp::SDiv => quotient(x, y),
        ArithOp::SRem => remainder(x, y),
    }
}

/// The arithmetic operators of the language.
pub open spec fn is_arithmetic(op: TokenType) -> bool {
    ||| op is Plus
    ||| op is Minus
    ||| op is Star
    ||| op is Slash
    ||| op is Percent
}

/// The value an arithmetic operator of the language denotes: `/` and `%` divide with the
/// quotient truncated toward zero.
pub open spec fn denotes_value(op: TokenType, x: int, y: int) -> int {
    match op {
        TokenType::Plus => x + y,
        TokenType::Minus => x - y,
        TokenType::Star => x * y,
        TokenType::Slash => quotient(x, y),
        TokenType::Percent => x - y * quotient(x, y),
        _ => 0,
    }
}

/// An arithmetic expression `left op right` computes the operator's value: after both
/// operands are generated, one arithmetic instruction on the left and the right value is
/// added whose result is the operator's value for all operands, and it is the
/// expression's value.
pub proof fn law_arithmetic_computes_its_value(g: GenV, n: ASTNode)
    requires
        n.data matches NodeData::BinaryExpr { operator, left, right } && is_arithmetic(operator)
            && gen_expr(g, *left).1 is Ok && gen_expr(gen_expr(g, *left).0, *right).1 is Ok,
    ensures
        match n.data {
            NodeData::BinaryExpr { operator, left, right } => {
                let (g1, rl) = gen_expr(g, *left);
                let (g2, rr) = gen_expr(g1, *right);
                let k: int = g2.insts.len() as int;
                let (h, r) = gen_expr(g, n);
                &&& h.insts.len() == k + 1
                &&& h.insts[k].inst matches Inst::Arith { op, lhs, rhs, .. }
                    && lhs == rl->Ok_0 && rhs == rr->Ok_0
                    && forall|x: int, y: int| arith_value(op, x, y) == denotes_value(operator, x, y)
                &&& r == Ok::<Operand, Seq<char>>(Operand::Inst(k as usize))
            },
            _ => true,
        },
{
    reveal(GenV::folds);
    assert(gen_expr(g, n) == gen_binary(g, n));
}

/// Unary minus negates its operand; `!` gives the widening of a test that holds exactly
/// when the operand is zero.
pub proof fn law_unary_operators(g: GenV, n: ASTNode)
    requires
        n.data matches NodeData::UnaryExpr { operator, operand } && (operator is Minus || operator is Not)
            && gen_expr(g, *operand).1 is Ok,
    ensures
        match n.data {
            NodeData::UnaryExpr { operator, operand } => {
                let (g1, rv) = gen_expr(g, *operand);
                let k: int = g1.insts.len() as int;
                let (h, r) = gen_expr(g, n);
                &&& operator is Minus ==> {
                    &&& h.insts.len() == k + 1
                    &&& h.insts[k].inst matches Inst::Neg { value, .. } && value == rv->Ok_0
                    &&& r == Ok::<Operand, Seq<char>>(Operand::Inst(k as usize))
                }
                &&& operator is Not ==> {
                    &&& h.insts.len() == k + 2
                    &&& h.insts[k].inst matches Inst::ICmp { pred, lhs, rhs, .. }
                        && lhs == rv->Ok_0 && rhs == Operand::ConstI64(0)
                        && forall|a: int| predicate_holds(pred, a, 0) == (a == 0)
                    &&& h.insts[k + 1].inst == (Inst::ZExt { value: Operand::Inst(k as usize), name: h.insts[k + 1].inst->ZExt_name })
                    &&& r == Ok::<Operand, Seq<char>>(Operand::Inst((k + 1) as usize))
                }
            },
            _ => true,
        },
{
    reveal(GenV::folds);
    assert(gen_expr(g, n) == gen_unary(g, n));
}

/// The state in which a `while` loop's condition is generated: its three blocks created
/// and the builder moved into the first of them by a branch.
pub open spec fn while_cond_state(g: GenV) -> GenV {
    let (g1, cond_b) = g.create_block("while_cond"@);
    let g3 = g1.create_block("while_body"@).0.create_block("while_end"@).0;
    g3.place(Inst::Br { target: cond_b }).0.position_at(cond_b)
}

/// A `while` loop enters its condition block, labelled `while_cond`, by a branch; after
/// the condition, a test that holds exactly when the condition's value is non-zero is
/// added, and a conditional branch on it whose true edge goes to the block labelled
/// `while_body` and whose false edge leaves the loop for the block labelled `while_end`.
/// (The tables are taken small enough to be indexed.)
#[verifier::rlimit(40)]
#[verifier::spinoff_prover]
pub proof fn law_while_branches_on_its_condition(g: GenV, n: ASTNode)
    requires
        sound(g),
        n.data is WhileStmt,
        gen_expr(while_cond_state(g), *n.data->WhileStmt_condition).1 is Ok,
        gen_stmt(g, n).0.strings.len() <= usize::MAX,
        gen_stmt(g, n).0.blocks.len() <= usize::MAX,
    ensures
        ({
            let (g5, rc) = gen_expr(while_cond_state(g), *n.data->WhileStmt_condition);
            let k: int = g5.insts.len() as int;
            let b0 = g.blocks.len() as usize;
            let h = gen_stmt(g, n).0;
            &&& h.insts.len() >= k + 2
            &&& h.insts[g.insts.len() as int].inst == (Inst::Br { target: b0 })
            &&& label_of(h, b0) == "while_cond"@
            &&& h.insts[k].inst matches Inst::ICmp { pred, lhs, rhs, .. }
                && lhs == rc->Ok_0 && rhs == Operand::ConstI64(0)
                && forall|a: int| predicate_holds(pred, a, 0) == (a != 0)
            &&& h.insts[k + 1].inst matches Inst::CondBr { cond, then_block, else_block }
                && cond == Operand::Inst(k as usize)
                && label_of(h, then_block) == "while_body"@ && label_of(h, else_block) == "while_end"@
                && then_block == b0 + 1 && else_block == b0 + 2
        }),
{
    reveal(GenV::folds);
    match n.data {
        NodeData::WhileStmt { condition, body } => {
            lemma_create_block(g, "while_cond"@);
            let (g1, cond_b) = g.create_block("while_cond"@);
            lemma_create_block(g1, "while_body"@);
            let (g2, body_b) = g1.create_block("while_body"@);
            lemma_create_block(g2, "while_end"@);
            let (g3, end_b) = g2.create_block("while_end"@);
            lemma_place(g3, Inst::Br { target: cond_b });
            let g4 = g3.place(Inst::Br { target: cond_b }).0.position_at(cond_b);
            assert(g4 == while_cond_state(g));
            lemma_expr(g4, *condition);
            let (g5, r) = gen_expr(g4, *condition);
            let cv = r->Ok_0;
            lemma_test_nonzero(g5, cv, "while_cmp"@);
            let (g6, c) = test_nonzero(g5, cv, "while_cmp"@);
            let br = Inst::CondBr { cond: c, then_block: body_b, else_block: end_b };
            lemma_place(g6, br);
            let g7 = g6.place(br).0.position_at(body_b);
            let l = crate::state::LoopInfo { cond_block: cond_b, end_block: end_b };
            let g8 = GenV { loops: g7.loops.push(l), ..g7 };
            lemma_stmt(g8, *body);
            let (g9, rb) = gen_stmt(g8, *body);
            if rb is Ok {
                let g10 = g9.pop_loop();
                lemma_branch_unless_terminated(g10, body_b, cond_b);
            }
            let h = gen_stmt(g, n).0;
            assert(crate::laws::evolves(g7, h));
            let k: int = g5.insts.len() as int;
            assert(g7.insts[k] == h.insts[k]);
            assert(g7.insts[k + 1] == h.insts[k + 1]);
            assert(g7.insts[g.insts.len() as int] == h.insts[g.insts.len() as int]);
            assert(g1.strings[g.strings.len() as int] == "while_cond"@);
            assert(g2.strings[g1.strings.len() as int] == "while_body"@);
            assert(g3.strings[g2.strings.len() as int] == "while_end"@);
            assert(h.strings[g.strings.len() as int] == g7.strings[g.strings.len() as int]);
            assert(h.strings[g1.strings.len() as int] == g7.strings[g1.strings.len() as int]);
            assert(h.strings[g2.strings.len() as int] == g7.strings[g2.strings.len() as int]);
            assert(h.blocks[cond_b as int].label == g7.blocks[cond_b as int].label);
            assert(h.blocks[body_b as int].label == g7.blocks[body_b as int].label);
            assert(h.blocks[end_b as int].label == g7.blocks[end_b as int].label);
        },
        _ => {},
    }
}

/// The state in which a `for` loop's condition is generated, from the state after its
/// initializer: its four blocks created and the builder moved into the first of them by
/// a branch.
pub open spec fn for_cond_state(g1: GenV) -> GenV {
    let (g2, cond_b) = g1.create_block("for_cond"@);
    let g5 = g2.create_block("for_body"@).0.create_block("for_update"@).0.create_block("for_end"@).0;
    g5.place(Inst::Br { target: cond_b }).0.position_at(cond_b)
}

/// The value a `for` loop's condition gives in the state `g6`: the condition's value, or
/// one where the loop has no condition.
pub open spec fn for_condition(g6: GenV, condition: Option<Box<ASTNode>>) -> (GenV, Result<Operand, Seq<char>>) {
    match condition {
        Some(c) => gen_expr(g6, *c),
        None => (g6, Ok(Operand::ConstI64(1))),
    }
}

/// A `for` loop, after its initializer, enters its condition block, labelled `for_cond`,
/// by a branch; after the condition (true when absent), a test that holds exactly when
/// the condition's value is non-zero is added, and a conditional branch on it whose true
/// edge goes to the block labelled `for_body` and whose false edge leaves the loop for
/// the block labelled `for_end`.  (The tables are taken small enough to be indexed.)
#[verifier::rlimit(60)]
#[verifier::spinoff_prover]
pub proof fn law_for_branches_on_its_condition(g: GenV, n: ASTNode)
    requires
        sound(g),
        n.data matches NodeData::ForStmt { initializer, condition, .. }
            && (match initializer {
                Some(init) => gen_stmt(g, *init),
                None => (g, Ok(())),
            }).1 is Ok
            && for_condition(for_cond_state((match initializer {
                Some(init) => gen_stmt(g, *init),
                None => (g, Ok(())),
            }).0), condition).1 is Ok,
        gen_stmt(g, n).0.strings.len() <= usize::MAX,
        gen_stmt(g, n).0.blocks.len() <= usize::MAX,
    ensures
        match n.data {
            NodeData::ForStmt { initializer, condition, .. } => {
                let g1 = (match initializer {
                    Some(init) => gen_stmt(g, *init),
                    None => (g, Ok(())),
                }).0;
                let (g7, rc) = for_condition(for_cond_state(g1), condition);
                let k: int = g7.insts.len() as int;
                let b0 = g1.blocks.len() as usize;
                let h = gen_stmt(g, n).0;
                &&& h.insts.len() >= k + 2
                &&& h.insts[g1.insts.len() as int].inst == (Inst::Br { target: b0 })
                &&& label_of(h, b0) == "for_cond"@
                &&& h.insts[k].inst matches Inst::ICmp { pred, lhs, rhs, .. }
                    && lhs == rc->Ok_0 && rhs == Operand::ConstI64(0)
                    && forall|a: int| predicate_holds(pred, a, 0) == (a != 0)
                &&& h.insts[k + 1].inst matches Inst::CondBr { cond, then_block, else_block }
                    && cond == Operand::Inst(k as usize)
                    && label_of(h, then_block) == "for_body"@ && label_of(h, else_block) == "for_end"@
                    && then_block == b0 + 1 && else_block == b0 + 3
            },
            _ => true,
        },
{
    reveal(GenV::folds);
    match n.data {
        NodeData::ForStmt { initializer, condition, update, body } => {
            match initializer {
                Some(init) => lemma_stmt(g, *init),
                None => {},
            }
            let g1 = (match initializer {
                Some(init) => gen_stmt(g, *init),
                None => (g, Ok(())),
            }).0;
            lemma_create_block(g1, "for_cond"@);
            let (g2, cond_b) = g1.create_block("for_cond"@);
            lemma_create_block(g2, "for_body"@);
            let (g3, body_b) = g2.create_block("for_body"@);
            lemma_create_block(g3, "for_update"@);
            let (g4, update_b) = g3.create_block("for_update"@);
            lemma_create_block(g4, "for_end"@);
            let (g5, end_b) = g4.create_block("for_end"@);
            lemma_place(g5, Inst::Br { target: cond_b });
            let g6 = g5.place(Inst::Br { target: cond_b }).0.position_at(cond_b);
            assert(g6 == for_cond_state(g1));
            match condition {
                Some(c) => lemma_expr(g6, *c),
                None => {},
            }
            let (g7, rc) = for_condition(g6, condition);
            let cv = rc->Ok_0;
            lemma_test_nonzero(g7, cv, "for_cmp"@);
            let (g8, c) = test_nonzero(g7, cv, "for_cmp"@);
            let br = Inst::CondBr { cond: c, then_block: body_b, else_block: end_b };
            lemma_place(g8, br);
            let g9p = g8.place(br).0;
            let g9 = g9p.position_at(body_b);
            crate::laws::lemma_for_rest(g9, *body, update, cond_b, body_b, update_b, end_b, n);
            let h = gen_stmt(g, n).0;
            assert(h == crate::laws::for_rest(g9, *body, update, cond_b, body_b, update_b, end_b).0);
            assert(crate::laws::evolves(g9, h));
            let k: int = g7.insts.len() as int;
            assert(g9.insts[k] == h.insts[k]);
            assert(g9.insts[k + 1] == h.insts[k + 1]);
            assert(g9.insts[g1.insts.len() as int] == h.insts[g1.insts.len() as int]);
            assert(g2.strings[g1.strings.len() as int] == "for_cond"@);
            assert(g3.strings[g2.strings.len() as int] == "for_body"@);
            assert(g5.strings[g4.strings.len() as int] == "for_end"@);
            assert(h.strings[g1.strings.len() as int] == g9.strings[g1.strings.len() as int]);
            assert(h.strings[g2.strings.len() as int] == g9.strings[g2.strings.len() as int]);
            assert(h.strings[g4.strings.len() as int] == g9.strings[g4.strings.len() as int]);
            assert(h.blocks[cond_b as int].label == g9.blocks[cond_b as int].label);
            assert(h.blocks[body_b as int].label == g9.blocks[body_b as int].label);
            assert(h.blocks[end_b as int].label == g9.blocks[end_b as int].label);
        },
        _ => {},
    }
}

} // verus!
