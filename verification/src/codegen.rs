//! The code generator: it walks a syntax tree and builds the module, each step proved to
//! do what the corresponding function of `genspec` states.
use vstd::prelude::*;
use vstd::string::*;
use crate::ast::{ASTNode, LiteralType, LiteralValue, NodeData, TokenType};
use crate::genspec::{
    arm_count, array_ty, binary_op, branch_unless_terminated, call, compare, emit_printf, emit_printf_float,
    emit_printf_int, emit_printf_str, extern_ret, finish_body, gen_address_of, gen_args, gen_arms, gen_array,
    gen_array_elems, gen_assign, gen_binary, gen_block, gen_break, gen_call, gen_concat, gen_continue, gen_deref,
    gen_expr, gen_field, gen_fn_decl, gen_for, gen_identifier, gen_if, gen_index, gen_index_assign, gen_literal,
    gen_match, gen_params, gen_print, gen_program, gen_return, gen_stmt, gen_top, gen_try, gen_unary, gen_var_decl,
    gen_while, get_or_create_concat, get_or_create_printf, list_len, literal_global_name, literal_text,
    register_all, register_decl, string_global, test_nonzero, unary_op, unit, unknown_function, zero32, zero64,
};
use crate::ir::{texts, ArithOp, Inst, IntPred, Operand, ParamName, Symbol, Ty};
use crate::laws::{evolves, law_generate_grows_and_stays_sound, sound};
use crate::state::{GenState, GenV, LoopInfo};
use crate::text::{byte_array_length, decimal_string, has_nul, utf8_length};

verus! {

/// An expression's result with its error message as text.
pub open spec fn ev(r: Result<Operand, String>) -> Result<Operand, Seq<char>> {
    match r {
        Ok(v) => Ok(v),
        Err(e) => Err(e@),
    }
}

/// A statement's result with its error message as text.
pub open spec fn sv(r: Result<(), String>) -> Result<(), Seq<char>> {
    match r {
        Ok(v) => Ok(v),
        Err(e) => Err(e@),
    }
}

fn text(s: &str) -> (r: String)
    ensures
        r@ == s@,
{
    String::from_str(s)
}

impl GenState {
    fn place_named(&mut self, name: &str, i: Inst) -> (r: Operand)
        requires
            old(self)@.well_formed(),
        ensures
            final(self)@.well_formed(),
            ({
                let (g, nm) = old(self)@.intern(name@);
                (final(self)@, r) == g.place(i)
            }),
    {
        let _ = self.intern_str(name);
        self.place(i)
    }

    fn string_global(&mut self, name: String, content: String) -> (r: Operand)
        requires
            old(self)@.well_formed(),
        ensures
            final(self)@.well_formed(),
            (final(self)@, r) == string_global(old(self)@, name@, content@),
    {
        let len = byte_array_length(&content);
        let gl = self.add_global(name, content);
        let nm = self.intern_str("str");
        self.place(Inst::InBoundsGep {
            elem: Ty::ArrayI8(len),
            ptr: Operand::Global(gl),
            first: Operand::ConstI32(0),
            second: Operand::ConstI32(0),
            name: nm,
        })
    }

    fn get_or_create_printf(&mut self) -> (r: usize)
        requires
            old(self)@.well_formed(),
        ensures
            final(self)@.well_formed(),
            (final(self)@, r) == get_or_create_printf(old(self)@),
    {
        match self.printf_fn() {
            Some(f) => f,
            None => {
                let f = self.add_function(text("printf"), Ty::I32, Ty::BytePtr, 1, true);
                self.set_printf_fn(f);
                f
            },
        }
    }

    fn get_or_create_concat(&mut self) -> (r: usize)
        requires
            old(self)@.well_formed(),
        ensures
            final(self)@.well_formed(),
            (final(self)@, r) == get_or_create_concat(old(self)@),
    {
        match self.concat_fn() {
            Some(f) => f,
            None => {
                let f = self.add_function(text("__hunnu_concat"), Ty::BytePtr, Ty::BytePtr, 2, false);
                self.set_concat_fn(f);
                f
            },
        }
    }

    fn call(&mut self, callee: usize, args: &Vec<Operand>, name: &str) -> (r: Operand)
        requires
            old(self)@.well_formed(),
        ensures
            final(self)@.well_formed(),
            (final(self)@, r) == call(old(self)@, callee, args@, name@),
    {
        let start = self.push_args(args);
        let nm = self.intern_str(name);
        self.place(Inst::Call { callee, args_start: start, args_len: args.len(), name: nm })
    }

    fn emit_printf(&mut self, fmt: &str, global_name: &str, v: Operand)
        requires
            old(self)@.well_formed(),
        ensures
            final(self)@.well_formed(),
            final(self)@ == emit_printf(old(self)@, fmt@, global_name@, v),
    {
        let pf = self.get_or_create_printf();
        let fp = self.string_global(text(global_name), text(fmt));
        let mut a: Vec<Operand> = Vec::new();
        a.push(fp);
        a.push(v);
        assert(a@ =~= seq![fp, v]);
        let _ = self.call(pf, &a, "printf_call");
    }

    fn emit_printf_int(&mut self, v: Operand)
        requires
            old(self)@.well_formed(),
        ensures
            final(self)@.well_formed(),
            final(self)@ == emit_printf_int(old(self)@, v),
    {
        self.emit_printf("%lld\n", "int_fmt", v)
    }

    fn emit_printf_str(&mut self, v: Operand)
        requires
            old(self)@.well_formed(),
        ensures
            final(self)@.well_formed(),
            final(self)@ == emit_printf_str(old(self)@, v),
    {
        self.emit_printf("%s\n", "str_fmt", v)
    }

    fn emit_printf_float(&mut self, v: Operand)
        requires
            old(self)@.well_formed(),
        ensures
            final(self)@.well_formed(),
            final(self)@ == emit_printf_float(old(self)@, v),
    {
        self.emit_printf("%g\n", "float_fmt", v)
    }

    fn compare(&mut self, pred: IntPred, lhs: Operand, rhs: Operand, test_name: &str, int_name: &str) -> (r: Operand)
        requires
            old(self)@.well_formed(),
        ensures
            final(self)@.well_formed(),
            (final(self)@, r) == compare(old(self)@, pred, lhs, rhs, test_name@, int_name@),
    {
        let nm = self.intern_str(test_name);
        let c = self.place(Inst::ICmp { pred, lhs, rhs, name: nm });
        let nm2 = self.intern_str(int_name);
        self.place(Inst::ZExt { value: c, name: nm2 })
    }

    fn test_nonzero(&mut self, v: Operand, name: &str) -> (r: Operand)
        requires
            old(self)@.well_formed(),
        ensures
            final(self)@.well_formed(),
            (final(self)@, r) == test_nonzero(old(self)@, v, name@),
    {
        let nm = self.intern_str(name);
        self.place(Inst::ICmp { pred: IntPred::Ne, lhs: v, rhs: Operand::ConstI64(0), name: nm })
    }

    fn branch_unless_terminated(&mut self, b: usize, target: usize)
        requires
            old(self)@.well_formed(),
        ensures
            final(self)@.well_formed(),
            final(self)@ == branch_unless_terminated(old(self)@, b, target),
    {
        if !self.is_terminated(b) {
            let _ = self.place(Inst::Br { target });
        }
    }

    fn generate_literal(&mut self, lt: LiteralType, lv: &LiteralValue) -> (r: Result<Operand, String>)
        requires
            old(self)@.well_formed(),
        ensures
            final(self)@.well_formed(),
            (final(self)@, ev(r)) == gen_literal(old(self)@, lt, *lv),
    {
        match lt {
            LiteralType::Int => match lv {
                LiteralValue::Int(v) => Ok(Operand::ConstI64(*v as u64)),
                _ => Err(text("Expected int literal")),
            },
            LiteralType::Float => match lv {
                LiteralValue::Float(b) => Ok(Operand::ConstF64(*b)),
                _ => Err(text("Expected float literal")),
            },
            LiteralType::Bool => match lv {
                LiteralValue::Bool(b) => Ok(Operand::ConstI64(if *b { 1 } else { 0 })),
                _ => Err(text("Expected bool literal")),
            },
            LiteralType::String => match lv {
                LiteralValue::String(s) => {
                    let mut name = text("str_");
                    let digits = decimal_string(utf8_length(s));
                    name.append(digits.as_str());
                    let content = if has_nul(s) {
                        String::new()
                    } else {
                        s.clone()
                    };
                    assert(name@ == literal_global_name(s@));
                    assert(content@ == literal_text(s@));
                    Ok(self.string_global(name, content))
                },
                _ => Err(text("Expected string literal")),
            },
        }
    }

    fn generate_identifier(&mut self, name: &String) -> (r: Result<Operand, String>)
        requires
            old(self)@.well_formed(),
        ensures
            final(self)@.well_formed(),
            (final(self)@, ev(r)) == gen_identifier(old(self)@, name@),
    {
        match self.named_get(name) {
            Some(a) => {
                let nm = self.intern_str("load");
                Ok(self.place(Inst::Load { ptr: a, name: nm }))
            },
            None => {
                self.check_name(name);
                match self.lookup(name) {
                    Some(Symbol::Global(x)) => {
                        let nm = self.intern_str("load");
                        Ok(self.place(Inst::Load { ptr: Operand::Global(x), name: nm }))
                    },
                    _ => Ok(Operand::ConstI64(0)),
                }
            },
        }
    }

    fn arith(&mut self, op: ArithOp, lhs: Operand, rhs: Operand, name: &str) -> (r: Operand)
        requires
            old(self)@.well_formed(),
        ensures
            final(self)@.well_formed(),
            ({
                let (g, nm) = old(self)@.intern(name@);
                (final(self)@, r) == g.place(Inst::Arith { op, lhs, rhs, name: nm })
            }),
    {
        let nm = self.intern_str(name);
        self.place(Inst::Arith { op, lhs, rhs, name: nm })
    }

    fn binary_op(&mut self, op: TokenType, lhs: Operand, rhs: Operand) -> (r: Operand)
        requires
            old(self)@.well_formed(),
        ensures
            final(self)@.well_formed(),
            (final(self)@, Ok::<Operand, Seq<char>>(r)) == binary_op(old(self)@, op, lhs, rhs),
    {
        match op {
            TokenType::Plus => self.arith(ArithOp::Add, lhs, rhs, "add"),
            TokenType::Minus => self.arith(ArithOp::Sub, lhs, rhs, "sub"),
            TokenType::Star => self.arith(ArithOp::Mul, lhs, rhs, "mul"),
            TokenType::Slash => self.arith(ArithOp::SDiv, lhs, rhs, "div"),
            TokenType::Percent => self.arith(ArithOp::SRem, lhs, rhs, "rem"),
            TokenType::Eq => self.compare(IntPred::Eq, lhs, rhs, "eq", "eq_int"),
            TokenType::Neq => self.compare(IntPred::Ne, lhs, rhs, "ne", "ne_int"),
            TokenType::Lt => self.compare(IntPred::Slt, lhs, rhs, "lt", "lt_int"),
            TokenType::Le => self.compare(IntPred::Sle, lhs, rhs, "le", "le_int"),
            TokenType::Gt => self.compare(IntPred::Sgt, lhs, rhs, "gt", "gt_int"),
            TokenType::Ge => self.compare(IntPred::Sge, lhs, rhs, "ge", "ge_int"),
            _ => lhs,
        }
    }

    fn unary_op(&mut self, op: TokenType, v: Operand) -> (r: Operand)
        requires
            old(self)@.well_formed(),
        ensures
            final(self)@.well_formed(),
            (final(self)@, Ok::<Operand, Seq<char>>(r)) == unary_op(old(self)@, op, v),
    {
        match op {
            TokenType::Minus => {
                let nm = self.intern_str("neg");
                self.place(Inst::Neg { value: v, name: nm })
            },
            TokenType::Not => self.compare(IntPred::Eq, v, Operand::ConstI64(0), "not", "not_int"),
            _ => v,
        }
    }

    fn generate_expression(&mut self, node: &ASTNode) -> (r: Result<Operand, String>)
        requires
            old(self)@.well_formed(),
        ensures
            final(self)@.well_formed(),
            (final(self)@, ev(r)) == gen_expr(old(self)@, *node),
            old(self)@.blocks.len() <= final(self)@.blocks.len(),
        decreases node, 2nat, 0nat,
    {
        match &node.data {
            NodeData::Literal { literal_type, value } => self.generate_literal(*literal_type, value),
            NodeData::Identifier { name } => self.generate_identifier(name),
            NodeData::BinaryExpr { .. } => self.generate_binary_expr(node),
            NodeData::CallExpr { .. } => self.generate_call_expr(node),
            NodeData::Assign { .. } => self.generate_assignment(node),
            NodeData::UnaryExpr { .. } => self.generate_unary_expr(node),
            NodeData::ArrayExpr { .. } => self.generate_array_expr(node),
            NodeData::IndexExpr { .. } => self.generate_index_expr(node),
            NodeData::IndexAssign { .. } => self.generate_index_assign(node),
            NodeData::StringConcat { .. } => self.generate_string_concat(node),
            NodeData::MatchExpr { .. } => self.generate_match_expr(node),
            NodeData::FieldAccess { .. } => self.generate_field_access(node),
            NodeData::AddressOf { .. } => self.generate_address_of(node),
            NodeData::Dereference { .. } => self.generate_dereference(node),
            _ => Ok(Operand::ConstI64(0)),
        }
    }

    fn generate_binary_expr(&mut self, node: &ASTNode) -> (r: Result<Operand, String>)
        requires
            old(self)@.well_formed(),
        ensures
            final(self)@.well_formed(),
            (final(self)@, ev(r)) == gen_binary(old(self)@, *node),
            old(self)@.blocks.len() <= final(self)@.blocks.len(),
        decreases node, 1nat, 0nat,
    {
        match &node.data {
            NodeData::BinaryExpr { operator, left, right } => {
                let lhs = match self.generate_expression(left) {
                    Ok(v) => v,
                    Err(e) => return Err(e),
                };
                let rhs = match self.generate_expression(right) {
                    Ok(v) => v,
                    Err(e) => return Err(e),
                };
                Ok(self.binary_op(*operator, lhs, rhs))
            },
            _ => Ok(Operand::ConstI64(0)),
        }
    }

    fn generate_unary_expr(&mut self, node: &ASTNode) -> (r: Result<Operand, String>)
        requires
            old(self)@.well_formed(),
        ensures
            final(self)@.well_formed(),
            (final(self)@, ev(r)) == gen_unary(old(self)@, *node),
            old(self)@.blocks.len() <= final(self)@.blocks.len(),
        decreases node, 1nat, 0nat,
    {
        match &node.data {
            NodeData::UnaryExpr { operator, operand } => {
                let v = match self.generate_expression(operand) {
                    Ok(v) => v,
                    Err(e) => return Err(e),
                };
                Ok(self.unary_op(*operator, v))
            },
            _ => Ok(Operand::ConstI64(0)),
        }
    }

    fn generate_call_expr(&mut self, node: &ASTNode) -> (r: Result<Operand, String>)
        requires
            old(self)@.well_formed(),
        ensures
            final(self)@.well_formed(),
            (final(self)@, ev(r)) == gen_call(old(self)@, *node),
            old(self)@.blocks.len() <= final(self)@.blocks.len(),
        decreases node, 1nat, 0nat,
    {
        match &node.data {
            NodeData::CallExpr { name, args } => {
                self.check_name(name);
                let callee = match self.lookup(name) {
                    Some(Symbol::Func(f)) => f,
                    _ => {
                        let mut msg = text("Unknown function '");
                        msg.append(name.as_str());
                        msg.append("'");
                        assert(msg@ == unknown_function(name@));
                        return Err(msg);
                    },
                };
                let ghost g1 = self@;
                let mut vals: Vec<Operand> = Vec::new();
                let mut i: usize = 0;
                #[verifier::loop_isolation(false)]
                while i < args.len()
                    invariant
                        node.data == (NodeData::CallExpr { name: *name, args: *args }),
                        i <= args.len(),
                        self@.well_formed(),
                        old(self)@.blocks.len() <= self@.blocks.len(),
                        gen_args(g1, *node, 0, Seq::empty()) == gen_args(self@, *node, i as nat, vals@),
                    decreases args.len() - i,
                {
                    let v = match self.generate_expression(&args[i]) {
                        Ok(v) => v,
                        Err(e) => return Err(e),
                    };
                    vals.push(v);
                    i = i + 1;
                }
                Ok(self.call(callee, &vals, "call"))
            },
            _ => Ok(Operand::ConstI64(0)),
        }
    }

    fn generate_assignment(&mut self, node: &ASTNode) -> (r: Result<Operand, String>)
        requires
            old(self)@.well_formed(),
        ensures
            final(self)@.well_formed(),
            (final(self)@, ev(r)) == gen_assign(old(self)@, *node),
            old(self)@.blocks.len() <= final(self)@.blocks.len(),
        decreases node, 1nat, 0nat,
    {
        match &node.data {
            NodeData::Assign { name, value } => {
                let v = match self.generate_expression(value) {
                    Ok(v) => v,
                    Err(e) => return Err(e),
                };
                match self.named_get(name) {
                    Some(a) => {
                        let _ = self.place(Inst::Store { value: v, ptr: a });
                    },
                    None => {
                        self.check_name(name);
                        match self.lookup(name) {
                            Some(Symbol::Global(x)) => {
                                let _ = self.place(Inst::Store { value: v, ptr: Operand::Global(x) });
                            },
                            _ => {},
                        }
                    },
                }
                Ok(v)
            },
            _ => Ok(Operand::ConstI64(0)),
        }
    }

    fn generate_array_expr(&mut self, node: &ASTNode) -> (r: Result<Operand, String>)
        requires
            old(self)@.well_formed(),
        ensures
            final(self)@.well_formed(),
            (final(self)@, ev(r)) == gen_array(old(self)@, *node),
            old(self)@.blocks.len() <= final(self)@.blocks.len(),
        decreases node, 1nat, 0nat,
    {
        match &node.data {
            NodeData::ArrayExpr { elements } => {
                let count = (elements.len() as u64 % 0x1_0000_0000) as u32;
                let ty = Ty::ArrayI64(count);
                assert(ty == array_ty(elements@.len() as nat));
                let nm = self.intern_str("array");
                let a = self.place(Inst::Alloca { ty, name: nm });
                let ghost g1 = self@;
                let mut i: usize = 0;
                #[verifier::loop_isolation(false)]
                while i < elements.len()
                    invariant
                        node.data == (NodeData::ArrayExpr { elements: *elements }),
                        i <= elements.len(),
                        self@.well_formed(),
                        old(self)@.blocks.len() <= self@.blocks.len(),
                        gen_array_elems(g1, *node, 0, ty, a) == gen_array_elems(self@, *node, i as nat, ty, a),
                    decreases elements.len() - i,
                {
                    let v = match self.generate_expression(&elements[i]) {
                        Ok(v) => v,
                        Err(e) => return Err(e),
                    };
                    let mut label = text("array_ptr_");
                    let digits = decimal_string(i);
                    label.append(digits.as_str());
                    let nm = self.intern(label);
                    let p = self.place(Inst::InBoundsGep {
                        elem: ty,
                        ptr: a,
                        first: Operand::ConstI64(0),
                        second: Operand::ConstI64(i as u64),
                        name: nm,
                    });
                    let _ = self.place(Inst::Store { value: v, ptr: p });
                    i = i + 1;
                }
                let nm = self.intern_str("array_decay");
                Ok(self.place(Inst::InBoundsGep {
                    elem: ty,
                    ptr: a,
                    first: Operand::ConstI64(0),
                    second: Operand::ConstI64(0),
                    name: nm,
                }))
            },
            _ => Ok(Operand::ConstI64(0)),
        }
    }

    fn generate_index_expr(&mut self, node: &ASTNode) -> (r: Result<Operand, String>)
        requires
            old(self)@.well_formed(),
        ensures
            final(self)@.well_formed(),
            (final(self)@, ev(r)) == gen_index(old(self)@, *node),
            old(self)@.blocks.len() <= final(self)@.blocks.len(),
        decreases node, 1nat, 0nat,
    {
        match &node.data {
            NodeData::IndexExpr { array, index } => {
                let ap = match self.generate_expression(array) {
                    Ok(v) => v,
                    Err(e) => return Err(e),
                };
                let iv = match self.generate_expression(index) {
                    Ok(v) => v,
                    Err(e) => return Err(e),
                };
                let nm = self.intern_str("index_ptr");
                let p = self.place(Inst::Gep { elem: Ty::I64, ptr: ap, index: iv, name: nm });
                let nm2 = self.intern_str("index_load");
                Ok(self.place(Inst::Load { ptr: p, name: nm2 }))
            },
            _ => Ok(Operand::ConstI64(0)),
        }
    }

    fn generate_index_assign(&mut self, node: &ASTNode) -> (r: Result<Operand, String>)
        requires
            old(self)@.well_formed(),
        ensures
            final(self)@.well_formed(),
            (final(self)@, ev(r)) == gen_index_assign(old(self)@, *node),
            old(self)@.blocks.len() <= final(self)@.blocks.len(),
        decreases node, 1nat, 0nat,
    {
        match &node.data {
            NodeData::IndexAssign { array, index, value } => {
                let ap = match self.generate_expression(array) {
                    Ok(v) => v,
                    Err(e) => return Err(e),
                };
                let iv = match self.generate_expression(index) {
                    Ok(v) => v,
                    Err(e) => return Err(e),
                };
                let v = match self.generate_expression(value) {
                    Ok(v) => v,
                    Err(e) => return Err(e),
                };
                let nm = self.intern_str("index_ptr");
                let p = self.place(Inst::Gep { elem: Ty::I64, ptr: ap, index: iv, name: nm });
                let _ = self.place(Inst::Store { value: v, ptr: p });
                Ok(v)
            },
            _ => Ok(Operand::ConstI64(0)),
        }
    }

    fn generate_string_concat(&mut self, node: &ASTNode) -> (r: Result<Operand, String>)
        requires
            old(self)@.well_formed(),
        ensures
            final(self)@.well_formed(),
            (final(self)@, ev(r)) == gen_concat(old(self)@, *node),
            old(self)@.blocks.len() <= final(self)@.blocks.len(),
        decreases node, 1nat, 0nat,
    {
        match &node.data {
            NodeData::StringConcat { left, right } => {
                let lv = match self.generate_expression(left) {
                    Ok(v) => v,
                    Err(e) => return Err(e),
                };
                let rv = match self.generate_expression(right) {
                    Ok(v) => v,
                    Err(e) => return Err(e),
                };
                let cf = self.get_or_create_concat();
                let mut a: Vec<Operand> = Vec::new();
                a.push(lv);
                a.push(rv);
                assert(a@ =~= seq![lv, rv]);
                Ok(self.call(cf, &a, "concat"))
            },
            _ => Ok(Operand::ConstI64(0)),
        }
    }

    #[verifier::rlimit(40)]
    fn generate_match_expr(&mut self, node: &ASTNode) -> (r: Result<Operand, String>)
        requires
            old(self)@.well_formed(),
        ensures
            final(self)@.well_formed(),
            (final(self)@, ev(r)) == gen_match(old(self)@, *node),
            old(self)@.blocks.len() <= final(self)@.blocks.len(),
        decreases node, 1nat, 0nat,
    {
        match &node.data {
            NodeData::MatchExpr { value, patterns, bodies } => {
                let nm = self.intern_str("match_result");
                let result = self.place(Inst::Alloca { ty: Ty::I64, name: nm });
                let v = match self.generate_expression(value) {
                    Ok(v) => v,
                    Err(e) => return Err(e),
                };
                let end_block = self.create_block(text("match_end"));
                let num_arms = if patterns.len() <= bodies.len() {
                    patterns.len()
                } else {
                    bodies.len()
                };
                assert(num_arms == arm_count(patterns@.len() as nat, bodies@.len() as nat));
                let ghost g1 = self@;
                let mut i: usize = 0;
                #[verifier::loop_isolation(false)]
                while i < num_arms
                    invariant
                        node.data == (NodeData::MatchExpr { value: *value, patterns: *patterns, bodies: *bodies }),
                        num_arms == arm_count(patterns@.len() as nat, bodies@.len() as nat),
                        num_arms <= patterns.len(),
                        num_arms <= bodies.len(),
                        i <= num_arms,
                        end_block < self@.blocks.len(),
                        self@.well_formed(),
                        old(self)@.blocks.len() <= self@.blocks.len(),
                        gen_arms(g1, *node, 0, v, result, end_block) == gen_arms(self@, *node, i as nat, v, result, end_block),
                    decreases num_arms - i,
                {
                    let next_block = if i + 1 < num_arms {
                        let mut label = text("match_arm_");
                        let digits = decimal_string(i);
                        label.append(digits.as_str());
                        Some(self.create_block(label))
                    } else {
                        None
                    };
                    let pv = match self.generate_expression(&patterns[i]) {
                        Ok(x) => x,
                        Err(e) => return Err(e),
                    };
                    let nm = self.intern_str("match_cmp");
                    let test = self.place(Inst::ICmp { pred: IntPred::Eq, lhs: v, rhs: pv, name: nm });
                    let mut label = text("match_arm_body_");
                    let digits = decimal_string(i);
                    label.append(digits.as_str());
                    let arm_block = self.create_block(label);
                    match next_block {
                        Some(next) => {
                            let _ = self.place(Inst::CondBr { cond: test, then_block: arm_block, else_block: next });
                            self.position_at(next);
                        },
                        None => {
                            let _ = self.place(Inst::CondBr { cond: test, then_block: arm_block, else_block: end_block });
                        },
                    }
                    self.position_at(arm_block);
                    let bv = match self.generate_expression(&bodies[i]) {
                        Ok(x) => x,
                        Err(e) => return Err(e),
                    };
                    let _ = self.place(Inst::Store { value: bv, ptr: result });
                    let _ = self.place(Inst::Br { target: end_block });
                    i = i + 1;
                }
                self.position_at(end_block);
                let nm = self.intern_str("match_load");
                Ok(self.place(Inst::Load { ptr: result, name: nm }))
            },
            _ => Ok(Operand::ConstI64(0)),
        }
    }

    fn generate_field_access(&mut self, node: &ASTNode) -> (r: Result<Operand, String>)
        requires
            old(self)@.well_formed(),
        ensures
            final(self)@.well_formed(),
            (final(self)@, ev(r)) == gen_field(old(self)@, *node),
            old(self)@.blocks.len() <= final(self)@.blocks.len(),
        decreases node, 1nat, 0nat,
    {
        match &node.data {
            NodeData::FieldAccess { object, field } => {
                let obj_ptr = match self.generate_expression(object) {
                    Ok(v) => v,
                    Err(e) => return Err(e),
                };
                match self.find_field(field) {
                    Some((st, j)) => {
                        let nm = self.intern_str("field_ptr");
                        let p = self.place(Inst::InBoundsGep {
                            elem: Ty::Struct(st),
                            ptr: obj_ptr,
                            first: Operand::ConstI32(0),
                            second: Operand::ConstI32(j as u64),
                            name: nm,
                        });
                        let nm2 = self.intern_str("field_load");
                        Ok(self.place(Inst::Load { ptr: p, name: nm2 }))
                    },
                    None => Ok(Operand::ConstI64(0)),
                }
            },
            _ => Ok(Operand::ConstI64(0)),
        }
    }

    fn generate_address_of(&mut self, node: &ASTNode) -> (r: Result<Operand, String>)
        requires
            old(self)@.well_formed(),
        ensures
            final(self)@.well_formed(),
            (final(self)@, ev(r)) == gen_address_of(old(self)@, *node),
            old(self)@.blocks.len() <= final(self)@.blocks.len(),
        decreases node, 1nat, 0nat,
    {
        match &node.data {
            NodeData::AddressOf { operand } => {
                let bound = match &operand.data {
                    NodeData::Identifier { name } => self.named_get(name),
                    _ => None,
                };
                match bound {
                    Some(a) => Ok(a),
                    None => {
                        let v = match self.generate_expression(operand) {
                            Ok(v) => v,
                            Err(e) => return Err(e),
                        };
                        let nm = self.intern_str("addr");
                        let a = self.place(Inst::Alloca { ty: Ty::I64, name: nm });
                        let _ = self.place(Inst::Store { value: v, ptr: a });
                        Ok(a)
                    },
                }
            },
            _ => Ok(Operand::ConstI64(0)),
        }
    }

    fn generate_dereference(&mut self, node: &ASTNode) -> (r: Result<Operand, String>)
        requires
            old(self)@.well_formed(),
        ensures
            final(self)@.well_formed(),
            (final(self)@, ev(r)) == gen_deref(old(self)@, *node),
            old(self)@.blocks.len() <= final(self)@.blocks.len(),
        decreases node, 1nat, 0nat,
    {
        match &node.data {
            NodeData::Dereference { operand } => {
                let p = match self.generate_expression(operand) {
                    Ok(v) => v,
                    Err(e) => return Err(e),
                };
                let nm = self.intern_str("deref");
                Ok(self.place(Inst::Load { ptr: p, name: nm }))
            },
            _ => Ok(Operand::ConstI64(0)),
        }
    }

    fn generate_statement(&mut self, node: &ASTNode) -> (r: Result<(), String>)
        requires
            old(self)@.well_formed(),
        ensures
            final(self)@.well_formed(),
            (final(self)@, sv(r)) == gen_stmt(old(self)@, *node),
            old(self)@.blocks.len() <= final(self)@.blocks.len(),
        decreases node, 3nat, 0nat,
    {
        match &node.data {
            NodeData::VarDecl { .. } => self.generate_var_decl(node),
            NodeData::FnDecl { .. } => self.generate_fn_decl(node),
            NodeData::PrintStmt { .. } => self.generate_print(node),
            NodeData::Block { .. } => self.generate_block(node),
            NodeData::ExprStmt { expression } => match self.generate_expression(expression) {
                Ok(_) => Ok(()),
                Err(e) => Err(e),
            },
            NodeData::ReturnStmt { .. } => self.generate_return(node),
            NodeData::IfStmt { .. } => self.generate_if(node),
            NodeData::WhileStmt { .. } => self.generate_while(node),
            NodeData::ForStmt { .. } => self.generate_for(node),
            NodeData::BreakStmt => {
                match self.innermost_loop() {
                    Some(l) => {
                        let _ = self.place(Inst::Br { target: l.end_block });
                    },
                    None => {},
                }
                Ok(())
            },
            NodeData::ContinueStmt => {
                match self.innermost_loop() {
                    Some(l) => {
                        let _ = self.place(Inst::Br { target: l.cond_block });
                    },
                    None => {},
                }
                Ok(())
            },
            NodeData::TryStmt { .. } => self.generate_try(node),
            _ => match self.generate_expression(node) {
                Ok(_) => Ok(()),
                Err(e) => Err(e),
            },
        }
    }

    fn generate_block(&mut self, node: &ASTNode) -> (r: Result<(), String>)
        requires
            old(self)@.well_formed(),
        ensures
            final(self)@.well_formed(),
            (final(self)@, sv(r)) == gen_block(old(self)@, *node, 0),
            old(self)@.blocks.len() <= final(self)@.blocks.len(),
        decreases node, 1nat, 0nat,
    {
        match &node.data {
            NodeData::Block { statements } => {
                let mut i: usize = 0;
                #[verifier::loop_isolation(false)]
                while i < statements.len()
                    invariant
                        node.data == (NodeData::Block { statements: *statements }),
                        i <= statements.len(),
                        self@.well_formed(),
                        old(self)@.blocks.len() <= self@.blocks.len(),
                        gen_block(old(self)@, *node, 0) == gen_block(self@, *node, i as nat),
                    decreases statements.len() - i,
                {
                    match self.generate_statement(&statements[i]) {
                        Ok(_) => {},
                        Err(e) => return Err(e),
                    }
                    i = i + 1;
                }
                Ok(())
            },
            _ => Ok(()),
        }
    }

    fn generate_var_decl(&mut self, node: &ASTNode) -> (r: Result<(), String>)
        requires
            old(self)@.well_formed(),
        ensures
            final(self)@.well_formed(),
            (final(self)@, sv(r)) == gen_var_decl(old(self)@, *node),
            old(self)@.blocks.len() <= final(self)@.blocks.len(),
        decreases node, 1nat, 0nat,
    {
        match &node.data {
            NodeData::VarDecl { name, initializer } => {
                let value = match self.generate_expression(initializer) {
                    Ok(v) => v,
                    Err(e) => return Err(e),
                };
                self.check_name(name);
                let nm = self.intern(name.clone());
                let alloca = self.place(Inst::Alloca { ty: Ty::I64, name: nm });
                let _ = self.place(Inst::Store { value, ptr: alloca });
                self.named_insert(name.clone(), alloca);
                Ok(())
            },
            _ => Ok(()),
        }
    }

    fn generate_params(&mut self, params: &Vec<String>, f: usize)
        requires
            old(self)@.well_formed(),
        ensures
            final(self)@.well_formed(),
            final(self)@ == gen_params(old(self)@, texts(params@), f, 0),
            old(self)@.blocks.len() <= final(self)@.blocks.len(),
    {
        let mut i: usize = 0;
        while i < params.len()
            invariant
                i <= params.len(),
                self@.well_formed(),
                old(self)@.blocks.len() <= self@.blocks.len(),
                gen_params(old(self)@, texts(params@), f, 0) == gen_params(self@, texts(params@), f, i as nat),
            decreases params.len() - i,
        {
            let p = &params[i];
            assert(texts(params@)[i as int] == p@);
            self.check_name(p);
            let pn = self.intern(p.clone());
            self.push_param_name(ParamName { func: f, index: i as u32, name: pn });
            let nm = self.intern(p.clone());
            let alloca = self.place(Inst::Alloca { ty: Ty::I64, name: nm });
            let _ = self.place(Inst::Store { value: Operand::Param(f, i as u32), ptr: alloca });
            self.named_insert(p.clone(), alloca);
            i = i + 1;
        }
    }

    fn finish_body(&mut self, is_main: bool)
        requires
            old(self)@.well_formed(),
        ensures
            final(self)@.well_formed(),
            final(self)@ == finish_body(old(self)@, is_main),
    {
        let open = match self.position() {
            Some(b) => !self.is_terminated(b),
            None => true,
        };
        if open {
            if is_main {
                let _ = self.place(Inst::Ret { value: Operand::ConstI64(0) });
            } else {
                let _ = self.place(Inst::RetVoid);
            }
        }
    }

    #[verifier::rlimit(40)]
    fn generate_fn_decl(&mut self, node: &ASTNode) -> (r: Result<(), String>)
        requires
            old(self)@.well_formed(),
        ensures
            final(self)@.well_formed(),
            (final(self)@, sv(r)) == gen_fn_decl(old(self)@, *node),
            old(self)@.blocks.len() <= final(self)@.blocks.len(),
        decreases node, 1nat, 0nat,
    {
        match &node.data {
            NodeData::FnDecl { name, params, body } => {
                let main_name = text("main");
                let is_main = name.eq(&main_name);
                let return_type = if is_main { Ty::I64 } else { Ty::Void };
                self.check_name(name);
                let function = self.add_function(name.clone(), return_type, Ty::I64, params.len(), false);
                if is_main {
                    self.set_target_default();
                }
                let entry = self.append_block(function, text("entry"));
                self.position_at(entry);
                self.set_current_function(Some(function));
                self.generate_params(params, function);
                match self.generate_statement(body) {
                    Ok(_) => {},
                    Err(e) => return Err(e),
                }
                self.finish_body(is_main);
                self.named_clear();
                self.set_current_function(None);
                Ok(())
            },
            _ => Ok(()),
        }
    }

    fn generate_print(&mut self, node: &ASTNode) -> (r: Result<(), String>)
        requires
            old(self)@.well_formed(),
        ensures
            final(self)@.well_formed(),
            (final(self)@, sv(r)) == gen_print(old(self)@, *node),
            old(self)@.blocks.len() <= final(self)@.blocks.len(),
        decreases node, 1nat, 0nat,
    {
        match &node.data {
            NodeData::PrintStmt { argument } => match &argument.data {
                NodeData::Literal { literal_type, value } => {
                    let v = match self.generate_literal(*literal_type, value) {
                        Ok(v) => v,
                        Err(e) => return Err(e),
                    };
                    match literal_type {
                        LiteralType::Float => self.emit_printf_float(v),
                        LiteralType::String => self.emit_printf_str(v),
                        _ => self.emit_printf_int(v),
                    }
                    Ok(())
                },
                _ => {
                    let v = match self.generate_expression(argument) {
                        Ok(v) => v,
                        Err(e) => return Err(e),
                    };
                    self.emit_printf_int(v);
                    Ok(())
                },
            },
            _ => Ok(()),
        }
    }

    fn generate_return(&mut self, node: &ASTNode) -> (r: Result<(), String>)
        requires
            old(self)@.well_formed(),
        ensures
            final(self)@.well_formed(),
            (final(self)@, sv(r)) == gen_return(old(self)@, *node),
            old(self)@.blocks.len() <= final(self)@.blocks.len(),
        decreases node, 1nat, 0nat,
    {
        match &node.data {
            NodeData::ReturnStmt { value } => match value {
                Some(v) => {
                    let x = match self.generate_expression(v) {
                        Ok(x) => x,
                        Err(e) => return Err(e),
                    };
                    let _ = self.place(Inst::Ret { value: x });
                    Ok(())
                },
                None => {
                    let _ = self.place(Inst::RetVoid);
                    Ok(())
                },
            },
            _ => Ok(()),
        }
    }

    #[verifier::rlimit(40)]
    fn generate_if(&mut self, node: &ASTNode) -> (r: Result<(), String>)
        requires
            old(self)@.well_formed(),
        ensures
            final(self)@.well_formed(),
            (final(self)@, sv(r)) == gen_if(old(self)@, *node),
            old(self)@.blocks.len() <= final(self)@.blocks.len(),
        decreases node, 1nat, 0nat,
    {
        match &node.data {
            NodeData::IfStmt { condition, then_branch, else_branch } => {
                let cond_val = match self.generate_expression(condition) {
                    Ok(v) => v,
                    Err(e) => return Err(e),
                };
                let test = self.test_nonzero(cond_val, "if_cond");
                let then_block = self.create_block(text("then"));
                let else_block = self.create_block(text("else"));
                let merge_block = self.create_block(text("if_merge"));
                let _ = self.place(Inst::CondBr { cond: test, then_block, else_block });
                self.position_at(then_block);
                match self.generate_statement(then_branch) {
                    Ok(_) => {},
                    Err(e) => return Err(e),
                }
                self.branch_unless_terminated(then_block, merge_block);
                self.position_at(else_block);
                match else_branch {
                    Some(eb) => match self.generate_statement(eb) {
                        Ok(_) => {},
                        Err(e) => return Err(e),
                    },
                    None => {},
                }
                self.branch_unless_terminated(else_block, merge_block);
                self.position_at(merge_block);
                Ok(())
            },
            _ => Ok(()),
        }
    }

    #[verifier::rlimit(40)]
    fn generate_while(&mut self, node: &ASTNode) -> (r: Result<(), String>)
        requires
            old(self)@.well_formed(),
        ensures
            final(self)@.well_formed(),
            (final(self)@, sv(r)) == gen_while(old(self)@, *node),
            old(self)@.blocks.len() <= final(self)@.blocks.len(),
        decreases node, 1nat, 0nat,
    {
        match &node.data {
            NodeData::WhileStmt { condition, body } => {
                let cond_block = self.create_block(text("while_cond"));
                let body_block = self.create_block(text("while_body"));
                let end_block = self.create_block(text("while_end"));
                let _ = self.place(Inst::Br { target: cond_block });
                self.position_at(cond_block);
                let cond_val = match self.generate_expression(condition) {
                    Ok(v) => v,
                    Err(e) => return Err(e),
                };
                let test = self.test_nonzero(cond_val, "while_cmp");
                let _ = self.place(Inst::CondBr { cond: test, then_block: body_block, else_block: end_block });
                self.position_at(body_block);
                self.push_loop(LoopInfo { cond_block, end_block });
                match self.generate_statement(body) {
                    Ok(_) => {},
                    Err(e) => return Err(e),
                }
                self.pop_loop();
                self.branch_unless_terminated(body_block, cond_block);
                self.position_at(end_block);
                Ok(())
            },
            _ => Ok(()),
        }
    }

    #[verifier::rlimit(40)]
    fn generate_for(&mut self, node: &ASTNode) -> (r: Result<(), String>)
        requires
            old(self)@.well_formed(),
        ensures
            final(self)@.well_formed(),
            (final(self)@, sv(r)) == gen_for(old(self)@, *node),
            old(self)@.blocks.len() <= final(self)@.blocks.len(),
        decreases node, 1nat, 0nat,
    {
        match &node.data {
            NodeData::ForStmt { initializer, condition, update, body } => {
                match initializer {
                    Some(init) => match self.generate_statement(init) {
                        Ok(_) => {},
                        Err(e) => return Err(e),
                    },
                    None => {},
                }
                let cond_block = self.create_block(text("for_cond"));
                let body_block = self.create_block(text("for_body"));
                let update_block = self.create_block(text("for_update"));
                let end_block = self.create_block(text("for_end"));
                let _ = self.place(Inst::Br { target: cond_block });
                self.position_at(cond_block);
                let cond_val = match condition {
                    Some(c) => match self.generate_expression(c) {
                        Ok(v) => v,
                        Err(e) => return Err(e),
                    },
                    None => Operand::ConstI64(1),
                };
                let test = self.test_nonzero(cond_val, "for_cmp");
                let _ = self.place(Inst::CondBr { cond: test, then_block: body_block, else_block: end_block });
                self.position_at(body_block);
                self.push_loop(LoopInfo { cond_block: update_block, end_block });
                match self.generate_statement(body) {
                    Ok(_) => {},
                    Err(e) => return Err(e),
                }
                self.pop_loop();
                self.branch_unless_terminated(body_block, update_block);
                self.position_at(update_block);
                match update {
                    Some(u) => match self.generate_expression(u) {
                        Ok(_) => {},
                        Err(e) => return Err(e),
                    },
                    None => {},
                }
                let _ = self.place(Inst::Br { target: cond_block });
                self.position_at(end_block);
                Ok(())
            },
            _ => Ok(()),
        }
    }

    fn generate_try(&mut self, node: &ASTNode) -> (r: Result<(), String>)
        requires
            old(self)@.well_formed(),
        ensures
            final(self)@.well_formed(),
            (final(self)@, sv(r)) == gen_try(old(self)@, *node),
            old(self)@.blocks.len() <= final(self)@.blocks.len(),
        decreases node, 1nat, 0nat,
    {
        match &node.data {
            NodeData::TryStmt { try_block, catch_block, finally_block, .. } => {
                match self.generate_statement(try_block) {
                    Ok(_) => {},
                    Err(e) => return Err(e),
                }
                match catch_block {
                    Some(c) => match self.generate_statement(c) {
                        Ok(_) => {},
                        Err(e) => return Err(e),
                    },
                    None => {},
                }
                match finally_block {
                    Some(f) => self.generate_statement(f),
                    None => Ok(()),
                }
            },
            _ => Ok(()),
        }
    }

    fn register_decl(&mut self, node: &ASTNode)
        requires
            old(self)@.well_formed(),
        ensures
            final(self)@.well_formed(),
            final(self)@ == register_decl(old(self)@, *node),
    {
        match &node.data {
            NodeData::TypeDecl { name, fields } => {
                self.check_name(name);
                let struct_type = self.add_struct(name.clone(), fields.len());
                self.record_struct(name, struct_type, fields);
            },
            NodeData::ExternFn { name, params, returns_int, .. } => {
                self.check_name(name);
                match self.lookup(name) {
                    Some(Symbol::Func(_)) => {},
                    _ => {
                        let return_type = if *returns_int == 2 {
                            Ty::BytePtr
                        } else if *returns_int == 3 {
                            Ty::Double
                        } else if *returns_int != 0 {
                            Ty::I64
                        } else {
                            Ty::Void
                        };
                        let _ = self.add_function(name.clone(), return_type, Ty::I64, params.len(), false);
                    },
                }
            },
            _ => {},
        }
    }

    /// Generates the module's code for a parsed program: a first pass declares the struct
    /// types and external functions, a second generates every statement in order and stops
    /// at the first error.
    pub(crate) fn generate(&mut self, program: &ASTNode) -> (r: Result<(), String>)
        requires
            old(self)@.well_formed(),
        ensures
            final(self)@.well_formed(),
            (final(self)@, sv(r)) == gen_program(old(self)@, *program),
            sound(old(self)@) ==> sound(final(self)@) && evolves(old(self)@, final(self)@),
    {
        proof {
            if sound(old(self)@) {
                law_generate_grows_and_stays_sound(old(self)@, *program);
            }
        }
        match &program.data {
            NodeData::Program { statements } => {
                let mut i: usize = 0;
                while i < statements.len()
                    invariant
                        i <= statements.len(),
                        self@.well_formed(),
                        register_all(old(self)@, statements@, 0) == register_all(self@, statements@, i as nat),
                    decreases statements.len() - i,
                {
                    self.register_decl(&statements[i]);
                    i = i + 1;
                }
                let ghost g1 = self@;
                assert(g1 == register_all(old(self)@, statements@, 0));
                let mut i: usize = 0;
                #[verifier::loop_isolation(false)]
                while i < statements.len()
                    invariant
                        i <= statements.len(),
                        self@.well_formed(),
                        gen_top(g1, statements@, 0) == gen_top(self@, statements@, i as nat),
                    decreases statements.len() - i,
                {
                    match self.generate_statement(&statements[i]) {
                        Ok(_) => {},
                        Err(e) => return Err(e),
                    }
                    i = i + 1;
                }
                Ok(())
            },
            _ => Err(text("Expected program node")),
        }
    }
}

} // verus!
