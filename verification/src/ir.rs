//! The LLVM module that the code generator builds, held as plain data.
//!
//! Every name and text is interned into the module's string table and referred to by its
//! index there; the arguments of every call are kept in one flat operand table.  A value
//! produced by an instruction is named by the instruction's position in the instruction
//! stream, which lists the instructions in the order in which they were built.
use vstd::prelude::*;

verus! {

/// The LLVM types that the generated code uses.
#[derive(Clone, Copy, PartialEq, Eq, Structural, Debug)]
pub enum Ty {
    Void,
    I32,
    I64,
    Double,
    /// `i8*`
    BytePtr,
    /// `[n x i8]`
    ArrayI8(u32),
    /// `[n x i64]`
    ArrayI64(u32),
    /// A named struct type, by its index in the module's struct list.
    Struct(usize),
}

/// An operand of an instruction.
#[derive(Clone, Copy, PartialEq, Eq, Structural, Debug)]
pub enum Operand {
    /// The value of the instruction at this index of the instruction stream.
    Inst(usize),
    /// An `i64` constant, by its 64 bits.
    ConstI64(u64),
    /// An `i32` constant, by the 64 bits handed to LLVM.
    ConstI32(u64),
    /// A `double` constant, by its IEEE-754 bit pattern.
    ConstF64(u64),
    /// The parameter of a function: function index, parameter position.
    Param(usize, u32),
    /// The address of a global, by its index in the module's global list.
    Global(usize),
}

/// Integer arithmetic.
#[derive(Clone, Copy, PartialEq, Eq, Structural, Debug)]
pub enum ArithOp {
    Add,
    Sub,
    Mul,
    SDiv,
    SRem,
}

/// Integer comparison predicates.
#[derive(Clone, Copy, PartialEq, Eq, Structural, Debug)]
pub enum IntPred {
    Eq,
    Ne,
    Slt,
    Sle,
    Sgt,
    Sge,
}

/// One built instruction.  Every `name` is an index into the string table.
#[derive(Clone, Copy, PartialEq, Eq, Structural, Debug)]
pub enum Inst {
    Alloca { ty: Ty, name: usize },
    Store { value: Operand, ptr: Operand },
    /// An `i64` load.
    Load { ptr: Operand, name: usize },
    Arith { op: ArithOp, lhs: Operand, rhs: Operand, name: usize },
    ICmp { pred: IntPred, lhs: Operand, rhs: Operand, name: usize },
    /// An unsigned integer cast of an `i1` to `i64`.
    ZExt { value: Operand, name: usize },
    Neg { value: Operand, name: usize },
    Br { target: usize },
    CondBr { cond: Operand, then_block: usize, else_block: usize },
    Ret { value: Operand },
    RetVoid,
    /// A call; its arguments are `args_len` entries of the operand table from `args_start`.
    Call { callee: usize, args_start: usize, args_len: usize, name: usize },
    /// `getelementptr inbounds elem, ptr, first, second`
    InBoundsGep { elem: Ty, ptr: Operand, first: Operand, second: Operand, name: usize },
    /// `getelementptr elem, ptr, index`
    Gep { elem: Ty, ptr: Operand, index: Operand, name: usize },
}

impl Inst {
    /// Whether the instruction ends a basic block.
    pub open spec fn spec_is_terminator(&self) -> bool {
        ||| self is Br
        ||| self is CondBr
        ||| self is Ret
        ||| self is RetVoid
    }

    #[verifier::when_used_as_spec(spec_is_terminator)]
    pub fn is_terminator(&self) -> (r: bool)
        ensures
            r == self.spec_is_terminator(),
    {
        match self {
            Inst::Br { .. } | Inst::CondBr { .. } | Inst::Ret { .. } | Inst::RetVoid => true,
            _ => false,
        }
    }
}

/// An instruction requested from the builder, with the basic block it was inserted into.
///
/// LLVM's builder folds an arithmetic operation, comparison, cast, negation or address
/// computation whose operands are all constants into a constant, and inserts nothing:
/// such an entry is `folded`, and its `block` is `None`.  An instruction that is not
/// folded has `block` `None` only when the builder had no insertion point.
#[derive(Clone, Copy, PartialEq, Eq, Structural, Debug)]
pub struct Placed {
    pub block: Option<usize>,
    pub inst: Inst,
    pub folded: bool,
}

/// A function of the module.  All parameters have type `param_ty`.
#[derive(Clone, Copy, PartialEq, Eq, Structural, Debug)]
pub struct IrFunction {
    pub name: usize,
    pub ret: Ty,
    pub param_ty: Ty,
    pub param_count: usize,
    pub vararg: bool,
}

/// The name given to a parameter of a function.
#[derive(Clone, Copy, PartialEq, Eq, Structural, Debug)]
pub struct ParamName {
    pub func: usize,
    pub index: u32,
    pub name: usize,
}

/// A private constant byte-string global: the UTF-8 bytes of its text followed by a NUL.
#[derive(Clone, Copy, PartialEq, Eq, Structural, Debug)]
pub struct IrGlobal {
    pub name: usize,
    pub content: usize,
}

/// A named struct type whose fields are all `i64`.
#[derive(Clone, Copy, PartialEq, Eq, Structural, Debug)]
pub struct IrStruct {
    pub name: usize,
    pub field_count: usize,
}

/// A basic block, appended to the function `func`.  `terminated` records whether the
/// last instruction inserted into it is a terminator.
#[derive(Clone, Copy, PartialEq, Eq, Structural, Debug)]
pub struct IrBlock {
    pub func: usize,
    pub label: usize,
    pub terminated: bool,
}

/// An entry of the module's symbol table, in the order symbols were added.
#[derive(Clone, Copy, PartialEq, Eq, Structural, Debug)]
pub enum Symbol {
    Func(usize),
    Global(usize),
}

/// The module built by the code generator.
pub struct IrModule {
    pub name: String,
    pub strings: Vec<String>,
    pub args: Vec<Operand>,
    pub structs: Vec<IrStruct>,
    pub functions: Vec<IrFunction>,
    pub param_names: Vec<ParamName>,
    pub globals: Vec<IrGlobal>,
    pub symbols: Vec<Symbol>,
    pub blocks: Vec<IrBlock>,
    pub insts: Vec<Placed>,
    /// Whether the module's target triple is set to the host's default triple.
    pub target_default: bool,
}

/// The string table as a sequence of texts.
pub open spec fn texts(v: Seq<String>) -> Seq<Seq<char>> {
    v.map_values(|s: String| s@)
}

} // verus!
