//! The state of the code generator, its mathematical model, and the primitive operations
//! on it (adding symbols, blocks and instructions, and the name tables).
use vstd::prelude::*;
use vstd::string::*;
use crate::ir::{texts, Inst, IrBlock, IrFunction, IrGlobal, IrModule, IrStruct, Operand, ParamName, Placed, Symbol, Ty};
use crate::ast::ASTNode;
use crate::codegen::sv;
use crate::genspec::gen_program;
use crate::laws::{evolves, sound};
use crate::text::has_nul;

verus! {

/// The targets of `continue` and `break` inside the innermost loop.
#[derive(Clone, Copy, PartialEq, Eq, Structural, Debug)]
pub struct LoopInfo {
    pub cond_block: usize,
    pub end_block: usize,
}

/// A declared struct type: its name, its type in the module, and its field names, which
/// are the `field_count` string-table entries from `first_field`.
#[derive(Clone, Copy, PartialEq, Eq, Structural, Debug)]
pub struct StructRecord {
    pub name: usize,
    pub ty: usize,
    pub first_field: usize,
    pub field_count: usize,
}

/// The model of a code generator: the module built so far and the builder's state.
pub struct GenV {
    pub module_name: Seq<char>,
    pub strings: Seq<Seq<char>>,
    pub args: Seq<Operand>,
    pub structs: Seq<IrStruct>,
    pub functions: Seq<IrFunction>,
    pub param_names: Seq<ParamName>,
    pub globals: Seq<IrGlobal>,
    pub symbols: Seq<Symbol>,
    pub blocks: Seq<IrBlock>,
    pub insts: Seq<Placed>,
    pub target_default: bool,
    /// The block the builder inserts into.
    pub position: Option<usize>,
    /// Variable bindings, newest last: (name, address).
    pub named: Seq<(usize, Operand)>,
    pub printf_fn: Option<usize>,
    pub concat_fn: Option<usize>,
    pub current_function: Option<usize>,
    pub loops: Seq<LoopInfo>,
    pub records: Seq<StructRecord>,
    /// Set once the generator met a situation in which it cannot go on: a basic block
    /// asked for outside any function, or a name holding a NUL character.
    pub fault: bool,
}

impl GenV {
    /// The indices that the executable code follows are in range.
    pub open spec fn well_formed(self) -> bool {
        &&& forall|k: int| 0 <= k < self.functions.len() ==> #[trigger] self.functions[k].name < self.strings.len()
        &&& forall|k: int| 0 <= k < self.globals.len() ==> {
            &&& #[trigger] self.globals[k].name < self.strings.len()
            &&& self.globals[k].content < self.strings.len()
        }
        &&& forall|k: int| 0 <= k < self.symbols.len() ==> match #[trigger] self.symbols[k] {
            Symbol::Func(f) => f < self.functions.len(),
            Symbol::Global(x) => x < self.globals.len(),
        }
        &&& forall|k: int| 0 <= k < self.named.len() ==> #[trigger] self.named[k].0 < self.strings.len()
        &&& forall|k: int| 0 <= k < self.records.len() ==> #[trigger] self.records[k].name < self.strings.len()
            && self.records[k].first_field + self.records[k].field_count <= self.strings.len()
        &&& forall|k: int| 0 <= k < self.blocks.len() ==> #[trigger] self.blocks[k].label < self.strings.len()
        &&& self.position matches Some(b) ==> b < self.blocks.len()
    }

    pub open spec fn intern(self, s: Seq<char>) -> (GenV, usize) {
        (GenV { strings: self.strings.push(s), ..self }, self.strings.len() as usize)
    }

    /// Interns every text of `s`, in order.
    pub open spec fn intern_all(self, s: Seq<Seq<char>>) -> GenV {
        GenV { strings: self.strings + s, ..self }
    }

    /// Converting a name to a C string fails on an inner NUL.
    pub open spec fn check_name(self, s: Seq<char>) -> GenV {
        GenV { fault: self.fault || s.contains('\0'), ..self }
    }

    /// A constant in LLVM's sense: a literal constant, a global's address, or the value of
    /// an instruction that the builder folded.
    pub open spec fn is_const(self, o: Operand) -> bool {
        match o {
            Operand::Inst(k) => k < self.insts.len() && self.insts[k as int].folded,
            Operand::Param(_, _) => false,
            _ => true,
        }
    }

    /// The builder folds the instruction into a constant: it computes a value from
    /// operands that are all constants.
    #[verifier::opaque]
    pub open spec fn folds(self, i: Inst) -> bool {
        match i {
            Inst::Arith { lhs, rhs, .. } => self.is_const(lhs) && self.is_const(rhs),
            Inst::ICmp { lhs, rhs, .. } => self.is_const(lhs) && self.is_const(rhs),
            Inst::ZExt { value, .. } => self.is_const(value),
            Inst::Neg { value, .. } => self.is_const(value),
            Inst::InBoundsGep { ptr, first, second, .. } => self.is_const(ptr) && self.is_const(first)
                && self.is_const(second),
            Inst::Gep { ptr, index, .. } => self.is_const(ptr) && self.is_const(index),
            _ => false,
        }
    }

    /// Asks the builder for an instruction.  A folded one is recorded outside any block;
    /// any other is inserted at the builder's position, and the block there counts as
    /// terminated exactly when the instruction is a terminator.
    pub open spec fn place(self, i: Inst) -> (GenV, Operand) {
        if self.folds(i) {
            (
                GenV { insts: self.insts.push(Placed { block: None, inst: i, folded: true }), ..self },
                Operand::Inst(self.insts.len() as usize),
            )
        } else {
            let blocks = match self.position {
                Some(b) => if b < self.blocks.len() {
                    self.blocks.update(b as int, IrBlock { terminated: i.spec_is_terminator(), ..self.blocks[b as int] })
                } else {
                    self.blocks
                },
                None => self.blocks,
            };
            (
                GenV { insts: self.insts.push(Placed { block: self.position, inst: i, folded: false }), blocks, ..self },
                Operand::Inst(self.insts.len() as usize),
            )
        }
    }

    pub open spec fn push_args(self, a: Seq<Operand>) -> (GenV, usize) {
        (GenV { args: self.args + a, ..self }, self.args.len() as usize)
    }

    pub open spec fn add_function(self, name: Seq<char>, ret: Ty, param_ty: Ty, count: usize, vararg: bool) -> (GenV, usize) {
        let (g, n) = self.intern(name);
        let f = IrFunction { name: n, ret, param_ty, param_count: count, vararg };
        let idx = g.functions.len() as usize;
        (GenV { functions: g.functions.push(f), symbols: g.symbols.push(Symbol::Func(idx)), ..g }, idx)
    }

    pub open spec fn add_global(self, name: Seq<char>, content: Seq<char>) -> (GenV, usize) {
        let (g1, n) = self.intern(name);
        let (g2, c) = g1.intern(content);
        let idx = g2.globals.len() as usize;
        (
            GenV {
                globals: g2.globals.push(IrGlobal { name: n, content: c }),
                symbols: g2.symbols.push(Symbol::Global(idx)),
                ..g2
            },
            idx,
        )
    }

    pub open spec fn add_struct(self, name: Seq<char>, count: usize) -> (GenV, usize) {
        let (g, n) = self.intern(name);
        let idx = g.structs.len() as usize;
        (GenV { structs: g.structs.push(IrStruct { name: n, field_count: count }), ..g }, idx)
    }

    pub open spec fn append_block(self, func: usize, label: Seq<char>) -> (GenV, usize) {
        let (g, l) = self.intern(label);
        let idx = g.blocks.len() as usize;
        (GenV { blocks: g.blocks.push(IrBlock { func, label: l, terminated: false }), ..g }, idx)
    }

    /// A new block in the current function; without a current function the generator
    /// cannot go on.
    pub open spec fn create_block(self, label: Seq<char>) -> (GenV, usize) {
        match self.current_function {
            Some(f) => self.append_block(f, label),
            None => GenV { fault: true, ..self }.append_block(0, label),
        }
    }

    pub open spec fn position_at(self, b: usize) -> GenV {
        GenV { position: Some(b), ..self }
    }

    /// Whether block `b` currently ends with a terminator.
    pub open spec fn terminated(self, b: usize) -> bool {
        0 <= b < self.blocks.len() && self.blocks[b as int].terminated
    }

    pub open spec fn symbol_name(self, s: Symbol) -> Seq<char> {
        match s {
            Symbol::Func(f) => self.strings[self.functions[f as int].name as int],
            Symbol::Global(x) => self.strings[self.globals[x as int].name as int],
        }
    }

    pub open spec fn lookup_from(self, name: Seq<char>, k: nat) -> Option<Symbol>
        decreases self.symbols.len() - k,
    {
        if k >= self.symbols.len() {
            None
        } else if self.symbol_name(self.symbols[k as int]) == name {
            Some(self.symbols[k as int])
        } else {
            self.lookup_from(name, k + 1)
        }
    }

    /// The first symbol of the module that bears this name.
    pub open spec fn lookup(self, name: Seq<char>) -> Option<Symbol> {
        self.lookup_from(name, 0)
    }

    pub open spec fn named_upto(self, name: Seq<char>, k: nat) -> Option<Operand>
        decreases k,
    {
        if k == 0 || k > self.named.len() {
            None
        } else if self.strings[self.named[k - 1].0 as int] == name {
            Some(self.named[k - 1].1)
        } else {
            self.named_upto(name, (k - 1) as nat)
        }
    }

    /// The address most recently bound to a variable name.
    pub open spec fn named_get(self, name: Seq<char>) -> Option<Operand> {
        self.named_upto(name, self.named.len())
    }

    pub open spec fn named_insert(self, name: Seq<char>, v: Operand) -> GenV {
        let (g, n) = self.intern(name);
        GenV { named: g.named.push((n, v)), ..g }
    }

    /// Leaving a loop: the innermost loop is forgotten.
    pub open spec fn pop_loop(self) -> GenV {
        if self.loops.len() > 0 {
            GenV { loops: self.loops.drop_last(), ..self }
        } else {
            self
        }
    }

    pub open spec fn named_clear(self) -> GenV {
        GenV { named: Seq::empty(), ..self }
    }

    pub open spec fn record_from(self, name: Seq<char>, k: nat) -> Option<nat>
        decreases self.records.len() - k,
    {
        if k >= self.records.len() {
            None
        } else if self.strings[self.records[k as int].name as int] == name {
            Some(k)
        } else {
            self.record_from(name, k + 1)
        }
    }

    /// Records the fields of a struct type, replacing an earlier record of the same name.
    pub open spec fn record_struct(self, name: Seq<char>, ty: usize, fields: Seq<Seq<char>>) -> GenV {
        let found = self.record_from(name, 0);
        let (g1, n) = self.intern(name);
        let g2 = g1.intern_all(fields);
        let rec = StructRecord { name: n, ty, first_field: g1.strings.len() as usize, field_count: fields.len() as usize };
        match found {
            Some(k) => GenV { records: g2.records.update(k as int, rec), ..g2 },
            None => GenV { records: g2.records.push(rec), ..g2 },
        }
    }

    pub open spec fn field_pos_from(self, r: StructRecord, field: Seq<char>, j: nat) -> Option<nat>
        decreases r.field_count - j,
    {
        if j >= r.field_count {
            None
        } else if self.strings[r.first_field + j] == field {
            Some(j)
        } else {
            self.field_pos_from(r, field, j + 1)
        }
    }

    pub open spec fn find_field_from(self, field: Seq<char>, k: nat) -> Option<(usize, nat)>
        decreases self.records.len() - k,
    {
        if k >= self.records.len() {
            None
        } else {
            match self.field_pos_from(self.records[k as int], field, 0) {
                Some(j) => Some((self.records[k as int].ty, j)),
                None => self.find_field_from(field, k + 1),
            }
        }
    }

    /// The struct type and field index of the first recorded struct that has this field.
    pub open spec fn find_field(self, field: Seq<char>) -> Option<(usize, nat)> {
        self.find_field_from(field, 0)
    }
}

/// The generator's working state: the module being built and the state of its builder.
pub(crate) struct GenState {
    pub(crate) module: IrModule,
    pub(crate) position: Option<usize>,
    pub(crate) named_values: Vec<(usize, Operand)>,
    pub(crate) printf_fn: Option<usize>,
    pub(crate) concat_fn: Option<usize>,
    pub(crate) current_function: Option<usize>,
    pub(crate) loop_stack: Vec<LoopInfo>,
    pub(crate) struct_fields: Vec<StructRecord>,
    pub(crate) fault: bool,
}

impl View for GenState {
    type V = GenV;

    closed spec fn view(&self) -> GenV {
        GenV {
            module_name: self.module.name@,
            strings: texts(self.module.strings@),
            args: self.module.args@,
            structs: self.module.structs@,
            functions: self.module.functions@,
            param_names: self.module.param_names@,
            globals: self.module.globals@,
            symbols: self.module.symbols@,
            blocks: self.module.blocks@,
            insts: self.module.insts@,
            target_default: self.module.target_default,
            position: self.position,
            named: self.named_values@,
            printf_fn: self.printf_fn,
            concat_fn: self.concat_fn,
            current_function: self.current_function,
            loops: self.loop_stack@,
            records: self.struct_fields@,
            fault: self.fault,
        }
    }
}

/// The model of a fresh code generator for a module of the given name.
pub open spec fn fresh(module_name: Seq<char>) -> GenV {
    GenV {
        module_name,
        strings: Seq::empty(),
        args: Seq::empty(),
        structs: Seq::empty(),
        functions: Seq::empty(),
        param_names: Seq::empty(),
        globals: Seq::empty(),
        symbols: Seq::empty(),
        blocks: Seq::empty(),
        insts: Seq::empty(),
        target_default: false,
        position: None,
        named: Seq::empty(),
        printf_fn: None,
        concat_fn: None,
        current_function: None,
        loops: Seq::empty(),
        records: Seq::empty(),
        fault: module_name.contains('\0'),
    }
}

/// The code generator: the module being built and the state of its builder.
pub struct CodeGen {
    st: GenState,
}

impl View for CodeGen {
    type V = GenV;

    closed spec fn view(&self) -> GenV {
        self.st@
    }
}

impl CodeGen {
    /// Every code generator's state is well formed.
    #[verifier::type_invariant]
    pub(crate) closed spec fn inv(self) -> bool {
        self.st@.well_formed()
    }

    /// Creates a code generator for an empty module of the given name.
    pub fn new(module_name: &str) -> (r: CodeGen)
        ensures
            r@ == fresh(module_name@),
            r@.well_formed(),
            sound(r@),
    {
        CodeGen { st: GenState::new(module_name) }
    }

    /// The module built so far.
    pub fn module(&self) -> (m: &IrModule)
        ensures
            texts(m.strings@) == self@.strings,
            m.name@ == self@.module_name,
            m.args@ == self@.args,
            m.structs@ == self@.structs,
            m.functions@ == self@.functions,
            m.param_names@ == self@.param_names,
            m.globals@ == self@.globals,
            m.symbols@ == self@.symbols,
            m.blocks@ == self@.blocks,
            m.insts@ == self@.insts,
            m.target_default == self@.target_default,
    {
        self.st.module()
    }

    /// Whether generation met a situation in which it cannot go on (see `GenV::fault`).
    pub fn is_faulted(&self) -> (r: bool)
        ensures
            r == self@.fault,
    {
        self.st.is_faulted()
    }

    /// Generates the module's code for a parsed program: a first pass declares the struct
    /// types and external functions, a second generates every statement in order and stops
    /// at the first error.
    pub fn generate(&mut self, program: &ASTNode) -> (r: Result<(), String>)
        ensures
            final(self)@.well_formed(),
            (final(self)@, sv(r)) == gen_program(old(self)@, *program),
            sound(old(self)@) ==> sound(final(self)@) && evolves(old(self)@, final(self)@),
    {
        proof {
            use_type_invariant(&*self);
        }
        let mut st = GenState::new("");
        std::mem::swap(&mut st, &mut self.st);
        let r = st.generate(program);
        self.st = st;
        r
    }
}

impl GenState {
    /// A working state for an empty module of the given name.
    pub(crate) fn new(module_name: &str) -> (r: GenState)
        ensures
            r@ == fresh(module_name@),
            r@.well_formed(),
            sound(r@),
    {
        let name = module_name.to_owned();
        let fault = has_nul(&name);
        let r = GenState {
            module: IrModule {
                name,
                strings: Vec::new(),
                args: Vec::new(),
                structs: Vec::new(),
                functions: Vec::new(),
                param_names: Vec::new(),
                globals: Vec::new(),
                symbols: Vec::new(),
                blocks: Vec::new(),
                insts: Vec::new(),
                target_default: false,
            },
            position: None,
            named_values: Vec::new(),
            printf_fn: None,
            concat_fn: None,
            current_function: None,
            loop_stack: Vec::new(),
            struct_fields: Vec::new(),
            fault,
        };
        assert(texts(r.module.strings@) =~= Seq::<Seq<char>>::empty());
        r
    }

    /// The module built so far.
    pub(crate) fn module(&self) -> (m: &IrModule)
        ensures
            texts(m.strings@) == self@.strings,
            m.name@ == self@.module_name,
            m.args@ == self@.args,
            m.structs@ == self@.structs,
            m.functions@ == self@.functions,
            m.param_names@ == self@.param_names,
            m.globals@ == self@.globals,
            m.symbols@ == self@.symbols,
            m.blocks@ == self@.blocks,
            m.insts@ == self@.insts,
            m.target_default == self@.target_default,
    {
        &self.module
    }

    /// Whether generation met a situation in which it cannot go on (see `GenV::fault`).
    pub(crate) fn is_faulted(&self) -> (r: bool)
        ensures
            r == self@.fault,
    {
        self.fault
    }

    pub(crate) fn intern(&mut self, s: String) -> (r: usize)
        requires
            old(self)@.well_formed(),
        ensures
            (final(self)@, r) == old(self)@.intern(s@),
            final(self)@.well_formed(),
    {
        let r = self.module.strings.len();
        self.module.strings.push(s);
        assert(texts(self.module.strings@) =~= texts(old(self).module.strings@).push(s@));
        assert(self@ == old(self)@.intern(s@).0);
        r
    }

    pub(crate) fn intern_str(&mut self, s: &str) -> (r: usize)
        requires
            old(self)@.well_formed(),
        ensures
            (final(self)@, r) == old(self)@.intern(s@),
            final(self)@.well_formed(),
    {
        self.intern(String::from_str(s))
    }

    pub(crate) fn check_name(&mut self, s: &String)
        requires
            old(self)@.well_formed(),
        ensures
            final(self)@ == old(self)@.check_name(s@),
            final(self)@.well_formed(),
    {
        if has_nul(s) {
            self.fault = true;
        }
    }

    fn is_const(&self, o: Operand) -> (r: bool)
        ensures
            r == self@.is_const(o),
    {
        match o {
            Operand::Inst(k) => k < self.module.insts.len() && self.module.insts[k].folded,
            Operand::Param(_, _) => false,
            _ => true,
        }
    }

    fn folds(&self, i: Inst) -> (r: bool)
        ensures
            r == self@.folds(i),
    {
        proof {
            reveal(GenV::folds);
        }
        match i {
            Inst::Arith { lhs, rhs, .. } => self.is_const(lhs) && self.is_const(rhs),
            Inst::ICmp { lhs, rhs, .. } => self.is_const(lhs) && self.is_const(rhs),
            Inst::ZExt { value, .. } => self.is_const(value),
            Inst::Neg { value, .. } => self.is_const(value),
            Inst::InBoundsGep { ptr, first, second, .. } => self.is_const(ptr) && self.is_const(first)
                && self.is_const(second),
            Inst::Gep { ptr, index, .. } => self.is_const(ptr) && self.is_const(index),
            _ => false,
        }
    }

    pub(crate) fn place(&mut self, i: Inst) -> (r: Operand)
        requires
            old(self)@.well_formed(),
        ensures
            (final(self)@, r) == old(self)@.place(i),
            final(self)@.well_formed(),
    {
        let k = self.module.insts.len();
        if self.folds(i) {
            self.module.insts.push(Placed { block: None, inst: i, folded: true });
            assert(self@ == old(self)@.place(i).0);
            return Operand::Inst(k);
        }
        let t = i.is_terminator();
        self.module.insts.push(Placed { block: self.position, inst: i, folded: false });
        match self.position {
            Some(b) => {
                let old_b = self.module.blocks[b];
                self.module.blocks.set(b, IrBlock { terminated: t, ..old_b });
            },
            None => {},
        }
        assert(self@.blocks =~= old(self)@.place(i).0.blocks);
        assert(self@ == old(self)@.place(i).0);
        Operand::Inst(k)
    }

    pub(crate) fn push_args(&mut self, a: &Vec<Operand>) -> (r: usize)
        requires
            old(self)@.well_formed(),
        ensures
            (final(self)@, r) == old(self)@.push_args(a@),
            final(self)@.well_formed(),
    {
        let start = self.module.args.len();
        let mut i: usize = 0;
        while i < a.len()
            invariant
                i <= a.len(),
                self@ == (GenV { args: old(self)@.args + a@.take(i as int), ..old(self)@ }),
                start == old(self)@.args.len(),
            decreases a.len() - i,
        {
            self.module.args.push(a[i]);
            assert(a@.take(i as int + 1) =~= a@.take(i as int).push(a@[i as int]));
            i = i + 1;
        }
        assert(a@.take(a.len() as int) =~= a@);
        start
    }

    pub(crate) fn add_function(&mut self, name: String, ret: Ty, param_ty: Ty, count: usize, vararg: bool) -> (r: usize)
        requires
            old(self)@.well_formed(),
        ensures
            (final(self)@, r) == old(self)@.add_function(name@, ret, param_ty, count, vararg),
            final(self)@.well_formed(),
    {
        let n = self.intern(name);
        let idx = self.module.functions.len();
        self.module.functions.push(IrFunction { name: n, ret, param_ty, param_count: count, vararg });
        self.module.symbols.push(Symbol::Func(idx));
        assert(self@ == old(self)@.add_function(name@, ret, param_ty, count, vararg).0);
        idx
    }

    pub(crate) fn add_global(&mut self, name: String, content: String) -> (r: usize)
        requires
            old(self)@.well_formed(),
        ensures
            (final(self)@, r) == old(self)@.add_global(name@, content@),
            final(self)@.well_formed(),
    {
        let n = self.intern(name);
        let c = self.intern(content);
        let idx = self.module.globals.len();
        self.module.globals.push(IrGlobal { name: n, content: c });
        self.module.symbols.push(Symbol::Global(idx));
        assert(self@ == old(self)@.add_global(name@, content@).0);
        idx
    }

    pub(crate) fn add_struct(&mut self, name: String, count: usize) -> (r: usize)
        requires
            old(self)@.well_formed(),
        ensures
            (final(self)@, r) == old(self)@.add_struct(name@, count),
            final(self)@.well_formed(),
    {
        let n = self.intern(name);
        let idx = self.module.structs.len();
        self.module.structs.push(IrStruct { name: n, field_count: count });
        assert(self@ == old(self)@.add_struct(name@, count).0);
        idx
    }

    pub(crate) fn append_block(&mut self, func: usize, label: String) -> (r: usize)
        requires
            old(self)@.well_formed(),
        ensures
            (final(self)@, r) == old(self)@.append_block(func, label@),
            final(self)@.well_formed(),
    {
        let l = self.intern(label);
        let idx = self.module.blocks.len();
        self.module.blocks.push(IrBlock { func, label: l, terminated: false });
        assert(self@ == old(self)@.append_block(func, label@).0);
        idx
    }

    pub(crate) fn create_block(&mut self, label: String) -> (r: usize)
        requires
            old(self)@.well_formed(),
        ensures
            (final(self)@, r) == old(self)@.create_block(label@),
            final(self)@.well_formed(),
    {
        match self.current_function {
            Some(f) => self.append_block(f, label),
            None => {
                self.fault = true;
                assert(self@ == (GenV { fault: true, ..old(self)@ }));
                self.append_block(0, label)
            },
        }
    }

    pub(crate) fn position_at(&mut self, b: usize)
        requires
            old(self)@.well_formed(),
            b < old(self)@.blocks.len(),
        ensures
            final(self)@ == old(self)@.position_at(b),
            final(self)@.well_formed(),
    {
        self.position = Some(b);
    }

    pub(crate) fn is_terminated(&self, b: usize) -> (r: bool)
        ensures
            r == self@.terminated(b),
    {
        b < self.module.blocks.len() && self.module.blocks[b].terminated
    }

    pub(crate) fn lookup(&self, name: &String) -> (r: Option<Symbol>)
        requires
            self@.well_formed(),
        ensures
            r == self@.lookup(name@),
            r matches Some(Symbol::Func(f)) ==> f < self@.functions.len(),
            r matches Some(Symbol::Global(x)) ==> x < self@.globals.len(),
    {
        let mut k: usize = 0;
        while k < self.module.symbols.len()
            invariant
                self@.well_formed(),
                k <= self@.symbols.len(),
                self@.lookup(name@) == self@.lookup_from(name@, k as nat),
            decreases self@.symbols.len() - k,
        {
            let s = self.module.symbols[k];
            let found = match s {
                Symbol::Func(f) => self.module.strings[self.module.functions[f].name].eq(name),
                Symbol::Global(x) => self.module.strings[self.module.globals[x].name].eq(name),
            };
            if found {
                return Some(s);
            }
            k = k + 1;
        }
        None
    }

    pub(crate) fn named_get(&self, name: &String) -> (r: Option<Operand>)
        requires
            self@.well_formed(),
        ensures
            r == self@.named_get(name@),
    {
        let mut k: usize = self.named_values.len();
        while k > 0
            invariant
                self@.well_formed(),
                k <= self@.named.len(),
                self@.named_get(name@) == self@.named_upto(name@, k as nat),
            decreases k,
        {
            let (key, v) = self.named_values[k - 1];
            if self.module.strings[key].eq(name) {
                return Some(v);
            }
            k = k - 1;
        }
        None
    }

    pub(crate) fn named_insert(&mut self, name: String, v: Operand)
        requires
            old(self)@.well_formed(),
        ensures
            final(self)@ == old(self)@.named_insert(name@, v),
            final(self)@.well_formed(),
    {
        let n = self.intern(name);
        self.named_values.push((n, v));
    }

    pub(crate) fn named_clear(&mut self)
        requires
            old(self)@.well_formed(),
        ensures
            final(self)@ == old(self)@.named_clear(),
            final(self)@.well_formed(),
    {
        self.named_values = Vec::new();
    }

    fn record_index(&self, name: &String) -> (r: Option<usize>)
        requires
            self@.well_formed(),
        ensures
            match r {
                Some(k) => self@.record_from(name@, 0) == Some(k as nat) && k < self@.records.len(),
                None => self@.record_from(name@, 0) is None,
            },
    {
        let mut k: usize = 0;
        while k < self.struct_fields.len()
            invariant
                self@.well_formed(),
                k <= self@.records.len(),
                self@.record_from(name@, 0) == self@.record_from(name@, k as nat),
            decreases self@.records.len() - k,
        {
            if self.module.strings[self.struct_fields[k].name].eq(name) {
                return Some(k);
            }
            k = k + 1;
        }
        None
    }

    pub(crate) fn record_struct(&mut self, name: &String, ty: usize, fields: &Vec<String>)
        requires
            old(self)@.well_formed(),
        ensures
            final(self)@ == old(self)@.record_struct(name@, ty, texts(fields@)),
            final(self)@.well_formed(),
    {
        let found = self.record_index(name);
        let n = self.intern(name.clone());
        let ghost g1 = self@;
        let first = self.module.strings.len();
        let mut i: usize = 0;
        while i < fields.len()
            invariant
                i <= fields.len(),
                self@ == g1.intern_all(texts(fields@).take(i as int)),
                g1.well_formed(),
                self@.well_formed(),
            decreases fields.len() - i,
        {
            self.intern(fields[i].clone());
            assert(texts(fields@).take(i as int + 1) =~= texts(fields@).take(i as int).push(fields@[i as int]@));
            assert(g1.strings + texts(fields@).take(i as int + 1) =~= (g1.strings + texts(fields@).take(i as int)).push(fields@[i as int]@));
            i = i + 1;
        }
        assert(texts(fields@).take(fields.len() as int) =~= texts(fields@));
        let rec = StructRecord { name: n, ty, first_field: first, field_count: fields.len() };
        match found {
            Some(k) => {
                self.struct_fields.set(k, rec);
            },
            None => {
                self.struct_fields.push(rec);
            },
        }
        assert(self@ == old(self)@.record_struct(name@, ty, texts(fields@)));
    }

    fn field_pos(&self, r: StructRecord, field: &String) -> (p: Option<usize>)
        requires
            self@.well_formed(),
            r.first_field + r.field_count <= self@.strings.len(),
        ensures
            match p {
                Some(j) => self@.field_pos_from(r, field@, 0) == Some(j as nat),
                None => self@.field_pos_from(r, field@, 0) is None,
            },
    {
        let mut j: usize = 0;
        let ns = self.module.strings.len();
        assert(ns == self@.strings.len());
        while j < r.field_count
            invariant
                self@.well_formed(),
                r.first_field + r.field_count <= self@.strings.len(),
                j <= r.field_count,
                ns == self@.strings.len(),
                self@.field_pos_from(r, field@, 0) == self@.field_pos_from(r, field@, j as nat),
            decreases r.field_count - j,
        {
            if self.module.strings[r.first_field + j].eq(field) {
                return Some(j);
            }
            j = j + 1;
        }
        None
    }

    pub(crate) fn find_field(&self, field: &String) -> (r: Option<(usize, usize)>)
        requires
            self@.well_formed(),
        ensures
            match r {
                Some((t, j)) => self@.find_field(field@) == Some((t, j as nat)),
                None => self@.find_field(field@) is None,
            },
    {
        let mut k: usize = 0;
        while k < self.struct_fields.len()
            invariant
                self@.well_formed(),
                k <= self@.records.len(),
                self@.find_field(field@) == self@.find_field_from(field@, k as nat),
            decreases self@.records.len() - k,
        {
            let rec = self.struct_fields[k];
            assert(self@.records[k as int].name < self@.strings.len());
            match self.field_pos(rec, field) {
                Some(j) => {
                    return Some((rec.ty, j));
                },
                None => {},
            }
            k = k + 1;
        }
        None
    }

    pub(crate) fn printf_fn(&self) -> (r: Option<usize>)
        ensures
            r == self@.printf_fn,
    {
        self.printf_fn
    }

    pub(crate) fn set_printf_fn(&mut self, f: usize)
        requires
            old(self)@.well_formed(),
        ensures
            final(self)@ == (GenV { printf_fn: Some(f), ..old(self)@ }),
            final(self)@.well_formed(),
    {
        self.printf_fn = Some(f);
    }

    pub(crate) fn concat_fn(&self) -> (r: Option<usize>)
        ensures
            r == self@.concat_fn,
    {
        self.concat_fn
    }

    pub(crate) fn set_concat_fn(&mut self, f: usize)
        requires
            old(self)@.well_formed(),
        ensures
            final(self)@ == (GenV { concat_fn: Some(f), ..old(self)@ }),
            final(self)@.well_formed(),
    {
        self.concat_fn = Some(f);
    }

    pub(crate) fn set_current_function(&mut self, f: Option<usize>)
        requires
            old(self)@.well_formed(),
        ensures
            final(self)@ == (GenV { current_function: f, ..old(self)@ }),
            final(self)@.well_formed(),
    {
        self.current_function = f;
    }

    pub(crate) fn set_target_default(&mut self)
        requires
            old(self)@.well_formed(),
        ensures
            final(self)@ == (GenV { target_default: true, ..old(self)@ }),
            final(self)@.well_formed(),
    {
        self.module.target_default = true;
    }

    pub(crate) fn position(&self) -> (r: Option<usize>)
        ensures
            r == self@.position,
    {
        self.position
    }

    pub(crate) fn push_loop(&mut self, l: LoopInfo)
        requires
            old(self)@.well_formed(),
        ensures
            final(self)@ == (GenV { loops: old(self)@.loops.push(l), ..old(self)@ }),
            final(self)@.well_formed(),
    {
        self.loop_stack.push(l);
    }

    pub(crate) fn pop_loop(&mut self)
        requires
            old(self)@.well_formed(),
        ensures
            final(self)@ == old(self)@.pop_loop(),
            final(self)@.well_formed(),
    {
        if self.loop_stack.len() > 0 {
            let _ = self.loop_stack.pop();
            assert(self@.loops =~= old(self)@.loops.drop_last());
        }
    }

    pub(crate) fn innermost_loop(&self) -> (r: Option<LoopInfo>)
        ensures
            r == (if self@.loops.len() > 0 { Some(self@.loops.last()) } else { None::<LoopInfo> }),
    {
        if self.loop_stack.len() > 0 {
            Some(self.loop_stack[self.loop_stack.len() - 1])
        } else {
            None
        }
    }

    pub(crate) fn push_param_name(&mut self, p: ParamName)
        requires
            old(self)@.well_formed(),
        ensures
            final(self)@ == (GenV { param_names: old(self)@.param_names.push(p), ..old(self)@ }),
            final(self)@.well_formed(),
    {
        self.module.param_names.push(p);
    }
}

} // verus!
