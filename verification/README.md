# hunnu_compiler

The code generator of the Hunnu compiler, verified with Verus.

The generator walks a Hunnu syntax tree and builds an LLVM module. Here the module is
plain data (`src/ir.rs`): types, functions, string globals, basic blocks and the stream of
instructions in the order they were requested from the builder, each with the block it
went into, or marked folded where LLVM's builder turns an operation on constants into a
constant and inserts nothing. Every generator function is proved
to build exactly what its counterpart in `src/genspec.rs` states, and `src/laws.rs` proves
properties of whole runs: the module only grows, block bookkeeping stays consistent,
`printf` is declared once, external functions resolve wherever they are declared in a
program generated from a module without globals (as a new generator's is),
`break`/`continue` target the innermost loop, and a function's variables go out of scope
with it.

Layout:

- `src/ast.rs` — the syntax tree the generator consumes.
- `src/ir.rs` — the module as data.
- `src/state.rs` — the generator's state, its mathematical model and primitive steps.
- `src/genspec.rs` — what each construct generates, as spec functions.
- `src/codegen.rs` — the executable generator.
- `src/laws.rs` — properties of generation.
- `src/text.rs` — decimal rendering and byte lengths of names and literals.
- `app/` — lowering of the module through the LLVM C API (`llvm-sys`), bitcode, object
  and assembly output, linking with gcc, and the command line. It is ordinary Rust and
  takes the language's parser as an argument.
