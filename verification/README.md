# veriwasm

A verified checker of memory isolation for native code compiled from
WebAssembly: it lifts x86-64 machine code to a small intermediate
representation, runs abstract interpretations over each function's
control-flow graph to a fixpoint, and checks every statement against the
stack, heap and jump-table safety rules. The library is written in Verus:
every analysis, checker, lifter and loader function carries a contract that
Verus proves.

Layout:

- `src/ir`: the intermediate representation, the x86-64 decoder (over
  yaxpeax-x86) and lifter, the control-flow graph and the AArch64 registers.
- `src/lattices`: the abstract domains, with their meet and order laws.
- `src/analyses`: the worklist fixpoint engine and the stack, heap,
  Wasmtime, reaching-definitions and jump-table analyses.
- `src/checkers`: the checks run over an analysis result, and jump-table
  resolution.
- `src/loaders`: symbols, PLT entries, calling conventions and program
  memory.
- `src/runner`, `src/lib.rs`: the entry points that tie analyses and checks
  together.
- `app/`: the command-line front end (argument parsing, reading ELF files)
  and the compiler hooks that hand a function's code to the library.
- `tests/`: tests of the library on concrete functions.
