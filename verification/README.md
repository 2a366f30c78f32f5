# almarjaa

The verified core of the tooling around Al-Marjaa, an Arabic programming
language: command-line parsing, error reporting, the module system, the
package manager's bookkeeping, the tiered compiler's bookkeeping and
execution-loop decisions, profiling, resource guards, foreign-function
tables and a few built-in functions. Every function in `src/` carries a
contract that Verus proves.

## Layout

- `src/` — the library, verified with Verus.
  - `assoc.rs`, `text.rs`, `style.rs` — an association list keyed by text,
    text building blocks, and coloured segments of terminal output.
  - `cli/` — `args.rs` parses a command line into what to run; `mod.rs`
    routes a parsed command line; `repl.rs` classifies lines typed at the
    interactive prompt.
  - `error/` — error values, their Arabic messages, stack traces and the
    reporter that collects diagnostics.
  - `modules/` — module identifiers, the module manager and loader, the
    package manifest and manager, and the regular-expression built-ins.
  - `bytecode/` — execution limits and guards, the tiered compiler's
    bookkeeping and execution loop, the profile-guided optimiser, SIMD
    pattern detection, the register machine's code container, and the
    foreign-function interface's tables.
  - `cranelift/` — the native back end's type system, options and reports.
- `tests/` — tests of the library, run with the real outside crates.
- `app/` — what talks to the outside world: the command line and the
  interactive prompt, module and package files, JSON, time and random
  numbers, and waiting on tasks. It calls the library for every decision.

The interpreter, parser, lexer and bytecode instruction set of the language
are not part of this crate; where the library needs a value of the
language it takes it as a type parameter, and the caller performs the
instructions.
