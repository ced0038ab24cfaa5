# boson builtins

The builtin functions of the Boson interpreter, as a Verus library.

- `src/kind.rs`: the list of builtins, their names and positions, and lookup
  by name or position, with the laws that tie them together.
- `src/object.rs`: what a builtin reads of its arguments and what it gives
  back, as plain values; the work it hands out (`Request`).
- `src/dispatch.rs`: `BuiltinKind::exec`, the decision each builtin takes on
  its arguments, stated exactly by `exec_outcome`.
- `src/finish.rs`: what follows the work done outside (time, environment,
  processes, iterators, evaluation).
- `src/error.rs`: the errors of a call and their messages.
- `src/number.rs`: decimal numerals and the parsing of `i64`.
- `src/laws.rs`: laws across the builtins.
- `app/`: the host side, which performs the work that calls hand out with
  the standard library, and conversions in floating point.
