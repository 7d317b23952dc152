# dsn

A reader for Specctra DSN design files (the S-expression format in which PCB
tools such as KiCad export a board for routing), verified with Verus.

Every grammar rule is a spec function over the input characters and a start
position (`Parsable::spec_parse`), and every executable parser
(`Parsable::parse_at`) is proved to compute exactly what its rule gives: the
value read and the position after it, a failure, or an abort where the input
holds a number that does not fit in 64 bits.

## Layout

- `src/outcome.rs`: the result of a parse.
- `src/text.rs`: white space, parentheses, keywords, character input.
- `src/parsable.rs`: the `Parsable` trait, lists, optional values, strings,
  `(name value)` fields, and the laws of padding and repetition.
- `src/atoms.rs`, `src/numeric.rs`, `src/shapes.rs`: identifiers, flags,
  numbers and shapes.
- `src/pcb/`: the design file and its sections; `src/session.rs`: session files.
- `src/sexpr_config.rs`: how the `#[sexpr(..)]` options of a declaration
  decide the form its text takes (names, anonymous items, optional fields).
- `src/derived.rs`: the parser such a plan stands for, its grammar
  (`spec_read`), and the laws that tie a declaration to what it reads.
- `app/`: the Python module (pyo3), the conversion of numbers to floating
  point, and the printing of failures (ariadne).
