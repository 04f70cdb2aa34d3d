# ion_cli

The logic of `ion`, a command line tool for Ion data, as a library whose behaviour is stated in
`requires`/`ensures` contracts and proved with Verus.

- `src/` is the verified library: the command catalog and the command-line decisions
  (`commands`), automatic decompression (`decompress`), the data model of generated code and
  its conversion from Ion Schema type definitions (`codegen`, with the constraint mapping of
  `beta generate` in `codegen::adt`), the `inspect` table
  (`inspect`, `inspector`), stream statistics and depths (`stats`), Ion Hash output (`hash`),
  encoding primitives (`primitive`), the path query grammar (`query`), symbol-table commands
  (`symtab`), the down-conversion of Ion to JSON (`json`), schema validation reports
  (`validation`) and text helpers (`text`).
- `app/` is the `ion` program around it: argument parsing with `clap`, reading inputs, calling
  `ion-rs` and `ion-schema`, and writing output.
- `tests/` runs the library on concrete values.

Not included: the `jq` command (its value arithmetic rests on `jaq`'s value traits, floating
point and `bigdecimal`), the `dissect` and `query` commands (only the path grammar of `query`
is here, in `query`), and the hexadecimal input mode of `eq`, which has no hex reader.
