# hir_ty

Type inference for the bodies of functions, verified with Verus.

- `ast`, `hir`: the syntax tree and the definitions, as far as inference reads them
- `db`: the questions that inference asks about the rest of a program; any of them may be canceled
- `snapshot`: a database held in memory
- `primitive`, `ty`: types, how they compare and how they are displayed
- `lower`: from written types and from definitions to types
- `rules`: what inference computes, as a mathematical function
- `infer`: the inference itself, proved to compute just that
- `table`: the table of inferred types, an `FxHashMap` of `rustc_hash`
- `index`: indices as they are written in the source
- `laws`: what holds of inference as a whole

`app/` adds `Display` and logging, which Verus does not read.
