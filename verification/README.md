# lib: the scheduling core of a Lua bytecode decompiler

The decompiler turns Lua 5.1–5.5, LuaJIT or Luau bytecode into source through
a fixed chain of stages: parse, transform, cfg, graph facts, dataflow,
structure facts, HIR, AST, readability, naming, generate. This crate holds
and proves the part that decides how a decompilation runs:

- `decompile::state`: the stage order (`DecompileStage`, `next`, names) and
  the per-run container of stage products (`DecompileState`).
- `decompile::options`: dialects, the public options and their normalisation.
- `decompile::pipeline`: `decompile`, which runs the stages up to the target
  stage, dumps the requested ones and attaches generate-stage warnings;
  `decompile::stages` holds the same schedule as one loop.
- `decompile::backend`: the trait through which the pipeline calls the
  decompiler layers; each layer's behaviour is a relation between its
  inputs and its outcome.
- `decompile::products`: what each slot, failure and dump holds, stated
  over those relations; the pipeline's contracts say that every slot up to
  the target holds its layer's outcome on the earlier products.
- `parser`, `hir`, `ast`, `naming`, `readability`, `generate`, `debug`: the
  options and small data types of those layers that the pipeline reads.

`tests/` drives the pipeline with a toy implementation of the layers.
