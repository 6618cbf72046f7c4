# relib

A framework for reloadable dynamic libraries ("modules") loaded by a host
program, with its bookkeeping and decisions verified by Verus.

- `src/` — the verified library:
  - `shared`, `allocation_laws`: allocator events, the model of a module's
    live allocations, and the laws tying the module's event cache to the
    host's record.
  - `host_allocs`: the host's record of every module's live allocations.
  - `module_alloc`, `module_helpers`: the module's event cache, its
    hand-over in batches, and the check made when the module is unloading.
  - `unload`, `host_load`, `host_helpers`, `errors`: the steps of unloading
    and their checks, the checks of loading, module ids, failure texts, and
    the check that a library is no longer mapped.
  - `codegen`, `templates`, `interface_files`, `host_codegen`,
    `module_codegen`, `export_macro`: generation of the code that connects
    host and module from the source text of an interface trait.
  - `syn_source`, `plain_syntax`: reading that source with `syn`, and the
    syntax the generators copy from it.
  - `symbol_laws`: the host's and the module's generated sources agree on
    the symbol of every function of an interface trait.
  - `ffi_types`, `exports_types`: values crossing between host and module.
- `app/` — what touches the operating system and raw memory: opening and
  closing libraries, the module's global allocator, the exchanged symbols,
  and reading and writing interface and generated files.
- `tests/` — tests of the library on concrete values.
