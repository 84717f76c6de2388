# test_generation

The verified core of a random test generator for Move bytecode.

- `src/types.rs`: signature tokens, their mathematical model, substitution
  of type arguments, and the accessors for references to datatypes.
- `src/abilities.rs`: ability sets and the ability calculus of the Move type
  system over a module's datatype declarations.
- `src/laws.rs`: laws of substitution and of the ability calculus.
- `src/entry.rs`: the serialized arguments for the entry function of a
  generated module.
- `src/seed.rs`: the seed of the random generator, from hex text or from the
  operating system.
- `src/generation.rs`: the bookkeeping of the producer of modules, the status
  decisions for each module, the number of workers, and error-case file names.
- `app/lib.rs`: the pipeline itself (channels, threads, random numbers,
  logging, files), parameterised by the Move toolchain it drives.
