# unsafe_census

Downloads crates from crates.io, parses their sources and counts, per crate,
unsafe traits, impls, functions, modules and blocks, and functions exported to or
imported from foreign code. The counts go to `crate_data.parquet`; crates that
fail go to `errors.json`, from which `-e` retries them.

- `src/` is the verified library (Verus): choosing crates from the index and the
  command line, the download and unpack paths, the counting of syntax
  constructs, and the failure log.
- `app/` is the program around it: command line, registry index, network,
  archives, file system, the syntax walk, and the parquet and JSON output.
- `tests/` runs the library on concrete values.
