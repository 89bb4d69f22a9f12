# upcloud_migrate

Converts AWS and Azure Terraform resources into UpCloud Terraform: each source resource is
mapped to its UpCloud counterpart, cross-references between resources are resolved, and the
output files, `providers.tf` and the migration notes are rendered.

- `src/` is the library, verified with Verus. Each mapping, the cross-reference tables, the
  placeholder resolution, the rendering of the output files and the front end's state machine
  carry contracts over plain-value models (`Seq<char>` for text).
  - `text.rs`, `text_sort.rs`: string and ordering primitives with their specifications.
  - `migration/providers/`: the AWS and Azure mappers, reference scanners and rewriting.
  - `migration/cross_ref.rs`, `migration/resolve.rs`, `migration/output.rs`: the generator.
  - `app.rs`: key presses and background messages to the next state and the work to do.
- `app/` holds what performs I/O around the library: writing the generated files, listing
  directories, the terminal event loop and the calls to the LLM service.
- `tests/` runs the library on concrete inputs.
