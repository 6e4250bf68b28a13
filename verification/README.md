# proc_macro2_diagnostic

Compiler messages for `proc_macro2`-based macros, carried in a `Result`-like type
(`DiagnosticResult`): a valid value, a valid value with a warning, or an error,
with helps and notes attached.

- `src/` is the verified library: message levels, messages and their spans
  (`span`, `diagnostic`), the decision whether a message needs a note at the
  macro call site (over the locations of its spans), the result type with what
  `?` and the final conversion do with it (`result`), and the laws between them.
- `app/` is the compiler side, which needs a nightly compiler and the `proc_macro`
  crate: reading where spans lie, emitting messages through
  `proc_macro::Diagnostic`, `?` through the `Try` trait, and the conversion to
  `proc_macro::TokenStream`.
