# ngx (stream)

A verified core for NGINX stream modules written in Rust.

- `src/base.rs`: status codes (`NGX_OK`, `NGX_ERROR`, `NGX_CONF_ERROR`), `Status`,
  `AllocError`, and the `Merge` trait for configuration inheritance.
- `src/stream/conf.rs`: plain-value models of the NGINX structures that hold
  stream configuration (pointers as addresses, `0` for null), the lookup traits
  `StreamModuleMainConfExt` / `StreamModuleServerConfExt` and their impls, the
  per-module access traits, the named stream modules, `StreamPhase`, and
  phase-handler registration.
- `src/stream/module.rs`: the `StreamModule` configuration-stage interface.
- `src/stream/session.rs`: `Session`, per-module session contexts, handler
  status conversion and the handler runner.
- `app/lib.rs`: the NGINX side, which reads the raw `nginx-sys` structures into
  the models, calls the library, and writes changes back.

Every function in `src/` is verified with Verus; `tests/` runs the library on
concrete values.
