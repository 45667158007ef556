# uran

A small HTTP service that scaffolds Express projects: it creates a project
with a chosen package manager, and adds models, controllers and routes to it.

- `src/` is the verified library (Verus): project naming, path joining, the
  feature mapping of a project and the checks against duplicates, the package
  managers, the layout of a new project, and the text of every generated file,
  including where a new route is mounted in the routes index.
- `app/` is the server around it: actix-web handlers, file and process I/O,
  JSON and TOML (de)serialisation, and template rendering with sailfish.
- `tests/` runs the library on concrete inputs, with the standard library's
  own behaviour as the reference where the library mirrors it.
