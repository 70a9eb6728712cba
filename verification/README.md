# uis_engine

The engine of UIS, a declarative language for user interfaces, as a verified
library: the lexer, the address scheme, the registry of components and
properties (kept in `indexmap` maps), and the parser that builds a registry
from a program.

- `src/` holds the library. Every function has a contract over mathematical
  models (`Seq`, `Map`, views of each type); `src/laws.rs` states and proves
  what holds across functions, such as that building keeps the registry well
  formed and that keys and positions resolve into each other.
- `tests/` runs the library on concrete programs.
- `app/` is the command-line front end: it reads a program from disk, builds
  its registry and lists it.
