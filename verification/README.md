# zed-anydiff (verified core)

`zed-anydiff` pins one file as a "base" and, on demand, opens Zed's native
diff view (`zed --diff BASE TARGET`) against another file.

- `src/` is the library, verified with Verus. `cli::run` starts one invocation
  and `cli::Session::resume` continues it: each step says what to print and which
  operation to perform next (resolve a path, read, write or remove the state
  file, check that a file exists, start Zed, or exit with a code). The state file
  logic (`state`), the Zed command line (`zed`) and the JSON handling (`json`,
  through `serde_json`) are specified exactly; `laws` states properties of the
  whole workflow.
- `app/` is the program: it reads the environment, performs the operations with
  `std::fs` and `std::process`, and prints.
- `tests/` drives the library against an in-memory file system.
