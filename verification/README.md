# amber

The decision-making core of the Amber compiler (Amber compiles to Bash),
written in Verus: the functions in `src/` carry contracts that Verus
proves, apart from a few small trusted wrappers around calls into the
standard library and outside crates (`regex`, `wildmatch`), whose contracts
are stated and believed.

## Layout

- `src/` — the verified library
  - `flag_registry`, `cli`, `commands`: command line flags, what a command
    line asks for, and the choices of the `amber` program (output paths,
    targets, rejected inputs).
  - `shell_resolve`: which shell dialect to compile for and which program
    runs the generated code.
  - `compiler`, `postprocess`: compiler options, script assembly (with the
    sudo preamble) and the postprocessor pipeline (wildcard filters).
  - `doc_output`: which modules are documented and where their Markdown
    files go.
  - `file_source`, `cache`: token and parse cache locations and validity.
  - `types`, `builtins`, `builtin_code`: Amber types, the type checks of
    the builtins and the shell code of `rm`, `cp`, `sleep`, `ls`, `lock`.
  - `control_flow`, `handler_parse`: failure handlers (`?`, `failed`,
    `succeeded`, `exited`) and their shell code, and if chains (dead code
    pruning, narrowing facts).
  - `modifier`, `command`: command modifiers (`trust`, `silent`, `sudo`, ...)
    and how commands are placed in the generated code.
  - `cli_param`: the `getopt` parser that compiled scripts carry.
  - `conditions`: the shell code of if chains and conditions (older form).
  - `keywords`: names derived from keyword kinds and context fields.
  - `block`, `docs`: statement blocks and documentation order.
  - `text`: verified string helpers.
- `tests/` — tests of the library on concrete values.
- `app/` — the `amber` program: clap, the environment, files, processes.

Public proof functions named `law_*` state properties that hold across
calls (for instance that arguments after `--` reach the script unchanged,
or that a cache from another build is never used).
