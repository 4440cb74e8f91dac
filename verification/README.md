# iswitch

Selects the keyboard input source that is wanted for the active application. For
macOS.

- `src/` is the library: what the program decides, with contracts that Verus proves.
- `app/` is the program around it: the environment, the files, the log, the system's
  input sources and its notifications.
- `tests/` runs the library on given values.

The library's modules:

| module | what it decides |
| --- | --- |
| `launch` | the command line, and the steps of a start |
| `paths` | where the configuration file and the log file are |
| `load` | the steps of loading the configuration file |
| `config`, `rules` | what a configuration holds, its defaults, what a reload changes |
| `follow` | which input source the active application is to have |
| `sources` | finding, naming and listing input sources |
| `logging`, `level`, `clock` | what is logged, where to, and in which form |
| `watch` | which changes of the configuration file ask for a reload |
| `process` | whether another instance is running |
| `text` | text as a sequence of characters |

Public proof functions whose names start with `law_` state what holds across several
functions. What is taken on trust stands in `text`, `level` and `clock`, each with a
comment that says what is claimed: `String::push`, `String::from_utf8_lossy`,
`str::to_lowercase`, and the formatting of a time by `chrono`.
