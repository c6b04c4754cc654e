# oxc_language_server

A language server that lints the files of a workspace with `oxc_linter`. The library under `src/`
holds what the server decides, with contracts that Verus proves. The program under `app/` talks to
the client, reads the disk and runs the linter.

| Module | What it holds |
| --- | --- |
| `options` | the settings of a workspace |
| `paths`, `text` | file paths and texts |
| `position`, `diagnostics` | findings of the linter and where they stand |
| `globs`, `ignore_rules`, `ignore_files` | which files are left alone |
| `config`, `nested_configs`, `watched_files` | configurations, and how they change |
| `linter` | what the linter is set up with |
| `worker` | the state of one workspace |
| `code_actions`, `commands` | the actions and commands that are offered |
| `backend` | all workspaces, and the requests of a client |
| `laws` | what holds whatever happens |

What the library takes on trust of other crates stands in functions marked
`#[verifier::external_body]`, each with a comment that says what it claims.
