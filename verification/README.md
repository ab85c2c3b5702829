# mintctl

The installer and operations command of the Pecan branch processor: it plans and
carries out installations (the processor alone, or with a bundled mint), updates
them, changes how the console is reached, and takes and restores backups.

- `src/` is the library: plans, settings, command lines, checks and most messages,
  each with its contract, and the order of the steps in which an operation
  proceeds. Each operation is a small machine that is told how a step went and
  answers with the next one. What holds of several functions together stands in
  public proof functions, whose names begin with `law_`.
- `src/outside.rs`, with one line in `src/text.rs`, holds all that is believed and
  not proved: calls into other crates and into std.
- `app/` is the command itself: the terminal, the file system, Docker and the
  network, driven by the machines of the library. The test of a hostname, the
  edits of the Caddyfile, many prompts and some short texts are there too.
- `tests/` exercises the library from outside.

| module | what it is about |
| --- | --- |
| `args` | the flags of the subcommands |
| `text`, `paths` | text and file paths as sequences of characters |
| `envfile`, `settings` | the `.env` file, and the one that a plan writes |
| `release` | tags, addresses of artifacts, the check of a downloaded binary |
| `compose`, `preflight` | Docker, project names, compose commands, host checks |
| `mint` | the bundled mint: unit, seed, import document, files |
| `install`, `execution`, `summary` | the plan, carrying it out, what is said after |
| `questions`, `wizard`, `dns` | the guided installer |
| `domain` | changing how the console is reached |
| `ops`, `backup`, `restore` | the operations subcommands |
| `update`, `activation` | what an update changes, and carrying it out |
| `storage` | the operation lock and private writes |
