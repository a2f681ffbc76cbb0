# lazyvim launcher

A launcher that starts Neovim with an isolated LazyVim profile kept under a
portable home directory (`~/.lazyvim` by default).

- `src/` is the verified library: command-line parsing, the plan for each
  command, resolution of the portable home and of the Neovim executable, the
  runtime layout and Neovim's environment, the install and bootstrap
  decisions, and the `doctor` report lines. Paths are modelled as a root and
  a list of components joined in order.
- `app/main.rs` is the program: it reads arguments and environment
  variables, touches the file system, runs `nvim`, `git`, `curl` and `tar`,
  and turns the library's paths into file-system paths.
- `tests/` exercises the library on concrete values.
