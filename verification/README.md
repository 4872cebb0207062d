# kitty session picker

The logic of `kitty-esm-switcher`, an fzf picker that runs in a kitty overlay
and opens, creates, renames and deletes named kitty sessions.

- `src/` is the verified library:
  - `names`: the session-name rules and how names map to session files;
  - `kitty`: quoting of `kitten @ action` arguments, the anchored and escaped
    `session:` match expressions, and the argument lists of each `kitten` command;
  - `listing`: the sessions directory and the sorted list of sessions;
  - `picker`: the entries handed to fzf, how fzf's answer is read, and which
    operation a key starts;
  - `flow`: the requests and answers that operations exchange with their caller;
  - `goto`, `tabs`, `create`, `snapshot`, `rename`, `delete`: each operation as a
    step function from its stage and the last answer to its next request;
  - `text`, `chars`: trimming, character classes and other text primitives.
- `app/` is the program: it reads the environment and the sessions directory,
  runs fzf and `kitten`, touches files, and feeds the answers to the library.
- `tests/` runs the library on concrete inputs.
