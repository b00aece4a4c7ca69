# gitree

The verified core of `gitree`, a tool for the bare-clone + worktree layout:

```
my-project/              ← wrapper
├── .bare/               ← git database (shared by all worktrees)
├── .git                 ← file: "gitdir: ./.bare"
├── .shared/             ← gitignored files symlinked into each worktree
└── <branch>/            ← one worktree per branch
```

## Layout

- `src/` — the library, verified with Verus.  The tool's decisions are
  here with their contracts: parsing `git worktree list --porcelain`,
  building git command lines and reading their outcomes, discovering the
  wrapper from what is found on disk, resolving branch arguments, the
  completion candidates, the shell integration scripts, the pre-flight
  checks and plan of `migrate`, the step of `pull --all` for each
  worktree, the branch filter of `foreach --only`, the text of `list`,
  `status`, `doctor` and `prune`.  Laws that span several functions are public
  proof functions next to the functions they speak of.
- `tests/` — tests of the library on concrete values.
- `app/` — the command-line program: argument parsing, running `git` and
  other commands, the filesystem, JSON output, threads.  It hands the
  library plain values and carries out what the library returns.
