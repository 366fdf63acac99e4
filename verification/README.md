# gitbones

Git deployments over SSH: a `.bones/` folder of hooks and deployment
scripts in the repository, a bare repository on the host, and a
two-user ownership model on the host (the deploy user runs the scripts,
the service user owns the files afterwards).

- `src/` is the library, verified with Verus. It holds the configuration
  model, the plan that hands the worktree to the deploy user and hardens
  it back (`permissions`), the doctor's checks (`doctor`), the
  `.gitignore` update, scaffold targets and setup sequence, local and
  on the host (`init`), the setup questions
  (`prompts`), the remote check (`git`), and the SSH commands and their
  outcomes (`ssh`), on top of verified text, number and path primitives
  (`text`, `num`, `paths`).
- `app/` is the `gitbones` program: it reads the disk, prompts, opens the
  git repository, talks to the host, and performs the file-system steps
  that the library plans.
- `tests/` runs the library on concrete inputs.
