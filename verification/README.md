# dehydrate

Reclaims disk space from inactive software projects: finds stale projects,
records a small JSON snapshot of how to reinstall their dependencies, deletes
the heavy dependency directories, and later reinstalls them on request.

- `src/` is the verified library: project analysis (the lockfile
  rule), staleness, the hibernation plan and snapshot, the whitelist of
  reinstall commands, and the step-by-step decision machines for hibernating
  one project, hibernating every stale project at once (with the menu for
  missing lockfiles), and rehydrating a project, with their safety properties proved
  (consent before anything runs, whitelisted commands only, nothing deleted in
  a dry run or through a symlink, snapshot written before deletion and listing
  exactly what is deleted, no lockfile generated without a terminal).
- `app/` is the command line: it walks the file system, reads and writes the
  snapshot as JSON, runs processes and prompts, and feeds what it observes to
  the library's machines.
- `tests/` exercises the library on concrete values.
