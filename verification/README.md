# webhook_server

A git webhook server that deploys documentation, with its decisions verified
by Verus.

On a push to `main` or `master` from GitHub, Gitee or GitLab, the server checks
the delivery (HMAC signature or token, GitHub's IP ranges, the owner and
repository whitelists), syncs the repository (`git clone`, or `git pull` in an
existing checkout), builds its `docs/` folder (virtual environment, `pip
install -r requirements.txt`, `make dist`), copies `docs/dist/` into the
deployment folder and, where configured, publishes it over SSH with `rsync`.
An administration panel manages repositories and runs the same steps by hand.

## Layout

- `src/` — the verified library. Every decision is a function with a
  contract, and the multi-step work (deployment retries, git sync, build,
  virtual environment, `pip`, SSH publishing) is a state machine whose steps
  the caller performs and whose transitions are specified exactly.
  - `webhook` — screening deliveries, reading their payload, the deployment
    plan and the deployment log.
  - `config` — merging the configuration file with the environment.
  - `auth`, `admin` — sessions, roles and the managed repository list.
  - `deploy`, `venv` — paths, command lines and the step machines.
  - `crypto`, `clock` — signatures, tokens and time, through small trusted
    wrappers around `hmac`, `sha2`, `hex`, `subtle`, `rand`, `chrono`.
  - `headers`, `net`, `text`, `status` — request headers, IP networks,
    string helpers and HTTP statuses.
- `app/` — the executable: HTTP routes (axum), file and process I/O, and the
  loops that perform the library's steps.
- `tests/` — tests of the library on concrete values.

## Configuration

Settings come from `config.toml` (or the file named by `CONFIG_FILE`) and are
overridden by environment variables: `PORT`, `LOG_FILE_PATH`,
`WEBHOOK_SECRET`, `ALLOWED_ORGS`, `ALLOWED_USERS`, `ALLOWED_REPOS`,
`SKIP_IP_CHECK`, `SOURCE_DIR`, `DEPLOY_DIR`, `USE_VENV`, `VENV_DIR`,
`PYTHON_BIN`, `UPGRADE_PIP`. The lists are comma-separated; an empty list
admits everyone.
