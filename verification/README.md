# aspigro

Backs up every repository of a GitHub organisation: it reads its settings
from `.env`, asks whether to search by keyword or to take the most recently
active repositories, fetches them from the GitHub API and clones each one
with `git clone --no-single-branch`.

- `src/` is the verified library (Verus): settings checks, the page plan for
  the GitHub API, clone batches and their tally, progress rendering, the
  search menu and the scan summary.
- `app/` is the program around it: terminal, files, environment, HTTP
  requests, `git` processes and the async runtime.
- `tests/` runs the library on concrete values.
