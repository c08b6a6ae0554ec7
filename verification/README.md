# tropical_pm

A terminal dashboard of the git projects under a master directory: for each
project its branch, how it stands to its upstream, the state of its working
tree, its last commit and, for GitHub remotes, the repository's statistics.

- `src/` is the library, written and proved with Verus:
  - `style`: colours, text modifiers, styles, spans and lines;
  - `text`: decimal numbers, padding, whitespace trimming, lexicographic order;
  - `theme`: brand presets, theme colours and the styled pieces built on them;
  - `project`: the summary of a repository's status, projects built from a
    scan, and their case-insensitive stable order;
  - `github`: the `owner/repo` path of a GitHub remote and its API address;
  - `app`: the dashboard's state and its answer to each input;
  - `ui`: the text of the list, titles, messages and the detail panel.
- `app/` is the program around it: terminal set-up and drawing with ratatui
  and crossterm, the scan of the master directory with walkdir and git2, the
  GitHub requests with ureq and serde, and the creation of projects.
- `tests/` runs the library on concrete values.
