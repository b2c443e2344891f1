# ghx

A terminal browser for GitHub that works through the `gh` command line tool:
repositories (your own, starred, or an organization's), GitHub lists, search,
notifications, and each repository's overview, issues and pull requests.

The library under `src/` is verified with Verus. It holds the state of every
screen and what each key press does to it, the filters and the selection
moves, the `gh` invocations and what is read from their output, the theme
files and the configuration, and the text that each screen shows. Its
contracts state these over mathematical models; `src/laws.rs` proves what
holds across operations (filters keep exactly the matching entries, a fetched
source comes back from the cache, Tab and Shift+Tab undo one another, going
back undoes entering a repository, and more).

`app/` is the program around it: it runs `gh`, reads its JSON, reads the
configuration files, runs the fetches in the background, and draws the
screens with ratatui.

Layout of `src/`:

- `text.rs`: characters, trimming, searching, lines, numbers, case folding.
- `gh.rs`: GitHub data, the `gh` arguments, and what is computed from output.
- `theme.rs`: colors, theme files, the configuration file, the catalog.
- `ui/`: the screens (repository list, lists, search, notifications,
  repository and item screens, the source and account pickers), the
  selection moves, relative times, and the display model.
- `app.rs`: the browser as a whole; `keys.rs`: what a key press does;
  `modal.rs`: the keys of the source and account pickers and of the screen
  of an issue or pull request, and how a source is chosen;
  `actions.rs`: the key hints and the actions menu; `screen.rs`: breadcrumb,
  tabs, footer, help, actions menu and theme picker.
- `laws.rs`: the properties that span operations.
