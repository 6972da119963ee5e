# verge_tui

A terminal control panel for Mihomo. It imports subscriptions and keeps them up to date, gives
profiles to the core, switches groups and nodes, tests delays, switches the system's proxy and the
tunnel, finds a core that answers or starts one, and cleans up when it is left.

The rules of the panel are verified with Verus and stand in `src/`: what it parses, computes, keeps
and tells, and the order of its steps. `app/` reads files, talks to the controller, starts
processes and lays out the screen, and carries out the steps that the library gives it. The one
formula in `app/` is the share that a gauge shows, a floating-point number.

## The library

- `text`, `number`, `order`, `paths`, `figures`, `notes`: texts, numerals, sorting, paths, figures
  for the eye, lines for the log.
- `yaml`, `weburl`, `json`: documents and addresses. The first two rest on `serde_yaml_ng`, `url`
  and `urlencoding`; each call is declared there with what it is trusted to do.
- `config`, `profile`, `subscription`, `update`, `apply`: settings, profiles, subscriptions, and
  how a profile comes to the core.
- `client`: requests to the controller and its streams.
- `hint`, `health`, `runtime`, `launch`, `process`: finding a running core, making a configuration,
  starting a core and ending it.
- `proxies`, `bulk`: groups, and delay tests of all nodes.
- `screen`, `session`, `command`, `run`, `tick`: keys, commands and ticks.
- `tunnel`, `leave`: switching the tunnel, cleaning up, and what becomes of the core.
- `report`, `render`: what the panel tells and shows.

Work outside is described by steps. A function gives the first step; the program carries it out and
hands the outcome to the function that gives the next one. The `law_` functions state what holds of
the panel as a whole.

## Running

    verge-tui
    verge-tui --import "https://example.com/sub.yaml"
    verge-tui --import /path/to/subscriptions.txt

- `VERGE_TUI_HOME`: where the state is kept, `~/.config/verge-tui` by default.
- `VERGE_TUI_CORE_BIN`: the core's program.
- `VERGE_TUI_USE_SERVICE_IPC=1`: let the system service start the core.
- `VERGE_TUI_INDEPENDENT=0`: allow controllers of other programs.
