# Telescope

A browser that people and agents share. People log in and browse; an agent gets a session that
names the origins it may see and what it may do there, a grant that it proves itself by, and no
password ever.

`src/` is the library. Everything in it is checked by Verus: each function states what it returns
or changes, and the promises that span several functions are proof functions of their own.

- `origin`, `credential`, `vault`, `session`: origins, saved logins and their passwords, sessions
  and grants.
- `tab`, `pane`, `page`, `bookmark`, `action`, `command`, `audit`, `handoff`: what the control plane
  speaks of.
- `control`: the control plane. `control::soundness` states what holds of its state at all times,
  `control::endings` what is left when a tab, a session or a grant ends, `control::refusals` that a
  refused request changes nothing, and `control::ordering` in what order lists come.
- `server`: the control plane over HTTP: who asks, what for, and what they are answered.
- `runtime`: commands as actions of a browser, and the scripts that carry them out in a page.
- `desktop`: the window: its layout, its chrome, its shortcuts, its assistants and its tabs from one
  run to the next.
- `cli`: the command line: what each command asks of the service, and the lines it prints.
- `text`, `lists`, `keyed`, `json`, `model`, `draw`: texts, lists, ordered maps, JSON, views, and the
  time and identifiers that an operation draws.

An operation that needs the time or new identifiers comes twice. The one whose name ends in `_at`
takes them as a `Draw` and is exact; the other draws them and holds for every draw.

`app/` is the program around the library: files, sockets, the keyring, processes and the window.

What the library believes of code outside it stands in `text` (`String::push`), `draw` (the clock and
random identifiers), `vault` (wiping a text), `origin` (parsing an address), `json` (writing a text and
reading a member) and `runtime::actions` (the debug form of a text).
