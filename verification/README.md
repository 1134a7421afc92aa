# neta

Neta's terminal client: one screen for the coding agents that run on this and on other machines.

`src/` holds everything that the client decides, verified with Verus: what a key, a click, a paste
or a Node's message does, what the screen shows, which machine a command goes to, how a Node is
found and started, how saved machines, exports and older session directories are treated. Its
public proof functions state what holds of the client as a whole; those on machines being kept
apart stand in `isolation.rs`.

`app/` performs those decisions: the terminal, the files, the sockets, `ssh`, and the panes of
rmux. `app/session.rs` carries out what the shell of the library wishes; `app/wire.rs` holds the
JSON forms.

`tests/` runs the library with its outside crates linked.
