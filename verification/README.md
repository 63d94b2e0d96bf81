# Cocoa-Way

The verified core of Cocoa-Way, a Wayland compositor for macOS that shows the
windows of programs running in containers.

`src/` decides and computes: which commands a session runs and in which order,
how profiles are written, found, replaced and read back, how the relay frames
bytes, what the clipboard hands over, how tasks and logs change, which surface
belongs to which window, how pixels are copied, and what each page and dialog
of the resource window shows. Every function there carries a contract that
Verus proves. Time, replies of commands, files and the environment come in as
arguments; what is to be done outside goes out as values.

`app/` performs it: processes, sockets, pipes, files, the system's statistics,
and arithmetic on floating-point coordinates.

`tests/` runs the library on concrete values.

## Layout

| Subject | Modules |
| --- | --- |
| Text and documents | `text`, `splitting`, `names`, `json`, `runtime_paths` |
| Profiles | `container_sessions`, `session_config`, `session_files`, `session_reading`, `session_lists`, `profiles` |
| Launching | `session_launch`, `guest_programs`, `relay`, `relay_launch`, `relay_run` |
| State | `container_mode`, `records`, `actions`, `handlers`, `tasks`, `activity`, `application_model` |
| Runtimes and storage | `runtimes`, `inventory`, `storage`, `diagnostics` |
| Pages | `page`, `pages`, `window`, `dialogs`, `session_pages`, `runtime_pages`, `resource_pages`, `detail_pages`, `display_pages` |
| Compositor | `scene`, `input`, `clipboard`, `render`, `presentation` |
| Control tool | `ctl` |

## What is believed

Contracts that rest on outside code stand on the functions marked
`external_body` in `json`, `text` and `clipboard`, each with a comment that
says what is claimed. Believed are also the specification of `String::push` in
`text` and the declaration of `serde_json::Value` in `json`, which claims
nothing of its own.

The files of profiles are read by the `toml` crate, in `app/`. What
`session_reading` and `session_lists` prove is said of a model of such a reader,
and of every reader that goes block by block.

The proof functions named `law_..` state what holds of the library as a whole.
