# sociacli

A small social command line: friends, messages with buttons, game invites,
push-to-talk, presence with a Do Not Disturb filter, and Lua plugins, carried by
a daemon that runs in the background.

`src/` is a library in Verus. It holds everything that the program decides: what
each command does to the settings and prints, what the daemon does with every
message of the server and every command of its local socket, whom a message may
go to, which plugin a friend may run, how samples become frames. Each function
states what it returns or changes, and Verus proves it.

| Module        | What it holds                                                    |
|---------------|------------------------------------------------------------------|
| `text`        | strings as sequences of characters                               |
| `strmap`      | a map from strings, in the order of its keys                     |
| `json`        | JSON trees over `serde_json`                                     |
| `protocol`    | the frames to and from the signaling server                      |
| `friends`     | the friend list and the one-shot commands about it               |
| `config`      | the settings, plugin trust                                       |
| `address`     | the address of the signaling socket                              |
| `commands`    | what each command of the program does                            |
| `dispatch`    | the command line as a whole                                      |
| `daemon`      | the state of the daemon and what the server's messages do to it  |
| `ipc`         | the commands of the local socket, push-to-talk sessions          |
| `overlay_ipc` | the events that the overlay shows                                |
| `signaling`   | refusals, retries and frames of the connection to the server     |
| `peers`       | WebRTC negotiation, speech and beeps                             |
| `ptt`         | microphones, mixing, frames                                      |
| `plugin`      | installed plugins, trust, the sandbox, the store                 |
| `lua`, `sdk`  | values of scripts, and what a script can call                    |
| `service`     | starting at login                                                |
| `updater`     | releases                                                         |
| `repl`        | the prompt and the first run                                     |
| `api`         | accounts                                                         |

`app/` is the program around it: arguments, files, sockets, processes, WebRTC,
the sound card, and the Lua interpreter. It asks the library what to do and does
it. `app/launch.rs` and `app/window.rs` are two further programs, the launcher
and the overlay window. Sound takes the crates `cpal`, `rodio` and `audiopus`, the
window takes `tauri` and `tauri-plugin-opener`.

`tests/` runs the library on concrete values.
