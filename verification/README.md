# Cantrip

Push-to-talk dictation for the Linux desktop. A daemon records a take, transcribes it,
optionally cleans the text up, and delivers it to the window that was focused when the
take stopped. A small display shows what is going on, a window lists what was saved, and
a gallery replays every state of the display.

`src/` is the library: everything that Cantrip decides, written in Verus with its
contracts proved.

| Module    | What it decides                                                               |
|-----------|-------------------------------------------------------------------------------|
| `capture` | the recorder's arguments, the live level meter, how a recorder is stopped     |
| `config`  | the configuration, its defaults and its rules                                 |
| `daemon`  | one operation at a time: commands, stages, results, delivery and clients      |
| `desktop` | permits to deliver: which observations grant, keep or revoke them             |
| `archive` | the saved record of a take, and how a later attempt is merged into it         |
| `actions` | the window of saved takes: what it shows, offers and asks to confirm          |
| `hud`     | the display: what it shows, for how long, how its words are wrapped and placed |
| `gallery` | scripted journeys through the display's states, and their replay              |
| `json`, `text`, `ipc` | documents, text and the messages between daemon and clients       |

Laws that span several functions stand in the `laws` modules and beside the functions that
they are about. Instants are nanoseconds of a monotonic clock; whatever depends on the
clock, the disk or the desktop is an argument.

`app/` is the ordinary Rust around the library: sockets, files, processes, threads, windows
and drawing. What it needs from speech recognition and text injection is its `Engine`
trait. `tests/` runs the library on concrete values.
