# kugou-tui

A terminal player for Kugou and Netease Cloud Music. `src/` is the player itself, as a library whose
behaviour is stated in contracts and proved with Verus: the play queue, the pages, the keys, the
requests to the music services and the reading of their answers, and every decision that an event
leads to. `app/` is the program around it: the command line, files, the network, the sound, the
desktop bus and the screen.

A decision never waits for the outside world. It leaves an order behind (`src/order.rs`); the program
carries it out and hands the outcome back as an event (`src/event.rs`). So every step of the player
is a function of its state and of one event, and that is what the contracts state.

- `text`, `json`, `client`: texts, documents, requests and their answers
- `model`, `catalog`, `lyric`, `cloud`, `netease`, `qqmusic`, `fetch`: songs and lists as the
  services describe them
- `source`, `config`, `session`, `settings`: the services, the settings and what is kept
- `queue`, `engine`, `levels`, `download`, `cache`: playing, the sound device, levels, bringing and
  keeping songs
- `input`, `tab`, `panes`, `state`: what is shown
- `keymap`, `navigate`, `loading`, `playing`, `queueing`, `account`, `login`, `services`, `adjust`,
  `menu`, `results`, `outcome`, `control`, `event`, `update`, `order`: what happens to the player
- `logger`, `mpris`: log lines and the desktop
