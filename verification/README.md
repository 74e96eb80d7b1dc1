# vimcord

The core of a chat client for the terminal, with vim's keys, verified with Verus.

`src/` is the library. `vim::handle_vim_keys` takes the client's state, a key and the
time, changes the state, and returns what is left to do outside: actions to queue,
messages to fetch, log lines to read. Its contract is `vim::press` for the state and
`vim::asks` for the rest, both in terms of the input line's characters; `laws` holds
what follows for the keys together. `session` covers the start of the program, what
loading brings, and what the main loop decides.

`app/` is the program around it: terminal, network and files. `tests/` runs the
library.

Three functions are trusted rather than proved: the two widths of `unicode-width`
(in `width`) and `str::to_lowercase` (in `search`).
