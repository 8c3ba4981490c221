# rustclipsync

Clipboard and file synchronisation between trusted devices, with the rules of the client and of the
HTTP relay proved in Verus.

- `src/` is the library. It decides what is sent and how, what is applied and how, under which name
  a received file is saved, what a clipboard snapshot hands out, and how the relay queues and
  answers. It holds no sockets, clipboards, clocks or disks: a caller hands in what they answered
  and performs what comes back.
  - `sync`: payload routing, sending, receiving and applying, and the guard against echoes
  - `cloudflare`: addresses, the conversation on a web socket, uploads and downloads
  - `clipboard`: what is new on the X11, Windows and generic clipboards, and what is written there
  - `file_transfer`: plain and free file names, and the cleanup of received files
  - `server`: the bounded message queue and the answers of the HTTP relay
  - `config`, `network`, `protocol`, `security`: configuration, addresses, messages and hashes
  - `codec`: everything that rests on other crates for base64, percent-encoding, JSON, PNG and ids
  - `text`: character level work on strings
- `tests/` runs the library.
- `app/` is the program around it.

Payloads of up to 10 MB travel in a message of their own, larger ones of up to 100 MB as stored
objects that a message announces, and nothing larger is sent. Received files go into `receive/`,
never replace a file, and are removed after 24 hours. A client that cannot reach the relay waits
twice as long after every attempt, from two seconds up to a minute.
