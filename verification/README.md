# pslinkb

A bridge from a PS5's Twitch broadcast to a Bilibili live room: the PS5
streams to a local RTMP ingest and chats over a local IRC service (its Twitch
names are pointed at this host through DNS); the bridge starts the Bilibili
broadcast, relays the stream there, and carries the room's danmaku back into
the PS5's chat.

The decision logic is a library verified with Verus:

- `system` — the state machine: event in, new state and effects out, with its
  laws (sessions end cleanly, one relay retry, stop-live pairs with the client
  that started, notices wait for the PS5's channel).
- `dispatch`, `run` — where each effect goes; the main loop's decisions and
  configuration reloads.
- `actors` — the RTMP stream record, the IRC service's answers and chat lines,
  cookie handling and start-live classification, relay bookkeeping, and the
  decisions of the on-demand workers (relay, danmaku, face-verification
  watcher, stream monitor).
- `dns` — redirect checks, the built-in DNS proxy's decision, dnsmasq
  configuration, IPv4 text.
- `config`, `cli`, `luci` — defaults, overrides, the OpenWrt UCI file, cookies,
  and the status files of the web interface.
- `common`, `text` — events, effects, errors, Twitch helpers, and the
  character-level parsers and formatters they share.

`app/` holds the program around it: argument and file handling, sockets,
processes, signals and the async plumbing. `tests/` runs the library on
concrete values.
