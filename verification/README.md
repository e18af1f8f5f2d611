# lyra

The verified core of a music bot that plays audio through a Lavalink server.

- `src/queue.rs`, `src/indexer.rs`: the queue of tracks, its repeat modes, and
  the orders it is played in (as stored, fairly across requesters, shuffled).
- `src/track.rs`: track and playlist metadata, with placeholder names replaced.
- `src/connection.rs`: the voice connections of all guilds, one request at a
  time.
- `src/now_playing.rs`, `src/player.rs`, `src/events.rs`: the now-playing
  message and what the bot does when tracks start, end or fail.
- `src/error/`, `src/answer.rs`: the failures of commands and buttons, how they
  are reduced to a kind, and how each kind is answered.
- `src/permissions.rs`, `src/byte_budget.rs`: the permissions an answer names,
  and whether an image fits a byte budget.
- `app/`: the process around the library: the connections task, rendering of
  answers, plugin information read from JSON, pitch, images and time.
