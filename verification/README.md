# pee5

A Discord moderation and utility bot. The library (`src/`) holds the bot's
decisions, each with a contract checked by Verus; the program (`app/`) connects
to Discord, the OpenAI API, YouTube, SQLite and the file system and hands the
library plain values.

- `config` — a guild's configuration (plugins, word list, log channel, tracked
  users, AFK statuses) and every change the bot makes to it.
- `plugins` — the message plugins: `!config` parsing and replies, word-list
  moderation (through `regex`), XP accounting, AFK notices, chat-channel
  commands and model context, message logging, the `!activity` command.
- `commands` — slash-command logic: image cooldown and records, video links
  (parsed through `url`, as `reqwest` exports it), timeouts and their Discord
  timestamps (through `serenity`), role checks, word-list and automod commands.
- `handler` — routing of messages, slash commands and buttons; storage paths.
- `text`, `number` — character-level splitting, joining, searching and
  replacing, decimal rendering and parsing, each against a spec over `Seq<char>`.
