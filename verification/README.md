# FH Language Combo Tool — verified core

Use one language for voice and another for text in Forza Horizon 5 / 6
(Steam, PC): the tool copies the text language pack over the voice language
pack's slot in `media/Stripped/StringTables/`, after a SHA-256-checked backup
that one command restores.

- `src/` — the library, verified with Verus:
  - `engine/language_mapper.rs` — language codes, display names, the apply plan;
  - `engine/steam_language.rs` — Steam language names, reading and rewriting the
    `"language"` entries of an app manifest;
  - `engine/resource_scanner.rs` — language packs of a StringTables directory, SHA-256 in hex;
  - `engine/backup_manager.rs` — backup records, their listing, the making of a backup;
  - `engine/apply_engine.rs`, `engine/restore_engine.rs` — the decisions of apply
    and restore, step by step, with their laws;
  - `engine/game_detector.rs` — the games, directory rules, Steam's key-value files;
  - `engine/logger.rs` — log lines; `commands/` — the decisions of the commands:
    status, the game-running check, the apply's profile and Steam language, re-apply;
  - `text.rs`, `order.rs` — text handling and sorting that the rest relies on.
- `app/` — the program: file system, clock, processes, JSON, command line.
- `tests/` — tests of the library.
