# anilist_bot

A Discord bot that looks anime, manga, characters, staff, studios and users
up on AniList.

- `src/` is the verified library: the text of every answer (cards, footers,
  title lists, shortened and tidied descriptions) and the life cycle of a
  reply that its reader may delete with a reaction. Run Verus on `src/lib.rs`.
- `app/` is the program around it: the Discord framework, the GraphQL
  requests, the HTML to Markdown conversion (with a handler that drops
  spoilers) and the one-decimal formatting of watched days.
- `tests/` runs the library on concrete values.
