# smmo_bot

The message-building core of a Discord bot for SimpleMMO, verified with Verus.

- `src/` is the library: the text of every embed the bot sends (world bosses,
  players, the orphanage, items, search results, errors), the chrono-style
  time arithmetic behind it, the choice of the next world boss, the API's 0/1
  flag encoding and the integer layout of the item pie chart. Functions that
  do not read the clock state their result exactly, or exactly over a named
  chrono result. Functions that read the clock state the result at some valid
  reading, and when they are owed success; a sibling function taking the
  reading as an argument states the result exactly.
- `app/` is the program around it: the serenity commands and hooks, database
  and API access, serde helpers, logging, and drawing the pie chart (floating
  point and SVG rendering).
- `tests/` runs the library on concrete values.
