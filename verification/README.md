# kogan

The logic of Kōgan, an anime Discord bot, written in Verus and verified.

`src/` is the library. Each module states what it computes over sequences of
characters and proves its code against that:

- `text`: decimal rendering, joining, ASCII lowercasing, string comparison.
- `components`, `animal`, `sounds`: the select menu and buttons the bot
  offers, and reading a pressed component back.
- `trending`: walking through the trending page with the previous and next
  buttons, and the message shown for each entry.
- `anilist`, `kitsu`, `graphql`, `json`, `anime`: the anime data the bot
  reads, and the text it shows for it.
- `openai`, `translate`, `recommend`: the chat requests the bot sends.
- `users`, `favorite`, `queries`: favorites and the documents the user
  store is queried with.
- `replies`, `embed`, `handler`: the notices and rich messages the commands
  answer with, and the bot's presence.

`app/` is the program around it: the Discord client, the web requests, the
database, and the conversions between their data and the library's.
`tests/` runs the library on concrete values.
