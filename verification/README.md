# kn_bot

A Telegram bot that writes observation cards ("карты наблюдения") with an AI
model, mails them to its users, and sends subscribers a fresh card every month.

`src/` is the bot's logic, verified with Verus:

- `text` — the bot's fixed texts, decimal notation, string joining;
- `command` — recognising commands in a lower-cased message;
- `bot` — the bot's memory (each user's address, or the mark that one is
  awaited, and their last card) and what it does about each message: the
  replies, and the work (model, mail, database) it asks the caller to do;
- `json` — JSON values as `serde_json` reads them, held as plain data;
- `completion` — reading the chat-completion service's answer;
- `mail` — the e-mails the bot sends;
- `subscription` — the newsletter subscription decisions and replies, and a
  model of the subscriptions table;
- `newsletter` — when the newsletter is due, and the round over subscribers;
- `clock` — points in time, through `chrono`;
- `laws` — properties that span several steps of the bot.

`app/` runs the bot: Telegram, HTTP, SMTP, SQLite and the clock's use at start-up.
