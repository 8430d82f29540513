# tg_assistant

A Telegram assistant that answers with Google's Gemini model, keeping each thread's history
in SQLite.

- `src/` is the verified library: the prompts, the XML rendering of a conversation, the
  requests to the model and the reading of its answers, the choice of what a summary covers,
  and the order of work for each incoming message (store it, decide whether to answer, read the
  context, ask the model, send the answer or an apology).
- `app/` is the program around it: polling Telegram (teloxide), storage (sqlx), HTTP (reqwest)
  and JSON (serde). It performs each piece of work that the library's message handling asks
  for and reports the result back.
- `tests/` runs the library on concrete values.
