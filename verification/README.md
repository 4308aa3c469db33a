# woz_dispatch

A tool-call dispatch server that puts a human "wizard" between a model server
and its tools. The model server posts a tool call and waits; the wizard sees it
on a web page and answers it as the tool, forwards context to the model, lets
the model answer, or ends the tool loop.

- `src/` is the verified library (Verus): the dispatch state and its
  operations (`state`), how an answer is read (`tool`), marker search and
  removal in text (`text`), the keyed table behind the state (`table`), fresh
  call ids (`call_id`), the wizard connection's reactions (`session`), and the
  properties proved across operations (`laws`).
- `app/` is the HTTP and WebSocket front (axum, tokio): it decodes requests,
  awaits the wizard with a timeout, and encodes replies and broadcasts.

A dispatch replies with the tool content, with the bare text `__DELEGATE__`
when the wizard hands the call back to the agent, or, when no answer comes in
time, with `{"status":"pending","call_id":…}`; the call then stays pending and
its answer is collected with `GET /poll/{call_id}`.
