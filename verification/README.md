# cookie

A terminal chat client for language models. The crate is a verified library
(`src/`) with a thin program around it (`app/`).

## src/

The library holds the client's logic, each function with a contract proved by
Verus:

- `text`, `unicode`, `paragraph`, `layout`, `editor_viewport`, `editor`: the
  input editor, its wrapping (by character or by word) and the mapping between
  byte offsets and cursor positions.
- `styled_line`, `style`, `markdown`, `messages_viewport`, `messages`: the
  transcript, rendered from Markdown, with its cursor and visual selection.
- `scroll`, `area`, `focus`, `session`, `session_manager`, `setting_manager`,
  `model`, `view`: the application model, the session list sorted by recency,
  the model selection, focus cycling and the session view's geometry.
- `update`: the update function from key, mouse and service messages to model
  changes and commands.
- `chat`, `llm`, `config`, `protocol`, `openai`, `worker`, `provider`: chat
  events and sessions, settings, the requests and responses of the OpenAI
  responses API and the decisions of the chat service.

Public proof functions named `law_*` state properties that span several calls,
such as that Tab cycles the focus back, that typing and deleting a character
gives the text back, and that the session list is sorted by recency.

## app/

The terminal loop, drawing with ratatui, the SQLite stores, the HTTP client and
configuration loading.
