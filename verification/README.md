# coreml-playground

A playground for running Core ML models from a chat-style web page: pick a
model, send it text or images, read an interpreted reply, compare two models
side by side, and keep sessions with their history.

The project is split in two.

- `src/` is the library, verified with Verus. It holds the rules of the
  application as functions with `requires`/`ensures` contracts over
  mathematical models (`Seq`, `Map`, views of each type):
  - `types`: models, ports, messages, sessions and inference requests;
  - `json`: the JSON values that model outputs are read from;
  - `text`: string specifications and the standard-library string calls;
  - `bridge`: parsing the metadata and errors of the native model bridge;
  - `app`: the main screen's shortcuts, theme, onboarding and divider;
  - `components`: the decisions behind each screen (command palette,
    comparison, export, input bar, model switcher, version grouping, output
    diff, session sidebar, settings, toasts, visualization);
  - `server`: output interpretation and reply text, inference routing and
    mock outputs, rate limiting and API keys, the model catalog, and the
    rules of session storage.
  Properties that span several calls are stated as public proof functions
  (`law_*`, `lemma_*`) next to the functions they speak of.
- `app/` is the program around it: the axum HTTP and WebSocket server, the
  SQLite session store, the model-directory watcher, and the parts of a reply
  that compute with floating-point numbers (percentages, scores, file sizes).

`tests/` runs the library on concrete values.
