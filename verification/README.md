# enki

A local coding assistant for the terminal that talks to an Ollama server.
The crate's library (`src/`) holds the assistant's logic with its
specifications and proofs, checked by Verus; the program around it (`app/`)
does the terminal, network, file and process work.

- `src/agent`: token budgeting and history truncation, the conversation,
  the system prompt, and the steps of the agent loop.
- `src/llm`: the model server's messages, capability detection, and the
  framing of streamed answers.
- `src/tools`: what each tool asks for and answers, path resolution, the
  command deny list, diffs and searches.
- `src/tui` and `src/app.rs`: the input line editor, chat lines, layout, and
  how keys and agent events change the application.
- `src/config`: layered settings.
- `src/daemon`: the background service's messages and files, its sessions,
  and its answer to each line a client sends.
- `src/text.rs`, `src/json.rs`: text and JSON values with their models.
