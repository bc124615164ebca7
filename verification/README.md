# claude_mem_worker

A memory worker: an HTTP service over a SQLite memory database that queues tool uses and
session summaries for an observer agent, stores what the agent reports, searches the
stored memories (full text, and optionally a Qdrant vector store), and builds knowledge
corpora that an agent session can be primed with and questioned.

## Layout

- `src/` — the verified library (Verus): request validation and defaults, search options
  and the SQL text and arguments of each search query, result formatting, the parsing of
  agent replies, model tiering and provider choice, queue-loop steps, corpus naming,
  assembly, statistics and rendering, and the knowledge agent's prime/query/reprime steps.
  Calls into `time`, `serde_json` and `std::path` stand behind small trusted wrappers whose
  contracts are documented where they are declared.
- `tests/` — tests of the library on concrete values.
- `app/` — the executable around the library: the HTTP router and handlers, SQLite access,
  the file store of corpora, the Qdrant HTTP client, provider processes and HTTP calls,
  the queue loop's waiting, and the float embedding.
