# rag_admin

The view-model logic of a retrieval-augmented-generation administration
console, verified with Verus: the parsing of the evaluation laboratory's
parameter lists, the registry forms and the commands they send, the chunking
override panel, the embedding-model card, the job log stream, the activity
counter of the navigation bar, and the labels and statuses the pages derive
from server data.

- `src/` — the verified library. Each public function states its result in
  `ensures`; laws that relate several functions are public proof functions
  named `law_*`.
- `tests/` — tests of the library on concrete values.
- `app/` — what the library cannot hold: the browser's event-stream plumbing,
  the JSON form of log events, UUID conversions and floating-point score
  display.
