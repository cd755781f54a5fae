# semantiq

A semantic cache in front of an LLM. Queries are normalized, hashed and
embedded; a close match in the vector index is answered from the key-value
store, anything else goes to the model, and admission policies decide which
answers are written back.

- `src/` is the library, verified with Verus: query normalization
  (`embedding::preprocess`, over the JSON model in `embedding::json` and the
  text routines in `embedding::text`), query hashing (`digest`), cache keys
  (`cache`), the admission policies (`admission`), the request pipeline as a
  sequence of stages (`pipeline`), request authorization and health replies
  (`routes`) and configuration defaults (`config`).
- `app/` is the HTTP service around it: configuration from the environment,
  Redis, Postgres/pgvector, the embedding and LLM HTTP clients, and the axum
  routes. It performs the I/O that each pipeline stage asks for. Comparisons of
  floating-point distances and scores are made there.
- `tests/` exercises the library.
