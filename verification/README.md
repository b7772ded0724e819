# Client desk

The tools of a voice agent for realtors: the model adds clients, finds them by name or by what
they are looking for, briefs the realtor on one of them, changes them and lists the active ones.

- `src/` is the library, verified with Verus. It decides what a call of a tool does: which
  arguments it accepts, which statements it runs, and what it answers.
- `tests/` runs the library on concrete values, with the real crates behind it.
- `app/` is the server around it: WebSocket connections, the voice pipeline and the database.

The library runs no statement itself. A call gives a `Step`, the server runs the statement of the
step and hands the reply back, and that gives the next step.

The database is PostgreSQL, with a table `clients`. The search by name needs two extensions:

```sql
CREATE EXTENSION IF NOT EXISTS pg_trgm;
CREATE EXTENSION IF NOT EXISTS fuzzystrmatch;
```

The server reads `DATABASE_URL`, `SARVAM_API_KEY`, `OPENAI_API_KEY`, `DEEPGRAM_API_KEY` and `PORT`
(8080 where it is not set) from the environment.

`ort` stands in `Cargo.toml` because the voice pipeline brings it: its feature
`alternative-backend` keeps the ONNX Runtime from being linked, which the voice activity detection
used here does not need.
