# acts

The data model and task lifecycle rules of a workflow engine, verified with
Verus.

- `src/` is the verified library: the stored records (`store`), the summaries
  handed to callers and the workflow model (`model`), task states and the
  default lifecycle hooks of a scheduled task (`sch`), errors and reports.
- `app/` reads workflow models from YAML (serde_yaml) and holds the
  serialisable forms of the library's records.
- `tests/` runs the library on concrete values.
