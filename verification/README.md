# spark_regexp

Regular expression extraction over Arrow string columns, verified with Verus.

- `regexp_match` lists, for each row of a string column, the groups that the row's pattern matched.
  It is modelled after the Postgres function of that name.
- `spark_regexp_extract` picks one group by its index, as Spark's `regexp_extract` does.
- `regexp_match_array` and `spark_regexp_extract_array` write the same lists as Arrow arrays.

| Path | What it holds |
|------|---------------|
| `src/column.rs` | columns: Arrow arrays, and how they are read |
| `src/engine.rs` | the `regex` crate, and what is taken for granted of it |
| `src/pattern.rs` | flags, compiled patterns and the pattern cache |
| `src/groups.rs` | which groups of a match make up a row's list |
| `src/matching.rs` | matching rows of text against patterns |
| `src/list.rs` | columns of lists, and how they become Arrow arrays |
| `src/regexp_match.rs` | the kernels |
| `src/regexp_extract.rs` | the Spark function: signature, return type, evaluation |
| `src/laws.rs` | what holds of the kernels as a whole |
| `app/` | the kernels on `dyn Array`, and the function as DataFusion registers it |
