# corgi

Tools for a small local cluster of word servers, with the logic verified
by Verus.

- `src/` is the verified library:
  - `path`: Unix paths held as their bytes; component-wise tests for a leading
    `~` and for the path `~` itself, stripping the `~` component, appending
    paths.
  - `dir_utils`: `~` expansion against the user's home directory.
  - `config`: where the node pool file and the word list live.
  - `bootstrap`, `control_plane`: the node types and the pool of a local
    cluster (consecutive ports, ids from 1).
  - `balancer`: a sticky-session load balancer over a `StringHashMap` of
    sessions, with its laws (a caller
    keeps its backend; routes stay in the pool; other callers are left
    alone).
  - `decimal`, `server`: decimal formatting and the word line format.
- `app/` holds the programs: word servers and client, cluster starters,
  the proxy, and two UDP tools. It does the I/O and calls the library.
- `tests/` runs the library on concrete values, and checks the path
  operations against `std::path`.
