# brain_api

A client library for the WorldQuant BRAIN simulation platform, with its
decisions proved in Verus.

`src/` is the verified library:

- `brain_api` — endpoint addresses, query parameters of the listings,
  alpha generation, and the client that holds the result callback.
- `parameter` — simulation settings and alpha configurations.
- `batch` — splitting alpha lists into multi-simulations and joining
  their results.
- `progress` — the two polling procedures (single and multi-simulation)
  as state machines: the caller performs each step and hands back what
  came of it.
- `session`, `middleware` — session expiry, the login answer, and the
  rate-limit waits of the request layers.
- `entity`, `database`, `config` — the record of a simulated alpha, its
  existence key, and the database address.
- `config_dict` — settings read from a Python configuration dictionary.
- `workflow` — picking the fields of a data set, alphas of matrix
  fields, and alphas not simulated yet.
- `text` — string comparison and decimal rendering.

Binary64 values (truncation, coverages) are carried as their IEEE-754 bit
patterns; instants are whole seconds since the Unix epoch with the
nanoseconds past them.

`app/` is the program around it: the HTTP client and its middleware, the
polling loops, the database table, configuration loading, the Python
module and the MCP server.
