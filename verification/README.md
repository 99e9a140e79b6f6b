# astrobuild

The verified core of the Astro Build platform: an authentication service, a
content builder service (categories, features, templates, prototypes and
projects) and a GraphQL gateway in front of both.

- `src/` holds what the services decide, proved with Verus: how passwords are
  stored, how tokens are issued and checked, who may see or change which user,
  how records move between their stored form (binary identifiers) and their
  answered form (identifiers as text), how every store reply and every service
  status turns into an answer, what the gateway sends for each resolver, and
  how the specification form is written and read back.
- `tests/` runs the library on concrete values.
- `app/` is the program around it: the HTTP routes, the document store, the
  mail relay and the GraphQL schema. `app/main.rs` runs the service named by its
  first argument: `auth`, `builder` or `gateway` (the default).
