# ace

A client for the WorldQuant Brain REST API whose request and response rules
are verified with Verus.

- `src/` is the verified library: endpoint paths, methods and error names,
  query parameters, the status check, the throttling retry policy, reading a
  simulation id from a `Location` header, each decision of the simulation
  poll, the run and the user-activity request, and the paging of data-field
  listings, with laws over whole traces of retries, polls and pages. `src/wqb_api` holds the rules of the first, simpler
  client.
- `app/` is the program around it: the HTTP calls (reqwest), the async loops
  that perform what the library decides, the credentials file, and the
  serialisable copies of the library's types.
- `tests/` runs the library on concrete values and against the outside crates
  whose behaviour it restates.
