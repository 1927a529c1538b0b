# sqldb_mysql

The logic of a MySQL capability provider, verified with Verus, and the provider around it.

- `src/` is the verified library.
  - `value`, `convert`, `rows`, `set`, `year`, `bits`: the values that components and the MySQL
    driver exchange, and the conversions between them.
  - `validate`, `params`, `error`: what is refused before it reaches a server, and in which words.
  - `config`, `warnings`: the settings of a link, what is wrong with them, the connection they ask
    for, and the key of a shared connection.
  - `provider`, `request`: the provider's state, how links and shutdown change it, and what each
    request is answered.
  - `laws`, `lifecycle`: what holds across the conversions, and over the lives of links and
    statements.
  - `text`, `string_map`: characters, numbers and maps keyed by strings.
- `app/` is the provider program: sockets, locks and the wasmCloud runtime.
- `tests/` runs the library with the outside crates it calls.

The library rests on the contracts of a few functions that it calls but does not prove: parts of
std's `String`, `serde_json::from_str`, SHA-256, ULIDs and the options of `mysql_async`. Each is
stated where it is used.
