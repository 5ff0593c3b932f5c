# storefront

A small storefront API over SurrealDB, split in two:

- `src/` is the verified library. For every endpoint it builds the
  SurrealQL statement and the variables it runs with (`query`,
  `orderroutes`, `productroutes`, `userroutes`, `otherroutes`), together with
  what goes into them: fresh version-4 identifiers (`ids`), UTC timestamps
  (`clock`), Argon2id password hashes (`password`) and the parsed fixed
  scripts (`surql`). `placeholders` defines which `$variables` a statement
  mentions; every builder is proved to bind exactly those, each once.
  `schema` proves that the variables of each table's writer are exactly
  the fields the schema script declares on that table.
- `app/` is the HTTP server: actix-web routes that deserialize request
  bodies, ask the library for the statement, run it on the datastore and
  answer with the outcome as JSON.
