# cu

The verified core of an ao Compute Unit, written in Verus.

`src/` holds the logic, verified by Verus. Each function's contract states its
result; where a function calls an outside crate whose answer depends on chance
or timing (random ids, the cache's walk), the contract states what holds of
every answer:

- `model/` – the records the unit evaluates and stores, the parsing and
  validation of the domain and server settings (`domain_config_schema`,
  `server_config_schema`, `positive_int_schema`, `truthy_schema`), and the
  gateway's block listing shape.
- `client/` – evaluation and message ids and the SQL statements, with their
  parameters, that store and find evaluations, messages, processes, modules
  and blocks; the paging through a gateway's block listing; the decisions of
  the process memory cache and the choice of the checkpoint to evaluate from.
- `schema_utils` – defaults of the gateway URLs, where the wallet comes
  from, and the order of evaluations.
- `text`, `strings`, `errors` – decimal text, integer parsing, trimming and
  comparison of strings; optional strings; error values.
- `third_party` – the calls into `regex` and `validator`, with the
  contracts the library relies on.
- `client/arweave` – the random anchor of a data item.

`app/` is the input and output around it: the SQLite stores (sqlx), the
gateway client (reqwest), the process memory cache (moka), the start
settings and the command-line commands (clap).

`tests/` runs the library on concrete values.
