# wb_orders

The logic of a small order service: it receives orders as JSON, stores them
in PostgreSQL, and returns a stored order by its uid.

- `src/` is the library, verified with Verus:
  - `model`: the order, its delivery, payment and items, with their views;
  - `sql`: statements and their parameters, and the text of every statement;
  - `orders`: which statement stores or loads which part of an order, the
    row of the orders table, and how a stored order is put back together;
  - `save`: storing an order, as a state machine over database actions;
  - `load`: loading an order, as a state machine over queries;
  - `error`: the errors and the HTTP answer to each;
  - `config`: the server settings, the cache capacity and the database URL;
  - `cache`: the cache of orders, an `lru::LruCache`.
- `app/` is the server: axum routes, the sqlx connection pool that runs the
  statements and drives the state machines, logging, and the environment.
- `tests/` runs the library on concrete orders.
