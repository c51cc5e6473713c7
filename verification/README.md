# spot_execution

The decisions of a Binance Spot execution client, verified with Verus: which trading commands may
reach the venue, how their requests are built and authorized, and which order events follow from
what the venue reports.

- `src/` is the library. What it does is stated in contracts that Verus proves. The only outside
  code that the proofs rely on is `rust_decimal`, behind the two wrappers in `src/decimal.rs`.
- `tests/` runs the library on concrete values.
- `app/` is ordinary Rust around it: tasks, timers, the trait of the write gate, and copies of the
  library's types that are written with serde.

Reading order:

1. `execution_write` is the policy of the final write boundary, `write_task` the order in which a
   permit is acquired, armed, used and released, and `commands` what is prepared for a command.
2. `orders`, `order_list` and `request_fields` build the venue's requests.
3. `reports`, `dispatch` and `dispatch_state` turn what the venue sends into order events;
   `dispatch_laws` states what holds of all of them.
4. `private_stream`, `connect` and `client` hold the client together; `truth` and `queries` answer
   questions about its orders.

Proof functions whose names begin with `law_` state what the library promises across functions.
