# varro

A proposal service for rollup stacks: it watches a rollup node and proposes
L2 output roots to the output oracle contract on L1.

- `src/` is the verified library. `proposals` decides, answer by answer,
  whether a proposal task proposes an output; `client` holds the client's
  parts and the output roots already handed to the transaction pool;
  `builder` assembles the client; `config` and `cli` make the configuration
  from command line options and the environment; `hex` parses addresses and
  keys; `keys` gives the address a private key controls; `oracle` makes and
  decodes the output oracle's `nextBlockNumber()` call; `time` holds spans of
  time; `common` holds the L1 client, rollup node client and output oracle
  contract types; `rollup` the data a rollup node reports.
- `app/` is the program around it: command line parsing, the configuration
  file, the RPC calls to the rollup node and the output oracle, the
  transaction pool and the tasks that run everything.
- `tests/` runs the library on concrete values.
