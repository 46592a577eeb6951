# tailscale_mcp

The decision-making core of a server that lets an agent drive the local
`tailscale` client and the Tailscale control-plane API, written in Verus and
verified.

- `src/` is the library. Each local module builds the argument lists for one
  toolset, checks what a caller sent and reads what the client printed; each
  tailnet module checks a request and builds its path, and, where the answer
  needs deciding (a followed listing, a validation), says what is answered.
  The contracts say exactly what is built, when a call is refused and with
  which words. `path_policy` confines the paths a tool may name to the
  configured roots; `json` reads the documents the client prints. `registry`, `tools` and `meta` hold the tool table and
  the tier and confirmation rules; `passthrough` judges an arbitrary
  subcommand; `version` reads and orders client versions; `text` and `common`
  hold the string and argument helpers the rest are proved against.
- `tests/` runs the library on concrete values.
- `app/` is a command-line front end that runs one local tool per call: it
  reads the arguments, asks the library what to run, runs the client, and
  hands the output back to the library to answer with. It serves no tailnet
  tool: it has no control-plane client to send their requests with.
