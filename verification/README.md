# bmctl

Control and monitor a server's BMC over Redfish: power, sensors, live
consumption, and an interactive terminal view.

The library under `src/` is written in Verus. Its functions carry contracts
that Verus proves, except the few marked `#[verifier::external_body]`: those
make one call into std, reqwest or serde_json, and their contracts are
trusted, as their doc comments say. The modules:

- `text`: trimming, padding, and decimal formatting and parsing.
- `models`: the Redfish resources the program reads, with readings in
  thousandths.
- `config`: settings, their defaults, and what `config set` and `config show`
  do with them.
- `client`: the HTTP client's settings, URLs, the JSON that responses carry,
  and the messages that failed responses give.
- `snapshot`: sensors, their severity and history, merging a poll, the log
  search, and the worker's jobs.
- `report`: every line the command-line commands print.
- `ui`: what each key does in the interactive view, and what each panel says.
- `laws`: properties that span several functions, stated and proved.

`app/` is the program around the library: argument parsing, the network,
the terminal, files, and the worker loop. Verus does not read it.
