# opencli-rs

A command-line tool that turns websites into commands: adapters describe how a site is read, a
browser does the reading, and a server and a language model help to find or write adapters.

`src/` is the library, verified with Verus. It holds the decisions and does no I/O: where something
has to be done outside, it hands out an action and goes on with the event that came of it.

- `steps`, `registry`, `step_laws`: the browser steps of a pipeline.
- `bridge`: how the daemon is found or started, and how the browser's extension is waited for.
- `llm`, `thinking`: the request for an adapter, and what is made of the model's reply.
- `adapters`, `server`, `flow`: searching, fetching, generating and uploading adapters.
- `auth`: getting a token.
- `cli`, `clap_layout`, `route`: the command line and what it asks for.
- `report`, `language`, `error`: what is said to the user.
- `json`, `http`, `page`, `base64_text`, `text`: the values that the rest speaks of.

`app/` is the program around it: it talks to the browser, the servers, the file system and the
user. `tests/` runs the library on concrete values.
