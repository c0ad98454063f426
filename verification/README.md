# govee

Control of Govee smart lights through the cloud API and over the local network,
verified with Verus.

The library in `src/` holds every decision: which requests and datagrams are
sent, what replies and packets mean, when a command is retried, which backend a
device is reached by, what a configuration may say. Each function states what it
does in `requires` and `ensures` clauses, over mathematical views of the data.

| module | what it is |
|---|---|
| `types` | device identifiers, devices, states, colors |
| `error` | the errors and their messages |
| `capability` | what a device can do, as the v2 API describes it |
| `config` | the configuration and its validation |
| `scene` | lighting presets, built in and of the user |
| `backend` | commands, and what is refused before anything is sent |
| `backend::cloud` | requests to the cloud API, fallbacks and retries |
| `backend::reply` | replies of the cloud API |
| `backend::state` | device states out of reports |
| `backend::local` | datagrams of the LAN protocol, discovery and queries |
| `backend::url` | URLs of the cloud API, HTTPS enforced |
| `registry` | devices of both backends, merged and routed |
| `json`, `decode`, `outline`, `names`, `net`, `text` | the data that all of this works on |

Properties of the library as a whole, such as that a refused command is never
sent or that the API key does not show in debug text, are public proof functions
beside the functions that they are about.

`app/` is a crate around the library: HTTP with `reqwest`, UDP and tasks with
`tokio`, configuration files, and logging. A cloud or local backend there asks
the library for the next step, performs it and hands back what came of it.

What the library takes from other crates without proof: reading and writing JSON
(`serde_json`) and TOML (`toml`), parsing and joining URLs (`url`, through
`reqwest`), random request identifiers (`uuid`), and a few functions of the
standard library. The functions that make these calls say in their comments what
is claimed of them.
