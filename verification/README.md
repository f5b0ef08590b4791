# mcp_inbound

The inbound side of an MCP proxy: building listeners from their descriptions, serving them, and
starting and stopping them as the set of listeners changes.

- `src/` is the library. Every decision of the inbound side is made here, and its contracts are
  proved with Verus.
  - `xds` and `peers`: listener descriptions, and the types of neighbouring modules.
  - `tls`: server configurations from PEM text, with `rustls`.
  - `listener`, `listener_laws`: building a listener, one question at a time.
  - `serving`, `decimal`: what is to be served for a listener, and how.
  - `running`, `manager`, `manager_laws`: which listeners run.
  - `config`: where the configuration comes from, and which services it starts.
- `tests/` runs the library.
- `app/` is the program around it: sockets, tasks, files and the command line. It needs the other
  modules of the proxy, which are in the crate `mcp_proxy`.
