# chatte_vpn

The verified core of the Chatte VPN client (a WireGuard / sing-box desktop
client fed by a subscription backend).

- `src/` — the library, verified with Verus:
  - `state` — client state, server selection, status shown to the UI, and
    the laws that relate them;
  - `subscription` — which subscription URLs may be fetched, and what each
    HTTP status of the backend's reply comes to;
  - `vpn` — WireGuard config check, tool lookup, outcome of tool runs;
  - `singbox` — sing-box config check and the forced TUN inbound;
  - `json` — JSON documents as plain values;
  - `store` — the subscription URL in the platform credential store;
  - `text`, `sys` — character helpers and standard-library calls.
- `app/` — the I/O around it: HTTP, processes, files, and the serde copies of
  the library's types.
- `tests/` — tests of the library.
