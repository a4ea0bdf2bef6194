# gdut-net

A third-party client for the GDUT campus wired network: a Windows service
that keeps the PPPoE session dialed, redials after drops, optionally keeps
the Dr.COM compatibility heartbeat, and takes over the campus WLAN while
the cable is out.

The decision logic is written in Verus and proved against its contracts.
The shell around it is ordinary Rust; this crate holds its portable part
(command line, files, the packer, the heartbeat socket), not the Windows
back ends (service control, RAS, WLAN, tray).

## Layout

- `src/` — the verified library.
  - `supervisor` — the service core: events in, effects and snapshots out.
  - `watchdog`, `backoff`, `probe` — dialing, redial backoff (the service's
    settings: 1 s up to 5 min, 10 min after error 691), drop detection.
  - `wireless`, `egress` — WLAN takeover decisions and the route ledger.
  - `heartbeat`, `keepalive` — Dr.COM packets, the keep-alive round, and the
    supervision of the heartbeat task (errors reported, retry after a minute).
  - `http`, `portal` — request texts, response parsing, eportal login.
  - `protocol`, `status`, `tray`, `cli` — IPC frames, status texts, tray
    and command-line decisions.
  - `config`, `crypto`, `payload` — configuration rules, the password blob,
    the installer payload container.
  - `setup_args`, `setup_flow`, `service`, `shell`, `shell_shortcuts` —
    installer and service administration decisions.
  - `adapter`, `ras`, `win32`, `cmdline`, `eventlog`, `logging`, `text` —
    adapter selection, RAS helpers and shared text utilities.
- `tests/` — tests of the library on concrete values.
- `app/` — the command-line program: argument parsing, configuration files,
  the payload packer, the heartbeat session on its UDP socket and its
  supervision, and the guard that releases the wireless egress when dropped.
  The Windows service, RAS, WLAN and tray back ends are not part of this
  crate; their subcommands are refused.

## Outside work

The traits through which the library drives the system (`EgressOps`,
`Dialer`, `Prober`, `InstallWork`, `UninstallWork`, `InstallReporter`,
`WlanControl`, `PppDns`) each carry a spec-level record of the calls made
on them, with what each call returned. Their methods state how a call
extends that record, and the contracts of the functions that drive them
(the route ledger, the watchdog step, the install and uninstall
transactions, the WLAN association, the DNS detach) state the exact calls
made, in order. An implementation that keeps no such record meets none of
those method contracts.

## Checking

The library verifies with Verus; the tests run with the outside crates
(`md-5`, `md4`, `sha1`, `sha2`, `base64`, `serde_json`) linked.
