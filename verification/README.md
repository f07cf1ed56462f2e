# xfercat

A terminal file-transfer tool built around one idea: *plan first, transfer once*. A
connection is the choice of one complete profile; files are staged into a Waybill whose
items freeze their exact endpoints, direction, conflict policy and the destination state
they expect; the plan is reviewed and only then executed, item by item.

## Layout

- `src/` — the verified library. Every function carries a contract that Verus proves, except
  the small trusted wrappers (marked `#[verifier::external_body]`) that make one call into
  std or `openssh`; their contracts state what that call does and are believed, not proved.
  - `text`, `fspath` — character-level text operations, and the few results of std's
    `Path` that the library names rather than describes.
  - `domain`, `transport` — profiles, endpoints, plan items and their state machine; the
    frozen request a transfer runs and its typed outcome.
  - `app` — the interaction state: one module per screen, with `update` applying one
    action, `app::laws` stating what holds across actions, `app::interactive` deciding
    which outside work an action asks for, and `app::snapshot` the `--snapshot` scenarios.
  - `executor` — synthetic and live execution of a plan, keeping item-level results.
  - `transfer` — one file transfer as a machine that names the next filesystem step and
    decides from its result: staging checks, temporaries, atomic finalization.
  - `openssh` — the OpenSSH configuration lexer, `Include` expansion and alias discovery.
  - `sftp`, `localfs` — session plans, failure categories and browser listings.
  - `order`, `view` — listing order, and the texts the screens show.
- `tests/` — tests of the library, run against the real outside crates.
- `app/` — the program: terminal loop, rendering, and the filesystem, SSH and SFTP work
  that the library's functions decide about.
