# ebc_hub

Battery inventory and control of ZKETECH EBC battery testers, with the
protocol, the device decisions and the input checks verified by Verus.

## Layout

- `src/` — the verified library
  - `ebc/` — the serial protocol of the EBC-A20: base-240 value codec and
    XOR checksum (`codec`), outbound command frames (`command`, `frame`),
    device limits (`device_capabilities`), inbound report decoding and the
    splitting of a byte stream into frames (`frame`)
  - `ebc_manager` — the state of the multi-device manager and the decision
    taken for each request; `ebc_runner` — the same for a single device
  - `cli` — reading a command line into a command
  - `web` — form checks, the records built from forms and the error pages
  - `text` — decimal formatting, trimming, integer parsing and word
    splitting, each against its own specification
  - `db_access`, `config`, `test_runner` — the plain data types
- `tests/` — tests of the library on concrete values
- `app/` — the programs: serial I/O, the manager and runner tasks, SQLite
  storage, the web server and the interactive CLI (`app/main.rs cli`)
