# bmputil

A companion library and command line tool for debuggers running the Black Magic Debug
firmware: finding probes on the USB bus, reading their identity and firmware version, choosing
and flashing firmware releases, and talking to probes over their remote protocol.

The library in `src/` is written in Verus and verified: its functions carry `requires` /
`ensures` contracts over mathematical models, and the properties that span several functions
are stated and proved as `law_*` proof functions. It covers

- firmware version numbers: reading, writing and ordering them (`version*`);
- probe identities from USB product strings (`probe_identity`, `switcher`);
- firmware files in Intel HEX, ELF and raw form, and the firmware type of an image
  (`firmware_file`, `firmware_type`, `elf`);
- USB descriptors, DFU requests and the choice of probes among USB devices (`usb`, `bmp`,
  `bmp_matcher`), and waiting for a probe to come back after a reboot (`reboot_wait`);
- release metadata, its cache tag, the latest release and the update decision (`metadata`,
  `update`), and the choice of a firmware variant (`firmware_selector`);
- the BMD remote protocol's framing, requests and replies (`serial`);
- the documentation viewer's scrolling (`docs_viewer`) and the Windows driver set-up decisions
  (`windows_access`).

Calls into `goblin`, `sha2`, `url` and a few parts of `std` go through small trusted wrappers.
Their contracts state only what those crates document, and their `requires` leave out the inputs
on which the documentation says a call panics. Results that take pages to state are given
names rather than written out. The results of the `std::path` functions depend on the target's
path separators, so each is fixed per target.

`app/` holds the `bmputil-cli` program: command line parsing, USB and serial I/O, network
downloads and the terminal user interface, driving the library. `tests/` exercises the library
on concrete values.
