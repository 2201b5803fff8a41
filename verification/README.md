# vdr

*Voyage Data Recorder*: a Linux core dump handler whose logic is verified with
[Verus](https://github.com/verus-lang/verus).

- `src/` is the library. It decides: how a dump is stored and what happens when a step fails, what
  a build ID is, what the log gets to see, whose connection is served, when the daemon may start,
  and how its accept loop runs. It touches no file, socket or thread. Each function has a contract,
  and the properties that span functions are the public proof functions named `law_*`. Those in
  `disk.rs` say what is on the disk once the actions that the library asks for were carried out.
- `app/` holds the two programs, `vdr` for the kernel's pipe and `vdrd` for its coredump socket.
  They perform the actions that the library asks for and report how they went.
- `tests/` runs the library on concrete values.

The library trusts a few functions of outside crates: the ELF reader of `elf`, constants of
`libc`, and two functions of std on strings. Each stands behind a declaration that says what is
relied on.
