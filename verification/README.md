# rust_erase

A disk erasure utility for Linux: it lists the disks (`lsblk`, `hdparm`),
lets the user pick one, asks for confirmation, then overwrites hard disks
by DoD 5220.22-M (three passes of random data, one of zeros, each writing
exactly the size of the device) and gives
SSDs a secure erase (ATA enhanced secure erase with a fallback to the
standard one for SATA drives, NVMe format with secure erase for NVMe
drives; other SSDs are refused with an error), writing each step to `erasure_log.txt`.

Layout:

- `src/` — the library, verified with Verus: text handling with the
  semantics of `str::trim`, `lines`, `split_whitespace`, `split` and
  `parse` (`text`, `number`), the readers of the `lsblk` and `hdparm`
  output (`disks`), the prompts' answers (`answer`), the overwrite and
  secure erase as state machines that ask for commands and take their
  outcomes (`hdd`, `ssd`, `dd`), the erasure summary and log entries
  (`erase`, `log`), and a key-driven disk menu (`picker`).
- `app/` — the program: terminal input and output, running the commands,
  the progress bars, parallel erasure, and the log file.
- `tests/` — tests of the library.
