# chromebook_audio

Tools that give Chromebooks working audio on immutable Linux distributions through
systemd-sysext overlays.

- `src/` is the verified library: the overlay names (`names`), the operations that build and
  install the overlays (`install`), the board-to-generation table (`board_generations`), the
  choice of setup and the steps the service takes on a board (`service`), the answers of the
  read-only file system that presents a file inside an overlay (`virtual_file`), and proofs
  that tie these together (`overlays`).
- `app/` is the program around it: `generate`, `setup`, `post-install` and `service`
  subcommands that perform the file-system work, the FUSE mounts and the waiting.
- `tests/` runs the library on concrete inputs.
