# lwext4_rust

A file handle over the lwext4 file system library.

- `src/` is the verified library: inode and directory-entry kinds
  (`inode_types`), decoding of raw on-disk inode fields (`inode`, through
  byteorder), open-mode and mode-type translation, seek clamping and directory
  listing (`file`), and the mapping of lwext4 return codes to results (`status`).
- `app/` declares the lwext4 C functions and makes the calls, handing each
  outcome to the library.
