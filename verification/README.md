# KraftOS platform layer, verified

The file-system, argument, standard-I/O and heap pieces of the standard
library's KraftOS (K16) port. Every decision they take is in `src/`, verified
by Verus; the system calls, the kernel's bounce buffers, the process-wide
statics and the standard traits are in `app/`, which hands the library plain
values and acts on what it returns.

- `src/bytes.rs`: little-endian words in byte buffers.
- `src/error.rs`: the error type, kernel status words, lengths for calls.
- `src/attr.rs`: file attributes (kind and size packed in one word), the
  stat reply.
- `src/file.rs`: open options and the open mode word, reads through the
  bounce buffer, writes, the operations KraftOS lacks.
- `src/dir.rs`: the directory-listing request and the listing format.
- `src/read_dir.rs`: child paths, directory entries, the listing read one
  name at a time between lookups, and the walk.
- `src/fs.rs`: path operations KraftOS lacks.
- `src/stdio.rs`: standard input and output.
- `src/args.rs`: the argument table a program starts with.
- `src/heap.rs`: the bump allocator's decision, which aligns the address
  of each block, not only its offset in the heap.
