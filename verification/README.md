# socketcan

CAN bus support for Linux SocketCAN, as a verified library.

- `src/` is the library, verified with Verus: CAN identifiers (`id`), the
  classic, remote, error and FD frame types (`frame`), the decoding and
  encoding of error frames into their causes (`errors`), the candump log
  format (`dump`), the netlink CAN parameters of an interface (`nl`), the
  receive filters and read rules of raw sockets (`socket`), receive
  timestamps (`timestamp`), the kinds of I/O error and their names (`io`),
  the older single-cause error decoder (`err`), and the text helpers they
  share (`text`).
- `app/` holds what talks to the system: raw sockets, netlink messaging,
  reading logs from files, the tokio wrappers, the `embedded_can`
  adapters, and the serde forms of the library's types (`repr`).
- `tests/` exercises the library on concrete values.
