# alani-network

Network stack boundary for loopback devices, packet buffers, sockets and
protocol adapters, written in Verus: every validation, queue, table and
registry operation carries a contract, and Verus proves the code against it.

Layout:

- `src/lib.rs`: errors, data classes and redaction, trace contexts, rights,
  the catalog, and label validation.
- `src/packet.rs`: addresses, packet flags, packet buffers and the
  fixed-capacity packet FIFO.
- `src/socket.rs`: socket handles and their lifecycle, request validation and
  the fixed-capacity socket table.
- `src/loopback.rs`: the loopback queue and device.
- `src/protocol.rs`: transport protocols, protocol adapters and the registry.
- `src/slots.rs`: the mathematical model shared by the fixed-capacity
  collections (occupied-slot counts, first-match search, ring buffers).
- `tests/`: scenario tests.

Flag, right and capability constants are plain integers. A flag set is built
from them directly, for example `PacketFlags(PACKET_FLAG_CONTROL)`, or by the
named constructors such as `PacketFlags::control()`, `NetworkRights::read()`
and `TraceContext::empty()`.
