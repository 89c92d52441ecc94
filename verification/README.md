# oxide_motive

The decision logic of the Oxide engine-management stack, with its behaviour
stated in contracts and proved with Verus.

- `src/` is the verified library: crank-trigger decoding, angular event
  scheduling, the relay autotuner's switching logic, MQTT packet encoding
  and the QoS 2 handshake, a UDS diagnostic server, calibration-bank
  validation, memory layouts of the supported microcontrollers, the
  hardware abstraction traits with their mock peripherals, and the host
  tools' device selection, IPC framing, log playback, table editing and
  firmware signature checks. `src/bounded.rs` declares the `heapless`
  containers the firmware keeps its queues in, with the contracts the rest
  of the library relies on.
- `tests/` exercises the library on concrete values.
- `app/` is the runtime around it: async I/O, files and sockets,
  serialization, and the floating-point controllers and estimators.
