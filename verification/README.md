# tunix

A library for creating and driving TUN/TAP network devices.

- `src/` is the verified library: the device configuration builder and its
  address parsing, the packet framing codec (packet information headers), and
  the decisions around the system calls that create and configure a device
  (interface name buffers, `TUNSETIFF` flags, the order of configuration
  requests, interface and descriptor flags, `utun` unit numbers, Wintun
  buffer sizes). Contracts and the library's laws are proved by Verus.
- `app/` holds what talks to the kernel: descriptors, `ioctl` requests, the
  blocking and tokio-driven Linux devices, and the `tokio-util` framing.
- `tests/` exercises the library on concrete values.
