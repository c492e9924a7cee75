# thingy53-hci-usb

Firmware that presents the Bluetooth LE controller of a Thingy:53 (nRF5340) as a
USB HCI adapter. The application core speaks USB to the host, the network core
runs the radio controller, and two ring buffers in shared memory carry HCI
packets between them.

The logic is a library verified with Verus. What touches hardware is a thin layer
of ordinary Rust around it.

## Layout

| Place               | What it holds                                              |
|---------------------|------------------------------------------------------------|
| `src/layout.rs`     | Addresses of the shared memory                             |
| `src/ring.rs`       | One ring buffer: framing, write, read                      |
| `src/queue.rs`      | The ring buffer as a first-in first-out queue              |
| `src/ipc.rs`        | The two directions between the cores                       |
| `src/hci.rs`        | Packet lengths, Command Complete and Command Status events |
| `src/command.rs`    | HCI commands, their opcodes, and what answers them         |
| `src/usb_hci.rs`    | Control requests, endpoint transfers, endpoint addresses   |
| `src/led.rs`        | Indicator colours and their duty cycles                    |
| `src/app_core.rs`   | Decisions of the application core's tasks                  |
| `src/net_core.rs`   | Decisions of the network core's loops                      |
| `src/bridge.rs`     | What holds from end to end                                 |
| `app/`              | Peripherals, atomics, async tasks, calls of the controller |
| `tests/`            | Tests of the library                                       |

## The two binaries

`app/main.rs` is the root of both cores' binaries. The application core is the
default; `--cfg net_core` selects the network core. They need features of
`embassy-nrf` that exclude each other, so one build makes one of them. The
manifest here selects the application core and the executor of a development
host; a device build selects `arch-cortex-m` instead of `arch-std`.
