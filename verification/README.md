# nrf7002

Host-side logic of a driver for the nRF7002 Wi-Fi companion chip, written and
verified in Verus.

The library in `src/` performs no I/O. It encodes and parses the messages of the
firmware, plans transfers on the SPI bus and into the memory of the radio
processor, lays out packet memory, checks and loads firmware bundles, and runs the
state machines of the device, the data path, the station, the driver and its
recovery. Each operation that needs the bus is a small machine: it says which
access comes next (`RpuRequest`), takes the answer, and moves on.

| Modules | Subject |
| --- | --- |
| `abi`, `bridge`, `lane`, `driver`, `embassy` | the wireless foundation below an Ethernet interface, and the frame queues of a network stack |
| `codec`, `protocol`, `control`, `system` | messages of the firmware |
| `bus`, `memory`, `firmware` | SPI transfers, address map, power-up, firmware bundles |
| `device`, `data`, `station` | command and event queues, packet buffers, the link |
| `runtime`, `production`, `secure` | the whole driver, its fail-closed policy, WPA2 sessions |

`app/` holds the asynchronous side: it awaits the accesses that the library asks
for, on `embedded-hal-async` buses and behind `embassy-net` drivers.

One thing is taken on trust: the SHA-256 digest of the `sha2` crate. The contracts
name its result (`firmware::sha256`) and assume nothing further of it.

Public proof functions whose names start with `law_` state properties of several
operations together, such as that a fault closes the data port until a link is
authorized anew.
