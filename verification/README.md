# blackgpib

A GPIB peripheral emulator for the GRiD Compass laptop, running on a Raspberry
Pi: it emulates disks, printers and a plotter on the laptop's GPIB bus, records
the bus traffic, and can act as a bus controller to read, write and format a
real disk.

## Layout

- `src/` is the verified library (Verus). It holds the wire formats of the
  disk protocol (requests, status responses, disk identity and status blocks,
  GPIB commands), the disks backed by memory-mapped images, the bus-side state
  machines that decide what each command or data byte does (`emulator`,
  `emulator::manager`, `devices::manager`, `newver::listener`), the
  controller's session state machine (`pi::controller`), the bus dump format
  and its parser (`dump_parser`), the Raspberry Pi model identification
  (`pi::system`), the GPIO register values of the listener mode (`gpio`), and
  the log ring buffer (`logger::ringbuf`).
- `app/` is the program around it: command-line parsing, the GPIO lines and the
  GPIB handshakes, the devices' I/O (files, UDP), and the loops that perform
  the steps the library's state machines ask for.
- `tests/` runs the library on concrete values.

The only calls into an outside crate that the library makes are to `memmap2`,
for the bytes of a disk image.
