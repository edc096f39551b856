# mkvm

One mouse and one keyboard for several machines, on Linux.

The machine in control grabs its mice and keyboards. It tracks its own pointer, and when the
pointer crosses the edge that a remote machine lies behind, it forwards movements, buttons,
wheels and keys to that machine until the pointer comes back. At all other times its input is
passed on to a virtual mouse and a virtual keyboard of its own, also while a remote machine that
the pointer would cross to cannot be reached. A machine that is being controlled
writes what it is sent to such virtual devices.

- `src/` holds the decisions, verified with Verus:
  - `codes`, `keymap`: key numbers and their Windows virtual-key codes
  - `events`: reports to the virtual devices
  - `devices`: what the virtual devices declare, and which devices are grabbed
  - `layout`: the pointer on the local screens
  - `frame`: what the grabbed devices tell in one frame
  - `capture`: what the machine in control does with it
  - `conversation`: what holds of the capture as a whole
  - `inject`: what a controlled machine writes
  - `status`, `launch`: the start of the capture and of the process
- `app/` reads and writes devices, runs the capture thread, and connects to the rest of the
  application.
- `tests/` runs the library on examples.
