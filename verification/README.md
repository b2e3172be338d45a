# lcard_dac_signal_generator

Streams one sine wave per DAC channel to an LCard E14-140 module through the
vendor's `Lusbapi.dll`.

`src/` is the verified library: the decisions of the program, each with a
contract proved by Verus.

* `device` — the protocol for opening the module (DLL version check, slot
  scan, module name, DAC revision) as a state machine, and the error texts.
* `stream` — the double-buffered streaming loop as a state machine, and the
  interpretation of overlapped-I/O polls.
* `cycles` — running a sequence of cycles with pauses and stop requests.
* `cli` — the layout of the headless command line (duration, two
  frequencies, then optional phases, amplitude and offset).
* `ui` — focus order, key meanings and the status line of the terminal
  front end.
* `pe` — reading the machine field of a PE file and checking it against
  the executable's architecture.
* `cstring`, `text` — NUL-terminated strings and integer formatting.

`app/` is the program around it: the Win32 and DLL calls, the terminal I/O,
and everything computed in floating point (rates, phases, samples and the
validation of the numeric parameters). It performs the actions that the
library's state machines ask for and hands back their outcomes.
