# rusty_hpsdr

A receiver and transmitter for OpenHPSDR protocol 1 and protocol 2 radios. The
decisions and the wire formats live in a library whose behaviour is stated in
`requires` / `ensures` contracts and proved with Verus; the program around it
(GTK window, sockets, ALSA sound, the WDSP signal processing library) is ordinary
Rust.

## Layout

- `src/` — the verified library.
  - `util` — grouping a frequency's digits with separators.
  - `bytes` — big endian fields and 24 and 16 bit samples, sequence numbers.
  - `modes`, `filters`, `bands`, `agc`, `adc`, `alex` — the tables of modes,
    filters, bands, AGC timings and ALEX filter and antenna bits.
  - `discovery` — discovery requests and replies, boards, the device list.
  - `protocol1` — Metis datagrams and Ozy frames: control bytes and their command
    cycle, sample frames to the radio, frames and packets from it.
  - `protocol2` — the general, high priority, receive specific, transmit specific,
    audio and transmit IQ packets, the status, microphone and IQ packets from the
    radio.
  - `single` — whole numbers and quotients rounded as single precision arithmetic
    rounds them, computed exactly in integers: the phase words that tune a protocol 2
    radio are single precision quotients.
  - `receiver`, `transmitter`, `radio` — tuning, band, mode and filter changes,
    click tuning, VFO copies, noise buttons, MOX and TUNE, audio mixing, what the
    radio is told and which DSP channels run.
  - `spectrum`, `grid`, `audio` — display markers and scale lines, the chosen
    button of a button grid, and when local audio is cut short.
- `tests/` — tests of the library on concrete values.
- `app/` — the program: discovery window, main window, configuration window and
  displays, the two link threads, sound devices, WDSP calls and the settings file.
