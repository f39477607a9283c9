# projectdmx

Firmware logic for a DMX lighting controller board (RP2350): it takes DMX
data from Art-Net or sACN, keeps four universes in memory, and drives dimmer
channels, NeoPixel strips, MP3 playback from an SD card, a status display and
switch reports to a show-control PC.

- `src/` is the library, verified with Verus: JSONC comment stripping and
  config validation, the DMX universe store, Art-Net and sACN packet
  handling, pixel effects and wire color orders, dimmer levels, the audio
  voice state machine and MP3 reassembly buffer, SD streaming decisions,
  display geometry and switch messages.
- `tests/` runs the library on concrete values.
- `app/` is the embedded program around it (Embassy tasks, networking, PIO,
  I2C, SPI and the SD card), which calls into the library for every decision.
