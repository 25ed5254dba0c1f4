# pico_lab

Lab programs for a Raspberry Pi Pico board (RP2040): blinking LEDs, a PWM
dimmer, a colour palette, colours stored in an I2C EEPROM, and a button
memory game on an ST7789 display.

- `src/` is the verified library (Verus): every decision the programs make,
  with contracts and the laws they keep (`lemma_*` proof functions).
- `app/` is the firmware around it, built on Embassy: it drives the pins,
  PWM slices, I2C bus and display, and asks the library what to do.
- `tests/` runs the library on concrete values.
