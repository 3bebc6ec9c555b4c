# vape

Firmware logic for a small nRF52840 vaporizer with an SSD1306 screen,
three buttons and a heating coil driven by PWM.

- `src/` is the verified library:
  - `data/` holds the device state (mode, power, limits, stats,
    battery) and its editing rules;
  - `control.rs` holds the decisions of the main loop (button presses,
    heating, measuring, puff statistics, screen saver);
  - `device/` holds the measuring and timing arithmetic and what the screen
    shows, as plain values;
  - `games/` holds the Game of Life used as a screen saver;
  - `icons/` holds the icon encoder;
  - `flash/` holds the keys and sizes of what is saved.
- `app/` is the program around it: hardware, drawing, flash storage and
  the main loop.
- `tests/` runs the library on concrete values.
