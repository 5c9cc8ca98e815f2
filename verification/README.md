# rp-keyer

Firmware logic of an iambic CW keyer for RP2040 and RP2350 boards, verified
with Verus: paddle debouncing, the keyer loop, USB MIDI and serial signalling,
the OLED menu, settings persistence and the sidetone.

* `src/` is the library. Each module states what its functions do over a view
  of its state, and the `law_` proof functions state what holds across them.
* `app/` is the firmware around it: pins, USB endpoints, flash, display and
  tasks.
* `tests/` exercise the library on concrete values.
* `extras/` has the memory layouts; the last 16 KiB of flash are left out of
  the program and hold the settings.

## Modules

| Module | What it decides |
| --- | --- |
| `paddle`, `buttons` | when a contact counts as pressed |
| `keyer_task` | what one 250 us iteration does |
| `usb_emit_task` | which MIDI packets and serial lines a snapshot needs |
| `midi_interrupt`, `cdc_serial_state`, `usb_descriptors` | what the two USB functions declare and answer |
| `ui`, `screens`, `ui_task`, `text`, `decoded` | what the buttons do and what the display shows |
| `storage`, `config_persist_task` | the record format, and when it is safe to write it |
| `buzzer`, `radio_key`, `serial_number` | how the outputs and the serial number are formed |

## Wiring

| Pin | Use |
| --- | --- |
| GP10 to GP13 | UP, DOWN, OK, BACK, active low |
| GP14, GP15 | dit and dah paddle, active low |
| GP18 | 2N2222 base, keys the radio |
| GP19 | piezo buzzer (PWM slice 1, channel B) |
| GP20, GP21 | OLED SDA and SCL (I2C0) |

## Building the firmware

The firmware also takes the keying engine (`radio_utils_keyer`) and the CW
decoder (`radio_utils_cw_decoder`), `cortex-m-rt`, and `embassy-executor` with
the features `platform-cortex-m`, `executor-thread` and `executor-interrupt`.
For an RP2350 board, `embassy-rp` takes the feature `rp235xa` in place of
`rp2040`.
