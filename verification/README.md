# kernel_writer

Text output for a small x86_64 kernel that draws on the framebuffer handed over
by the bootloader, with its behaviour proved in Verus.

- `src/font.rs`: glyph rasters of the Noto Sans Mono bitmap font (regular weight,
  16 pixel rows), with the backup glyph for characters the font lacks.
- `src/frame.rs`: framebuffer layout, pixel formats, and the byte-level meaning of
  drawing a pixel, a row and a block, with lemmas on what drawing touches.
- `src/writer.rs`: `FrameBufferWriter`, its cursor and the operations on it
  (characters, strings, backspace, tab, arrow moves, clearing); each operation is
  specified as a function on `WriterState` together with the exact condition under
  which it completes.
- `src/keys.rs`: what a decoded key press does to the screen.
- `src/keyboard.rs`: decoding of scan code bytes into key presses through the
  `pc_keyboard` driver, and the handling of one scan code on the writer.
- `src/interrupts.rs`: vector numbers of the timer and keyboard interrupts.
- `src/laws.rs`: properties relating the operations (inverse cursor moves,
  backspace after a character, string concatenation, preserved layout).
- `app/`: the programs around the library: console and `print!`, kernel start-up,
  interrupt handlers (port I/O, PIC acknowledgement) and their IDT entries,
  the kernel heap, and the
  floating-point shapes.
