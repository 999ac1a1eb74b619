# oxink

A terminal text input with a slash-command dropdown, and the ANSI styling
helpers it draws with, written in Verus.

- `src/text.rs`: character classes, display widths, the visible width of text
  that carries SGR escapes, trimming and string building.
- `src/width_tables.rs`: the zero-width and wide character ranges.
- `src/styles.rs`: SGR style codes, colour conversions (RGB, hex, 256 and 16
  colour palettes) and escape wrapping.
- `src/input/`: key events, themes, options, the editing state machine
  (`model.rs` states it, `state.rs` implements it), the layout of a drawing,
  the renderer that repaints it in place, and the laws that tie them together.
- `src/prompt.rs`: the key handling of the demo's plain one-line prompt.
- `app/main.rs`: a small interactive demo on top of crossterm and ratatui;
  it hands each key press to `prompt::handle_prompt_key`.
