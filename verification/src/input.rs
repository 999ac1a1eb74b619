//! A single-line text input whose leading `/` opens a dropdown of matching
//! slash commands, and the renderer that draws it on a terminal.

pub mod keys;

pub use keys::{ActionModel, InputAction, KeyCode, KeyEvent, KeyModifiers};
pub mod color;

pub use color::{InputTheme, TerminalColor};
pub mod options;

pub use options::InputOption;
pub mod model;
pub mod state;

pub use state::{SlashInput, DEFAULT_INPUT_WIDTH};
pub mod layout;
pub mod view;

pub use layout::{content_width_from_terminal_columns, DROPDOWN_TOP_PADDING};
pub use view::{InputRenderer, InputView};
pub mod laws;
