//! An embeddable terminal pager: text wrapping, scroll-window rendering,
//! line numbering, incremental search and the event-driven state machine
//! that ties them together, with their behaviour stated and proved.
pub mod line_numbers;
pub mod pager;
pub mod render;
pub mod search;
pub mod state;
pub mod text;
pub mod wrap;

pub use line_numbers::LineNumbers;
pub use pager::{ExitStrategy, Pager};
pub use render::{clamp_upper_mark, write_lines};
pub use search::{compile_matcher, match_positions, search_index, Matcher, SearchMode};
pub use state::{handle_event, Command, Event, InputEvent, PagerState};
pub use wrap::{split_at_width, split_line_at_width};
