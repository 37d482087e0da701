//! An interactive terminal picker for gitmoji records: a query buffer, a
//! filter/selection engine over an immutable dataset, an event-loop state
//! machine, and a commit-hook duplicate check, all with verified contracts.
//! Terminal drawing, clipboard access, argument parsing and dataset loading
//! live outside this library and talk to it through plain values.

pub mod colors;
pub mod driver;
pub mod emoji;
pub mod emojis;
pub mod hook;
pub mod pattern;
pub mod search_entry;
pub mod selection_view;
pub mod text;
pub mod updater;
