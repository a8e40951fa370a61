//! Persistent configuration of a desktop application: the named sections of
//! one on-disk document, their defaults, and the rules for seeding, reading
//! and recovering them.
//!
//! - `value`: raw structured values and lookup by name.
//! - `names`: the keys of the sections, the names of their fields, the
//!   spellings of a theme.
//! - `schema`: the shape of each section, its default, and the passage
//!   between a section and the raw value that stores it.
//! - `document`: the document in memory, and how it is opened.
//! - `store_manager`: seeding the document, and reading a section out of
//!   it strictly or leniently.
//! - `app_config`: the three sections at once, as the application reads them.
//! - `theme`: from the theme that was asked for to the theme of the window.
//! - `save_queue`: when to write the document to disk.
//! - `message`: what the errors say of themselves.
//!
//! The library reads and writes no file. Its caller reads the file and says
//! what came of it, and writes the file when the library says so.

pub mod app_config;
pub mod document;
pub mod message;
pub mod names;
pub mod save_queue;
pub mod schema;
pub mod store_manager;
pub mod theme;
pub mod value;
