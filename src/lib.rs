//! Quick and local word definitions: validation of the requested word, the
//! prefix-sharded layout of the dictionary files, the order in which the
//! dictionary roots are searched, lookup in a loaded shard and the layout of a
//! rendered definition.

pub mod locate;
pub mod render;
pub mod schema;
pub mod word;

pub use locate::{not_found_message, search_start, search_step, shard_file, Root, Search};
pub use render::Line;
pub use schema::{Definition, Dictionary, Etymology, PartOfSpeech, Sense};
pub use word::{is_valid_word, lookup_path, shard_path_of_lower, WordError};
