//! Cover resolution and template substitution for a music player notifier.
pub mod cover;
pub mod events;
pub mod search;
pub mod template;
pub mod text;
pub mod track;

pub use cover::{next_cover_step, CoverStep, Lookup, TrackCover};
pub use events::CmusEvent;
pub use search::{search, DirEntryInfo, NamePattern, SearchStep, UpwardSearch};
pub use template::process_template_placeholders;
pub use track::Track;
