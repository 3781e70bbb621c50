pub mod error;
pub mod key;
pub mod session;

pub use error::KDBError;
pub use key::{MetaEntry, MetaEntryView, StringKey, StringKeyView};
pub use session::{EnsureOutcome, SessionEvent, SessionState, SyncOutcome};
pub use session::{classify_ensure_code, classify_sync_code};
