//! Line-level diffs of a single file in a git repository: the raw
//! line-event stream of the diff engine is regrouped into hunks, with
//! every line classified by role.

pub mod hunks;
pub mod source;
pub mod types;

pub use types::Diff;
pub use types::DiffEvent;
pub use types::DiffLine;
pub use types::DiffLineType;
pub use types::Hunk;
pub use types::HunkHeader;
