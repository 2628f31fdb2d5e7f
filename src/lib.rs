//! Presentation and scoping layer of a shell-history picker: one-line labels
//! and detail previews for history records, and the header that describes the
//! active search scope.
pub mod clock;
pub mod highlight;
pub mod history;
pub mod text;
pub mod title;
