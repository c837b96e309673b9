//! The verified core of a small desktop application shell: a JSON
//! preferences store with repair-on-missing semantics, and the controller of
//! a single OAuth browser window that detects callback redirects by URL
//! inspection. The host runtime performs the file and window operations;
//! every decision — what to write, what to emit, how the window state moves —
//! is made and proved here.
pub mod json_value;
pub mod oauth;
pub mod store;
