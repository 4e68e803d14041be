//! Hot-reloadable TLS acceptance as a verified state machine, with the URL
//! path helpers that the static file handlers share.

pub mod laws;
pub mod listener;
pub mod path_laws;
pub mod percent;
pub mod percent_laws;
pub mod stream;
pub mod url_path;
