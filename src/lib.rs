//! A query-routing host for search plugins: the data every plugin exchanges
//! with the host, a registry that owns the plugins, the router that forwards
//! queries and actions, and the logic of the bundled plugins.

pub mod apps;
pub mod clipboard;
pub mod color;
pub mod contract;
pub mod emoji;
pub mod files;
pub mod loader;
pub mod paths;
pub mod processes;
pub mod router;
pub mod shell;
pub mod text;
pub mod torrent;
pub mod web_search;
