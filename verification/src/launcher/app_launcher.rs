use std::collections::HashMap;
use vstd::prelude::*;

verus! {

/// What one entry of an application-like source needs to be shown and started.
#[derive(Clone, Debug)]
pub struct AppData {
    pub icon: String,
    /// The command line that starts the entry.
    pub command: String,
    pub search_string: String,
}

/// A source that offers installed applications.
#[derive(Clone, Debug)]
pub struct App {
    pub alias: Option<String>,
    pub method: String,
    pub name: String,
    pub is_async: bool,
    pub priority: u32,
    pub apps: HashMap<String, AppData>,
}

} // verus!
