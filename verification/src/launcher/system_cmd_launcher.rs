use crate::launcher::app_launcher::AppData;
use std::collections::HashMap;
use vstd::prelude::*;

verus! {

/// A source that offers system commands.
#[derive(Clone, Debug)]
pub struct SystemCommand {
    pub alias: Option<String>,
    pub method: String,
    pub name: String,
    pub commands: HashMap<String, AppData>,
    pub is_async: bool,
    pub priority: u32,
}

} // verus!
