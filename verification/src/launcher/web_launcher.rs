use vstd::prelude::*;

verus! {

/// A source that hands the query to a web search engine.
#[derive(Clone, Debug)]
pub struct Web {
    pub alias: Option<String>,
    pub method: String,
    pub uuid: String,
    pub name: String,
    pub icon: String,
    pub engine: String,
    pub priority: u32,
    pub is_async: bool,
}

} // verus!
