//! The server's immutable configuration: the two upstream base URLs.

use vstd::prelude::*;
use crate::urls::{get_cats_url, get_todo_url, CATS_PATH, TODO_PATH};

verus! {

/// Base URL of the cat-fact service in the shipped configuration.
pub const DEFAULT_CATS_URL: &'static str = "https://cat-fact.herokuapp.com";

/// Base URL of the to-do service in the shipped configuration.
pub const DEFAULT_TODO_URL: &'static str = "https://jsonplaceholder.typicode.com";

/// The two upstream base URLs. Built once at startup and never mutated:
/// every request reads the same values.
pub struct ServerConfig {
    pub cats_url: String,
    pub todo_url: String,
}

impl ServerConfig {
    /// A configuration holding exactly the two given base URLs.
    pub fn new(cats_url: String, todo_url: String) -> (config: ServerConfig)
        ensures
            config.cats_url@ == cats_url@,
            config.todo_url@ == todo_url@,
    {
        ServerConfig { cats_url, todo_url }
    }

    /// The full URL of the to-do endpoint under this configuration.
    pub fn todo_endpoint(&self) -> (url: String)
        ensures
            url@ == self.todo_url@ + TODO_PATH@,
    {
        get_todo_url(self.todo_url.as_str())
    }

    /// The full URL of the cat-fact endpoint under this configuration.
    pub fn cats_endpoint(&self) -> (url: String)
        ensures
            url@ == self.cats_url@ + CATS_PATH@,
    {
        get_cats_url(self.cats_url.as_str())
    }
}

} // verus!
