//! Backend logic of a desktop front end for a container-management command
//! line tool: what to launch, with which privileges, how a finished process
//! is reported, and the local settings database's migration table.

use vstd::prelude::*;

pub mod migrations;
pub mod registry;
pub mod system;
pub mod types;

use vstd::string::*;

verus! {

/// The greeting sent back to the front end for `name`.
pub fn greet(name: &str) -> (r: String)
    ensures
        r@ == "Hello, "@ + name@ + "! You've been greeted from Rust!"@,
{
    String::from_str("Hello, ").concat(name).concat("! You've been greeted from Rust!")
}

} // verus!
