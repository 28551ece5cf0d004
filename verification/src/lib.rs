//! Core of a timed ticket-purchase client for a signed RPC-over-HTTP
//! commerce gateway: request signing, session-token handling, response
//! classification, and the snatch orchestrator state machine.
//!
//! Network I/O, browser-driven login and operator menus live outside this
//! crate; they hand plain values in and receive plain values back.

use vstd::prelude::*;

pub mod catalog;
pub mod envelope;
pub mod gateway;
pub mod machine;
pub mod payload;
pub mod sign;
pub mod strutil;
pub mod task;
pub mod token_store;

verus! {

/// Entry point handle for a purchase run; carries the address of the
/// WebDriver endpoint that the surrounding login glue connects to.
pub struct Client {
    webdriver_url: String,
}

impl Client {
    pub fn new(webdriver_url: String) -> (r: Self)
        ensures
            r@ == webdriver_url@,
    {
        Self { webdriver_url }
    }

    /// The WebDriver endpoint address this client was built with.
    pub closed spec fn view(&self) -> Seq<char> {
        self.webdriver_url@
    }

    pub fn webdriver_url(&self) -> (r: &String)
        ensures
            r@ == self@,
    {
        &self.webdriver_url
    }
}

} // verus!
