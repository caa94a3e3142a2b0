//! The application-state shell a UI host drives.
//!
//! The host framework owns the event loop and the widgets; the state it
//! carries between updates lives here. The viewer emits no messages of
//! its own, so the one message kind carries nothing and an update leaves
//! the state as it is.

use vstd::prelude::*;

verus! {

/// A message delivered to the application by the UI host. The viewer's
/// widgets emit nothing, so the only kind carries no information.
#[derive(Clone, Copy, PartialEq, Eq, Structural, Debug)]
pub enum Message {
    Noop,
}

/// The application state the UI host carries between updates.
#[derive(Clone, Copy, PartialEq, Eq, Structural, Debug)]
pub struct App {

}

impl App {
    /// A fresh application state.
    pub fn new() -> (r: App)
        ensures
            r == (App {  }),
    {
        App {  }
    }

    /// Handle a message from the UI host; no message kind exists, so the
    /// state never changes.
    pub fn update(&mut self, message: Message)
        ensures
            *final(self) == *old(self),
    {
        let _ = message;
    }
}

impl Default for App {
    fn default() -> (r: Self)
        ensures
            r == (App {  }),
    {
        App::new()
    }
}

} // verus!
