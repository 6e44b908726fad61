use vstd::prelude::*;

verus! {

/// The key that asks the host to quit.
pub const QUIT_KEY: char = 'q';

/// What the host does with an event after the global filter saw it.
#[derive(Debug, PartialEq, Eq, Structural, Clone, Copy)]
pub enum HostAction {
    /// Stop the program.
    Stop,
    /// Hand the event on to the component.
    PassOn,
}

/// The global filter on key events, ahead of any component: the quit key
/// stops the host, whatever the toggle's state; every other key passes on.
pub fn handle_key(key: Option<char>) -> (r: HostAction)
    ensures
        r == (if key == Some(QUIT_KEY) {
            HostAction::Stop
        } else {
            HostAction::PassOn
        }),
{
    match key {
        Some(c) => {
            if c == QUIT_KEY {
                HostAction::Stop
            } else {
                HostAction::PassOn
            }
        },
        None => HostAction::PassOn,
    }
}

} // verus!
