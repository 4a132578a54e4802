use vstd::prelude::*;

pub mod buffer;
pub mod digits;
pub mod laws;
pub mod state;
pub mod view;

verus! {

/// The window title: a static string, constant for the process lifetime.
pub fn title() -> (t: String)
    ensures
        t@ == "iced editor"@,
{
    String::from_str("iced editor")
}

} // verus!
