use vstd::prelude::*;

verus! {

/// The message a window receives when it is being destroyed.
pub const WM_DESTROY: u32 = 0x0002;

/// What the window procedure does with a message.
#[derive(Clone, Copy, Debug, PartialEq, Eq, Structural)]
pub enum MessageAction {
    /// Post the quit message and answer zero.
    PostQuit,
    /// Hand the message to the default window procedure.
    DefaultProcedure,
}

/// The action the window procedure takes on `message`: a destroyed window
/// ends the message loop, every other message gets the default handling.
pub fn message_action(message: u32) -> (r: MessageAction)
    ensures
        r == (if message == WM_DESTROY {
            MessageAction::PostQuit
        } else {
            MessageAction::DefaultProcedure
        }),
{
    if message == WM_DESTROY {
        MessageAction::PostQuit
    } else {
        MessageAction::DefaultProcedure
    }
}

} // verus!
