//! The guide line shown at the top of the screen.
use vstd::prelude::*;

verus! {

/// The lines the guide can show.
#[derive(Clone, Copy, PartialEq, Eq, Structural, Debug)]
pub enum GuideMessage {
    Intro,
    AvoidArrows,
    AvoidToasts,
    DoorNeedsKey,
    UpAgain,
}

/// A request to show another guide line.
#[derive(Clone, Copy, PartialEq, Eq, Structural, Debug)]
pub struct ChangeGuideText(pub GuideMessage);

impl GuideMessage {
    /// The words shown for this line.
    pub fn text(&self) -> &'static str {
        match self {
            GuideMessage::Intro => "You are a cat, your goal is to reach your bed.",
            GuideMessage::AvoidArrows => "Oh no, avoid the arrows.",
            GuideMessage::AvoidToasts => "Oh no, avoid the toasts.",
            GuideMessage::DoorNeedsKey => "Door, how audacious, now you need to return back for key.",
            GuideMessage::UpAgain => "And now up again...",
        }
    }
}

} // verus!
