use vstd::prelude::*;

verus! {

/// What one fetch of a release source found.
#[derive(Debug, Clone)]
pub struct ReleaseData {
    /// The version as the source publishes it; compared literally.
    pub version: String,
    /// A page about the release, for the notification only.
    pub link: Option<String>,
}

/// A message for the delivery subsystem, addressed to a notification group.
#[derive(Debug, Clone, PartialEq, Eq)]
pub struct NotificationMessage {
    pub text: String,
    pub notification: String,
}

/// The content of a notification message.
pub struct MessageView {
    pub text: Seq<char>,
    pub notification: Seq<char>,
}

impl View for NotificationMessage {
    type V = MessageView;

    open spec fn view(&self) -> MessageView {
        MessageView { text: self.text@, notification: self.notification@ }
    }
}

} // verus!
