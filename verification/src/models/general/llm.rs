use vstd::prelude::*;

verus! {

/// One chat message handed to the completion service.
#[derive(Debug, PartialEq)]
pub struct Message {
    pub role: String,
    pub content: String,
}

/// What a [`Message`] says, as plain text.
pub struct MessageView {
    pub role: Seq<char>,
    pub content: Seq<char>,
}

impl DeepView for Message {
    type V = MessageView;

    open spec fn deep_view(&self) -> MessageView {
        MessageView { role: self.role@, content: self.content@ }
    }
}

impl View for Message {
    type V = MessageView;

    open spec fn view(&self) -> MessageView {
        self.deep_view()
    }
}

impl Clone for Message {
    /// A copy that says the same.
    fn clone(&self) -> (copy: Message)
        ensures
            copy@ == self@,
    {
        Message { role: self.role.clone(), content: self.content.clone() }
    }
}

} // verus!
