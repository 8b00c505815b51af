//! Flash messages: feedback that is shown once, on the page a redirect
//! leads to.
//!
//! A handler sends a message before it answers. The message travels with the
//! answer, comes back with the client's next request and is pending there.
//! What one request has pending is what the answer before it carried, so a
//! message is delivered at most once.

use vstd::prelude::*;

verus! {

/// How a message is to be read.
#[derive(Debug, Clone, Copy, PartialEq, Eq, Structural)]
pub enum Level {
    /// Something the user asked for was not done.
    Error,
    /// Something the user asked for was done.
    Success,
}

/// The name under which a level is handed to a template.
pub open spec fn level_name(level: Level) -> Seq<char> {
    match level {
        Level::Error => "Error"@,
        Level::Success => "Success"@,
    }
}

impl Level {
    /// The name under which this level is handed to a template.
    pub fn name(&self) -> (name: &'static str)
        ensures
            name@ == level_name(*self),
    {
        match self {
            Level::Error => "Error",
            Level::Success => "Success",
        }
    }
}

/// A level and a text.
#[derive(Debug, Clone, PartialEq, Eq)]
pub struct FlashMessage {
    pub level: Level,
    pub content: String,
}

/// A flash message as specifications see it.
pub ghost struct FlashMessageView {
    pub level: Level,
    pub content: Seq<char>,
}

impl View for FlashMessage {
    type V = FlashMessageView;

    open spec fn view(&self) -> FlashMessageView {
        FlashMessageView { level: self.level, content: self.content@ }
    }
}

/// The views of a list of messages, in the same order.
pub open spec fn message_views(messages: Seq<FlashMessage>) -> Seq<FlashMessageView> {
    messages.map_values(|message: FlashMessage| message@)
}

impl FlashMessage {
    /// A message of the given level. The text is taken as it is: whoever
    /// shows it escapes it.
    pub fn new(level: Level, content: &str) -> (message: FlashMessage)
        ensures
            message@ == (FlashMessageView { level, content: content@ }),
    {
        FlashMessage { level, content: content.to_owned() }
    }

    /// An error-level message.
    pub fn error(content: &str) -> (message: FlashMessage)
        ensures
            message@ == (FlashMessageView { level: Level::Error, content: content@ }),
    {
        FlashMessage::new(Level::Error, content)
    }

    /// A success-level message.
    pub fn success(content: &str) -> (message: FlashMessage)
        ensures
            message@ == (FlashMessageView { level: Level::Success, content: content@ }),
    {
        FlashMessage::new(Level::Success, content)
    }
}

/// The flash messages of one request: those that came with it and are
/// pending, and those sent while it was handled.
#[derive(Debug, Clone, PartialEq, Eq)]
pub struct FlashChannel {
    pending: Vec<FlashMessage>,
    outgoing: Vec<FlashMessage>,
}

/// A channel as specifications see it.
pub ghost struct FlashChannelView {
    /// Came with the request and were not read yet.
    pub pending: Seq<FlashMessageView>,
    /// Sent while the request was handled, oldest first.
    pub outgoing: Seq<FlashMessageView>,
}

impl View for FlashChannel {
    type V = FlashChannelView;

    closed spec fn view(&self) -> FlashChannelView {
        FlashChannelView {
            pending: message_views(self.pending@),
            outgoing: message_views(self.outgoing@),
        }
    }
}

/// The channel of a request that came with `incoming`.
pub open spec fn opened(incoming: Seq<FlashMessageView>) -> FlashChannelView {
    FlashChannelView { pending: incoming, outgoing: Seq::empty() }
}

/// The channel after a message was sent on it.
pub open spec fn sent(channel: FlashChannelView, level: Level, content: Seq<char>) -> FlashChannelView {
    FlashChannelView {
        pending: channel.pending,
        outgoing: channel.outgoing.push(FlashMessageView { level, content }),
    }
}

/// The channel after its pending messages were read.
pub open spec fn read(channel: FlashChannelView) -> FlashChannelView {
    FlashChannelView { pending: Seq::empty(), outgoing: channel.outgoing }
}

impl FlashChannel {
    /// The channel of a request that came with `incoming`.
    pub fn new(incoming: Vec<FlashMessage>) -> (channel: FlashChannel)
        ensures
            channel@ == opened(message_views(incoming@)),
    {
        let channel = FlashChannel { pending: incoming, outgoing: Vec::new() };
        assert(message_views(channel.outgoing@) =~= Seq::<FlashMessageView>::empty());
        channel
    }

    /// Attaches a message to the answer of this request. What is pending
    /// stays as it is.
    pub fn send(&mut self, level: Level, content: &str)
        ensures
            final(self)@ == sent(old(self)@, level, content@),
    {
        let message = FlashMessage::new(level, content);
        self.outgoing.push(message);
        assert(message_views(self.outgoing@) =~= message_views(old(self).outgoing@).push(
            message@,
        ));
    }

    /// Hands out every pending message, oldest first, and marks them read:
    /// nothing is pending afterwards.
    pub fn iterate(&mut self) -> (messages: Vec<FlashMessage>)
        ensures
            message_views(messages@) == old(self)@.pending,
            final(self)@ == read(old(self)@),
    {
        let mut messages: Vec<FlashMessage> = Vec::new();
        std::mem::swap(&mut self.pending, &mut messages);
        assert(message_views(self.pending@) =~= Seq::<FlashMessageView>::empty());
        messages
    }

    /// Ends the request: what was sent, oldest first, to go out with the
    /// answer. It is what the client's next request has pending. Pending
    /// messages that nobody read are gone.
    pub fn into_outgoing(self) -> (sent: Vec<FlashMessage>)
        ensures
            message_views(sent@) == self@.outgoing,
    {
        self.outgoing
    }
}

} // verus!
