//! The relay between the plugin inside Studio and the session: what the
//! plugin may send, which requests are let in, and the queue that holds
//! them until the session asks.
//!
//! The listener that feeds a [`MessageReceiver`] and the waiting of a
//! blocking receive belong to the host; here is what they decide by.

use std::collections::VecDeque;
use vstd::prelude::*;

verus! {

/// One unit of output produced by the script inside Studio: a log line, an
/// error, a result value. Nothing here looks inside it.
#[derive(Debug, PartialEq, Eq)]
pub struct RobloxMessage {
    pub body: String,
}

impl View for RobloxMessage {
    type V = Seq<char>;

    open spec fn view(&self) -> Seq<char> {
        self.body@
    }
}

impl DeepView for RobloxMessage {
    type V = Seq<char>;

    open spec fn deep_view(&self) -> Seq<char> {
        self.body@
    }
}

impl Clone for RobloxMessage {
    fn clone(&self) -> (copy: Self)
        ensures
            copy@ == self@,
    {
        RobloxMessage { body: self.body.clone() }
    }
}

/// What a decoded inbound request says.
#[derive(Debug, PartialEq, Eq)]
pub enum Message {
    /// The plugin is up and about to run the script.
    Start,
    /// The script has ended; nothing more will be sent.
    Stop,
    /// Output of the script, oldest first.
    Messages(Vec<RobloxMessage>),
}

/// The mathematical value of a [`Message`].
pub enum MessageView {
    Start,
    Stop,
    Messages(Seq<Seq<char>>),
}

impl MessageView {
    /// A batch carries at least one event.
    pub open spec fn well_formed(self) -> bool {
        self matches MessageView::Messages(events) ==> events.len() > 0
    }
}

impl View for Message {
    type V = MessageView;

    open spec fn view(&self) -> MessageView {
        match self {
            Message::Start => MessageView::Start,
            Message::Stop => MessageView::Stop,
            Message::Messages(events) => MessageView::Messages(events.deep_view()),
        }
    }
}

impl DeepView for Message {
    type V = MessageView;

    open spec fn deep_view(&self) -> MessageView {
        self@
    }
}

impl Message {
    /// Whether a batch carries at least one event.
    pub fn is_well_formed(&self) -> (ok: bool)
        ensures
            ok == self@.well_formed(),
    {
        match self {
            Message::Messages(events) => {
                assert(events.deep_view().len() == events@.len());
                events.len() > 0
            },
            _ => true,
        }
    }
}

/// Where the relay listens and whom it listens to.
#[derive(Debug, PartialEq, Eq)]
pub struct MessageReceiverOptions {
    /// Loopback port to bind.
    pub port: u16,
    /// Token every request must present.
    pub server_id: String,
}

/// One inbound request, as far as the listener could read it.
#[derive(Debug, PartialEq, Eq)]
pub struct Request {
    /// The token the request presents, if it presents one.
    pub token: Option<String>,
    /// What its body decodes to; `None` where it does not decode.
    pub payload: Option<Message>,
}

/// The mathematical value of a [`Request`].
pub struct RequestView {
    pub token: Option<Seq<char>>,
    pub payload: Option<MessageView>,
}

impl View for Request {
    type V = RequestView;

    open spec fn view(&self) -> RequestView {
        RequestView {
            token: match self.token {
                Some(token) => Some(token@),
                None => None,
            },
            payload: match self.payload {
                Some(message) => Some(message@),
                None => None,
            },
        }
    }
}

/// What the relay answers to a request.
#[derive(Clone, Copy, Debug, PartialEq, Eq, Structural)]
pub enum Reply {
    /// The message is in the queue.
    Accepted,
    /// The relay is not listening.
    Unavailable,
    /// The token is missing or not this session's.
    Unauthorized,
    /// The body does not decode to a message.
    Malformed,
}

/// The model of a relay: its settings, whether it listens, and the
/// messages it holds, oldest first.
#[verifier::ext_equal]
pub struct MessageReceiverView {
    pub port: u16,
    pub server_id: Seq<char>,
    pub listening: bool,
    pub queue: Seq<MessageView>,
}

impl MessageReceiverView {
    /// A relay that was never started.
    pub open spec fn idle(port: u16, server_id: Seq<char>) -> MessageReceiverView {
        MessageReceiverView { port, server_id, listening: false, queue: Seq::empty() }
    }

    /// A relay that has just been started.
    pub open spec fn start(port: u16, server_id: Seq<char>) -> MessageReceiverView {
        MessageReceiverView { port, server_id, listening: true, queue: Seq::empty() }
    }

    /// The answer to `request`. The token is looked at before the body.
    pub open spec fn reply(self, request: RequestView) -> Reply {
        if !self.listening {
            Reply::Unavailable
        } else if request.token != Some(self.server_id) {
            Reply::Unauthorized
        } else if request.payload is Some && request.payload->0.well_formed() {
            Reply::Accepted
        } else {
            Reply::Malformed
        }
    }

    /// The relay after `request`: an accepted message joins the end of the
    /// queue, any other request leaves no trace.
    pub open spec fn submit(self, request: RequestView) -> MessageReceiverView {
        if self.reply(request) == Reply::Accepted {
            MessageReceiverView { queue: self.queue.push(request.payload->0), ..self }
        } else {
            self
        }
    }

    /// The relay after the oldest message, if there is one, was taken out.
    pub open spec fn take(self) -> MessageReceiverView {
        if self.queue.len() > 0 {
            MessageReceiverView { queue: self.queue.drop_first(), ..self }
        } else {
            self
        }
    }

    /// The relay once stopped. What it still holds can be taken out;
    /// nothing more comes in.
    pub open spec fn stop(self) -> MessageReceiverView {
        MessageReceiverView { listening: false, ..self }
    }

    /// The relay after `requests`, oldest first.
    pub open spec fn serve(self, requests: Seq<RequestView>) -> MessageReceiverView
        decreases requests.len(),
    {
        if requests.len() == 0 {
            self
        } else {
            self.submit(requests[0]).serve(requests.drop_first())
        }
    }
}

/// The queue behind a relay, with the rule that guards it.
pub struct MessageReceiver {
    options: MessageReceiverOptions,
    listening: bool,
    queue: VecDeque<Message>,
}

impl View for MessageReceiver {
    type V = MessageReceiverView;

    closed spec fn view(&self) -> MessageReceiverView {
        MessageReceiverView {
            port: self.options.port,
            server_id: self.options.server_id@,
            listening: self.listening,
            queue: self.queue.deep_view(),
        }
    }
}

impl MessageReceiver {
    /// A relay that does not listen yet.
    pub fn new(options: MessageReceiverOptions) -> (relay: MessageReceiver)
        ensures
            relay@ == MessageReceiverView::idle(options.port, options.server_id@),
    {
        let queue: VecDeque<Message> = VecDeque::new();
        assert(queue.deep_view() =~= Seq::<MessageView>::empty());
        MessageReceiver { options, listening: false, queue }
    }

    /// A listening relay with an empty queue.
    pub fn start(options: MessageReceiverOptions) -> (relay: MessageReceiver)
        ensures
            relay@ == MessageReceiverView::start(options.port, options.server_id@),
    {
        let queue: VecDeque<Message> = VecDeque::new();
        assert(queue.deep_view() =~= Seq::<MessageView>::empty());
        MessageReceiver { options, listening: true, queue }
    }

    /// Lets `request` in if the relay listens, the token is this
    /// session's and the body is a message; says which it was.
    pub fn submit(&mut self, request: Request) -> (reply: Reply)
        ensures
            reply == old(self)@.reply(request@),
            final(self)@ == old(self)@.submit(request@),
    {
        if !self.listening {
            return Reply::Unavailable;
        }
        let authorized = match &request.token {
            Some(token) => *token == self.options.server_id,
            None => false,
        };
        if !authorized {
            return Reply::Unauthorized;
        }
        match request.payload {
            Some(message) => {
                if message.is_well_formed() {
                    self.queue.push_back(message);
                    assert(self.queue.deep_view() =~= old(self).queue.deep_view().push(message@));
                    Reply::Accepted
                } else {
                    Reply::Malformed
                }
            },
            None => Reply::Malformed,
        }
    }

    /// Takes the oldest message out of the queue, if there is one.
    pub fn take(&mut self) -> (message: Option<Message>)
        ensures
            final(self)@ == old(self)@.take(),
            match message {
                Some(message) => old(self)@.queue.len() > 0 && message@ == old(self)@.queue[0],
                None => old(self)@.queue.len() == 0,
            },
    {
        let message = self.queue.pop_front();
        assert(self.queue.deep_view() =~= old(self)@.take().queue);
        message
    }

    /// Whether the relay lets requests in.
    pub fn is_listening(&self) -> (listening: bool)
        ensures
            listening == self@.listening,
    {
        self.listening
    }

    /// How many messages wait in the queue.
    pub fn pending(&self) -> (count: usize)
        ensures
            count == self@.queue.len(),
    {
        assert(self.queue.deep_view().len() == self.queue@.len());
        self.queue.len()
    }

    /// Stops listening. Stopping a relay that is stopped, or that never
    /// listened, changes nothing.
    pub fn stop(&mut self)
        ensures
            final(self)@ == old(self)@.stop(),
    {
        self.listening = false;
    }
}

} // verus!
