use vstd::prelude::*;

verus! {

/// One pending notification: its user-visible content and its timeout.
pub struct Message {
    pub content: String,
    pub timeout_ms: u64,
}

/// The notification stack: a boundary component that holds pending messages.
/// The surrounding runtime raises a UI-refresh signal after every push.
pub struct Notify {
    pub messages: Vec<Message>,
}

impl Notify {
    pub fn new() -> (n: Notify)
        ensures
            n.messages@.len() == 0,
    {
        Notify { messages: Vec::new() }
    }

    /// Appends a message. While a message is already pending, the new
    /// message's timeout is extended by the elapsed time since the first
    /// pending message was created, which the caller measures and hands in;
    /// with nothing pending the timeout is kept as given.
    pub fn push(&mut self, msg: Message, elapsed_ms: u64)
        requires
            old(self).messages@.len() > 0 ==> msg.timeout_ms + elapsed_ms <= u64::MAX,
        ensures
            final(self).messages@.len() == old(self).messages@.len() + 1,
            final(self).messages@.drop_last() == old(self).messages@,
            final(self).messages@.last().content == msg.content,
            old(self).messages@.len() == 0 ==> final(self).messages@.last().timeout_ms
                == msg.timeout_ms,
            old(self).messages@.len() > 0 ==> final(self).messages@.last().timeout_ms
                == msg.timeout_ms + elapsed_ms,
    {
        let add: u64 = if self.messages.len() == 0 {
            0
        } else {
            elapsed_ms
        };
        let m = Message { content: msg.content, timeout_ms: msg.timeout_ms + add };
        self.messages.push(m);
        proof {
            assert(self.messages@.drop_last() =~= old(self).messages@);
        }
    }
}

} // verus!
