//! The message feed between a user interface and the two network roles: an
//! ordered log of what was sent and received, and an ordered queue of the
//! texts that wait to be sent.
//!
//! The feed is one owned value. Roles that run on different threads share
//! it behind a lock of their choosing; every operation here takes the feed
//! from one whole state to the next.

use crate::client::SessionError;
use std::collections::VecDeque;
use vstd::prelude::*;
use vstd::string::StrSliceExecFns;
use vstd::string::StringExecFns;

verus! {

/// The marker in front of a text that a peer sent: `Peer: `.
pub open spec fn peer_prefix() -> Seq<char> {
    seq!['P', 'e', 'e', 'r', ':', ' ']
}

/// Whether a character is white space, as std's `char::is_whitespace`
/// tells it.
pub uninterp spec fn white_space(c: char) -> bool;

/// Whether a text holds nothing but white space. An empty text is blank.
pub open spec fn blank(text: Seq<char>) -> bool {
    forall|i: int| 0 <= i < text.len() ==> white_space(#[trigger] text[i])
}

/// `char::is_whitespace` of std: whether the character has the Unicode
/// property `White_Space`.
#[verifier::external_body]
fn is_white_space(c: char) -> (r: bool)
    ensures
        r == white_space(c),
{
    c.is_whitespace()
}

/// Whether a text holds nothing but white space.
pub fn is_blank(text: &str) -> (r: bool)
    ensures
        r == blank(text@),
{
    let n = text.unicode_len();
    let mut i: usize = 0;
    while i < n
        invariant
            n == text@.len(),
            i <= n,
            forall|j: int| 0 <= j < i ==> white_space(#[trigger] text@[j]),
        decreases n - i,
    {
        if !is_white_space(text.get_char(i)) {
            return false;
        }
        i = i + 1;
    }
    true
}

/// What became of a submitted text.
#[derive(Clone, Copy, Debug, PartialEq, Eq, Structural)]
pub enum Submission {
    /// The text was logged as sent and, while the channel is open, queued.
    Taken,
    /// The text is blank: nothing was logged or queued.
    RefusedBlank,
}

/// One record of the log.
#[derive(Clone, Debug)]
pub struct Message {
    pub text: String,
    /// Whether this side sent the text; otherwise it was received.
    pub is_sent: bool,
}

impl View for Message {
    type V = (Seq<char>, bool);

    open spec fn view(&self) -> (Seq<char>, bool) {
        (self.text@, self.is_sent)
    }
}

/// What the queue of outbound texts holds for its consumer.
#[derive(Debug)]
pub enum Outbound {
    /// The text that was submitted first among those still waiting.
    Next(String),
    /// Nothing waits, and more may come.
    Empty,
    /// Nothing waits, and nothing will come: the channel is closed.
    Closed,
}

/// The feed: the log, the queue of outbound texts and whether the queue's
/// channel is still open, with the port that the server role listens on.
#[derive(Debug)]
pub struct ChatApp {
    messages: Vec<Message>,
    outbox: VecDeque<String>,
    channel_closed: bool,
    server_port: u16,
}

impl ChatApp {
    /// The records of the log, oldest first.
    pub closed spec fn log(&self) -> Seq<(Seq<char>, bool)> {
        self.messages@.map_values(|m: Message| m@)
    }

    /// The texts that wait to be sent, the one submitted first in front.
    pub closed spec fn pending(&self) -> Seq<Seq<char>> {
        self.outbox@.map_values(|s: String| s@)
    }

    /// Whether the channel of outbound texts is closed.
    pub closed spec fn spec_is_closed(&self) -> bool {
        self.channel_closed
    }

    /// The port that the server role listens on.
    pub closed spec fn spec_server_port(&self) -> u16 {
        self.server_port
    }

    /// An empty feed with an open channel.
    pub fn new(server_port: u16) -> (app: ChatApp)
        ensures
            app.log() == Seq::<(Seq<char>, bool)>::empty(),
            app.pending() == Seq::<Seq<char>>::empty(),
            !app.spec_is_closed(),
            app.spec_server_port() == server_port,
    {
        let app = ChatApp {
            messages: Vec::new(),
            outbox: VecDeque::new(),
            channel_closed: false,
            server_port,
        };
        assert(app.log() =~= Seq::<(Seq<char>, bool)>::empty());
        assert(app.pending() =~= Seq::<Seq<char>>::empty());
        app
    }

    /// The port that the server role listens on.
    #[verifier::when_used_as_spec(spec_server_port)]
    pub fn server_port(&self) -> (port: u16)
        ensures
            port == self.spec_server_port(),
    {
        self.server_port
    }

    /// Whether the channel of outbound texts is closed.
    #[verifier::when_used_as_spec(spec_is_closed)]
    pub fn is_closed(&self) -> (closed: bool)
        ensures
            closed == self.spec_is_closed(),
    {
        self.channel_closed
    }

    /// The records of the log, oldest first.
    pub fn messages(&self) -> (records: &Vec<Message>)
        ensures
            records@.len() == self.log().len(),
            forall|i: int| 0 <= i < records@.len() ==> (#[trigger] records@[i])@ == self.log()[i],
    {
        &self.messages
    }

    /// How many texts wait to be sent.
    pub fn pending_len(&self) -> (n: usize)
        ensures
            n == self.pending().len(),
    {
        self.outbox.len()
    }

    /// Appends one record to the log. Records are never changed or removed:
    /// the log after the call is the log before it with the whole record at
    /// its end.
    pub fn add_message(&mut self, text: String, is_sent: bool)
        ensures
            final(self).log() == old(self).log().push((text@, is_sent)),
            final(self).pending() == old(self).pending(),
            final(self).spec_is_closed() == old(self).spec_is_closed(),
            final(self).spec_server_port() == old(self).spec_server_port(),
    {
        let ghost before = self.messages@;
        let message = Message { text, is_sent };
        self.messages.push(message);
        assert(self.messages@ == before.push(message));
        assert(self.log() =~= old(self).log().push((text@, is_sent)));
    }

    /// Takes a text from the user. A blank text is refused and changes
    /// nothing; any other is logged as sent, as it was typed, and, while the
    /// channel is open, queued behind every text submitted before it.
    pub fn submit(&mut self, text: String) -> (outcome: Submission)
        ensures
            submits(*old(self), *final(self), text@, blank(text@), outcome),
    {
        let refused = is_blank(text.as_str());
        self.submit_checked(text, refused)
    }

    /// Takes a text from the user of which it is known whether it is blank.
    pub fn submit_checked(&mut self, text: String, is_blank: bool) -> (outcome: Submission)
        ensures
            submits(*old(self), *final(self), text@, is_blank, outcome),
    {
        if is_blank {
            return Submission::RefusedBlank;
        }
        if !self.channel_closed {
            let ghost before = self.outbox@;
            let queued = text.clone();
            self.outbox.push_back(queued);
            assert(self.outbox@ == before.push(queued));
            assert(self.pending() =~= old(self).pending().push(text@));
        }
        self.add_message(text, true);
        Submission::Taken
    }

    /// Hands out the text that was submitted first among those waiting, if
    /// any. An empty queue says whether more may come.
    pub fn next_outbound(&mut self) -> (next: Outbound)
        ensures
            takes(*old(self), *final(self), next),
    {
        let ghost before = self.outbox@;
        match self.outbox.pop_front() {
            Some(text) => {
                assert(self.outbox@ == before.subrange(1, before.len() as int));
                assert(self.pending() =~= old(self).pending().drop_first());
                assert(old(self).pending()[0] == text@);
                Outbound::Next(text)
            },
            None => {
                assert(self.pending() =~= old(self).pending());
                if self.channel_closed {
                    Outbound::Closed
                } else {
                    Outbound::Empty
                }
            },
        }
    }

    /// Closes the channel of outbound texts. What waits in the queue can
    /// still be taken; nothing is queued from now on.
    pub fn close_channel(&mut self)
        ensures
            final(self).spec_is_closed(),
            final(self).log() == old(self).log(),
            final(self).pending() == old(self).pending(),
            final(self).spec_server_port() == old(self).spec_server_port(),
    {
        self.channel_closed = true;
    }

    /// Logs a text that a peer sent to the server role, under its marker.
    pub fn record_peer_message(&mut self, message: &str)
        ensures
            final(self).log() == old(self).log().push((peer_prefix() + message@, false)),
            final(self).pending() == old(self).pending(),
            final(self).spec_is_closed() == old(self).spec_is_closed(),
            final(self).spec_server_port() == old(self).spec_server_port(),
    {
        let mut text = String::from_str("Peer: ");
        proof {
            reveal_strlit("Peer: ");
            assert("Peer: "@ =~= peer_prefix());
        }
        text.append(message);
        self.add_message(text, false);
    }

    /// Takes the outcome of one send. A response is logged as received; a
    /// failure leaves the log as it is and is handed back for the operator.
    pub fn record_response(&mut self, outcome: Result<String, SessionError>) -> (failure: Option<
        SessionError,
    >)
        ensures
            final(self).pending() == old(self).pending(),
            final(self).spec_is_closed() == old(self).spec_is_closed(),
            final(self).spec_server_port() == old(self).spec_server_port(),
            match outcome {
                Ok(response) => failure is None && final(self).log() == old(self).log().push(
                    (response@, false),
                ),
                Err(e) => failure == Some(e) && final(self).log() == old(self).log(),
            },
    {
        match outcome {
            Ok(response) => {
                self.add_message(response, false);
                None
            },
            Err(e) => Some(e),
        }
    }
}

/// Whether `after` and `outcome` are what a submission of `text` makes of
/// the feed `before`, where `is_blank` says whether the text is blank.
pub open spec fn submits(
    before: ChatApp,
    after: ChatApp,
    text: Seq<char>,
    is_blank: bool,
    outcome: Submission,
) -> bool {
    &&& after.spec_is_closed() == before.spec_is_closed()
    &&& after.spec_server_port() == before.spec_server_port()
    &&& if is_blank {
        outcome == Submission::RefusedBlank && after.log() == before.log() && after.pending()
            == before.pending()
    } else {
        outcome == Submission::Taken && after.log() == before.log().push((text, true))
            && after.pending() == if before.spec_is_closed() {
            before.pending()
        } else {
            before.pending().push(text)
        }
    }
}

/// Whether `after` and `next` are what `next_outbound` makes of the feed
/// `before`.
pub open spec fn takes(before: ChatApp, after: ChatApp, next: Outbound) -> bool {
    &&& after.log() == before.log()
    &&& after.spec_is_closed() == before.spec_is_closed()
    &&& after.spec_server_port() == before.spec_server_port()
    &&& if before.pending().len() > 0 {
        next is Next && next->Next_0@ == before.pending()[0] && after.pending()
            == before.pending().drop_first()
    } else {
        after.pending() == before.pending() && if before.spec_is_closed() {
            next is Closed
        } else {
            next is Empty
        }
    }
}

/// The queue keeps the order of submission. After two texts were taken on
/// an open channel the first text stands directly in front of the second, both
/// behind whatever waited before; taken from an empty queue, the first text
/// comes out first and the second next.
pub proof fn lemma_submission_order(
    s0: ChatApp,
    m1: Seq<char>,
    s1: ChatApp,
    m2: Seq<char>,
    s2: ChatApp,
    s3: ChatApp,
    first: Outbound,
    s4: ChatApp,
    second: Outbound,
)
    requires
        !s0.spec_is_closed(),
        submits(s0, s1, m1, false, Submission::Taken),
        submits(s1, s2, m2, false, Submission::Taken),
        takes(s2, s3, first),
        takes(s3, s4, second),
    ensures
        s2.pending() == s0.pending() + seq![m1, m2],
        s0.pending().len() == 0 ==> first is Next && first->Next_0@ == m1 && second is Next
            && second->Next_0@ == m2 && s4.pending().len() == 0,
{
    assert(s2.pending() =~= s0.pending() + seq![m1, m2]);
    if s0.pending().len() == 0 {
        assert(s2.pending()[0] == m1);
        assert(s3.pending() =~= seq![m2]);
        assert(s3.pending()[0] == m2);
        assert(s4.pending() =~= Seq::<Seq<char>>::empty());
    }
}

/// A reader of the log sees whole records only, and what it has seen stays.
/// When two records are appended one after the other, by whichever roles,
/// the log that a reader finds between the two appends is the earlier log
/// with the first record whole at its end, and the log after both holds
/// the two records whole, in the order of the appends, behind everything
/// that was there before.
pub proof fn lemma_appends_are_whole(
    s0: ChatApp,
    first: (Seq<char>, bool),
    s1: ChatApp,
    second: (Seq<char>, bool),
    s2: ChatApp,
)
    requires
        s1.log() == s0.log().push(first),
        s2.log() == s1.log().push(second),
    ensures
        s0.log().is_prefix_of(s1.log()),
        s1.log().is_prefix_of(s2.log()),
        s1.log().len() == s0.log().len() + 1,
        s1.log().last() == first,
        s2.log() == s0.log() + seq![first, second],
        forall|i: int| 0 <= i < s0.log().len() ==> s2.log()[i] == s0.log()[i],
{
    assert(s2.log() =~= s0.log() + seq![first, second]);
}

} // verus!
