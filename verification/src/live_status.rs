use vstd::prelude::*;

verus! {

/// How many seconds pass between two ticks of the poll.
pub const LIVE_UPDATE_INTERVAL_SECONDS: u64 = 2;

/// The identifier that the messaging platform gave an announcement.
#[derive(Debug, Clone, Copy, PartialEq, Eq, Hash, Structural)]
pub struct MessageId(pub i32);

impl MessageId {
    /// The identifier that a persisted row stands for: the low 32 bits of
    /// its column.
    pub fn from_row(id: i64) -> (message: MessageId)
        ensures
            message == MessageId(id as i32),
    {
        MessageId(#[verifier::truncate] (id as i32))
    }
}

/// Which announcement, if any, is kept in step with the store.
#[derive(Debug, Clone, Copy, PartialEq, Eq, Structural)]
pub enum LiveStatus {
    /// No announcement is tracked.
    Unpublished,
    /// The announcement with this identifier is the live one.
    Published(MessageId),
}

impl LiveStatus {
    /// The state at startup: publishing resumes with the identifier that
    /// was persisted, if one was.
    pub fn restore(persisted: Option<MessageId>) -> (state: LiveStatus)
        ensures
            state.spec_current() == persisted,
    {
        match persisted {
            Some(id) => LiveStatus::Published(id),
            None => LiveStatus::Unpublished,
        }
    }

    pub open spec fn spec_current(self) -> Option<MessageId> {
        match self {
            LiveStatus::Published(id) => Some(id),
            LiveStatus::Unpublished => None,
        }
    }

    /// The identifier of the live announcement, which is also what is to
    /// be persisted: `None` where nothing is published.
    #[verifier::when_used_as_spec(spec_current)]
    pub fn current(self) -> (id: Option<MessageId>)
        ensures
            id == self.spec_current(),
    {
        match self {
            LiveStatus::Published(id) => Some(id),
            LiveStatus::Unpublished => None,
        }
    }

    /// Starts tracking a newly created announcement. This is a transition
    /// out of `Unpublished` only: where an announcement is tracked already
    /// the state stays as it is. Says whether the transition was made.
    pub fn publish(&mut self, id: MessageId) -> (published: bool)
        ensures
            published == (*old(self) == LiveStatus::Unpublished),
            *final(self) == if published {
                LiveStatus::Published(id)
            } else {
                *old(self)
            },
    {
        match *self {
            LiveStatus::Unpublished => {
                *self = LiveStatus::Published(id);
                true
            },
            LiveStatus::Published(_) => false,
        }
    }

    /// The announcement to edit in place when new content is to be shown:
    /// the tracked one, or none where nothing is published. The state never
    /// changes by republishing.
    pub fn republish(&self) -> (target: Option<MessageId>)
        ensures
            target == self.spec_current(),
    {
        self.current()
    }

    /// Stops tracking. Returns the identifier that was tracked, if any.
    pub fn unpublish(&mut self) -> (dropped: Option<MessageId>)
        ensures
            *final(self) == LiveStatus::Unpublished,
            dropped == old(self).spec_current(),
    {
        let dropped = self.current();
        *self = LiveStatus::Unpublished;
        dropped
    }
}

/// How a request for the status is answered.
#[derive(Debug, Clone, Copy, PartialEq, Eq, Structural)]
pub enum StatusReply {
    /// By pointing to the live announcement with this identifier.
    Pinned(MessageId),
    /// By rendering the status afresh.
    Rendered,
}

impl LiveStatus {
    /// Decides how a request for the status is answered. In the public
    /// chat the live announcement, where there is one, already says it all;
    /// anywhere else, and where nothing is published, the status is
    /// rendered afresh.
    pub fn status_reply(self, in_public_chat: bool) -> (reply: StatusReply)
        ensures
            reply == match self {
                LiveStatus::Published(id) if in_public_chat => StatusReply::Pinned(id),
                _ => StatusReply::Rendered,
            },
    {
        match self {
            LiveStatus::Published(id) => if in_public_chat {
                StatusReply::Pinned(id)
            } else {
                StatusReply::Rendered
            },
            LiveStatus::Unpublished => StatusReply::Rendered,
        }
    }
}

/// What the poller remembers between ticks: the status text it rendered
/// last, if it has rendered any.
#[derive(Debug)]
pub struct LivePoller {
    last: Option<String>,
}

impl View for LivePoller {
    type V = Option<Seq<char>>;

    closed spec fn view(&self) -> Option<Seq<char>> {
        match self.last {
            Some(text) => Some(text@),
            None => None,
        }
    }
}

/// Whether a freshly rendered text has to go out, given the text that was
/// rendered last: there was none, or it was another text.
pub open spec fn differs(last: Option<Seq<char>>, rendered: Seq<char>) -> bool {
    match last {
        Some(text) => text != rendered,
        None => true,
    }
}

impl LivePoller {
    /// A poller that has rendered nothing yet.
    pub fn new() -> (poller: LivePoller)
        ensures
            poller@ == None::<Seq<char>>,
    {
        LivePoller { last: None }
    }

    /// One tick of the poll. `rendered` is the status text of this tick, or
    /// `None` where rendering failed; `state` is the state of publishing.
    ///
    /// A failed rendering leaves everything as it is. Otherwise the text is
    /// remembered, and where it differs from the one remembered before, the
    /// result names the announcement to edit: the live one, or none where
    /// nothing is published. The poll never creates an announcement.
    pub fn tick(&mut self, rendered: Option<String>, state: LiveStatus) -> (target: Option<
        MessageId,
    >)
        ensures
            match rendered {
                Some(text) => {
                    &&& final(self)@ == Some(text@)
                    &&& target == if differs(old(self)@, text@) {
                        state.spec_current()
                    } else {
                        None::<MessageId>
                    }
                },
                None => final(self)@ == old(self)@ && target.is_none(),
            },
    {
        match rendered {
            Some(text) => {
                let fresh = match &self.last {
                    Some(last) => !(*last == text),
                    None => true,
                };
                self.last = Some(text);
                if fresh {
                    state.republish()
                } else {
                    None
                }
            },
            None => None,
        }
    }
}

/// Unchanged content is never published twice: once a text was rendered,
/// a tick that renders the same text again edits nothing, whatever the
/// state of publishing, and a tick that renders another text edits the
/// live announcement where there is one.
pub proof fn law_no_redundant_republish(first: Seq<char>, second: Seq<char>)
    ensures
        !differs(Some(first), first),
        differs(None, first),
        second != first ==> differs(Some(first), second),
{
}

} // verus!
