//! Rules of moderation: what a change of status is logged as, and who may
//! still post to a topic.

use vstd::prelude::*;

verus! {

/// The kinds of entry in the moderation log.
#[derive(Debug, Clone, Copy, PartialEq, Eq, Structural)]
pub enum LogType {
    CloseTopic,
    UncloseTopic,
    HideTopic,
    UnhideTopic,
    SuspendTopic,
    UnsuspendTopic,
    HideComment,
    UnhideComment,
    PinTopic,
    UnpinTopic,
}

impl LogType {
    /// The number under which the log stores this kind: 1 to 10, in the
    /// order of declaration.
    pub open spec fn code_of(self) -> i32 {
        match self {
            LogType::CloseTopic => 1,
            LogType::UncloseTopic => 2,
            LogType::HideTopic => 3,
            LogType::UnhideTopic => 4,
            LogType::SuspendTopic => 5,
            LogType::UnsuspendTopic => 6,
            LogType::HideComment => 7,
            LogType::UnhideComment => 8,
            LogType::PinTopic => 9,
            LogType::UnpinTopic => 10,
        }
    }

    /// The number under which the log stores this kind.
    pub fn code(&self) -> (r: i32)
        ensures
            r == self.code_of(),
            1 <= r <= 10,
    {
        match self {
            LogType::CloseTopic => 1,
            LogType::UncloseTopic => 2,
            LogType::HideTopic => 3,
            LogType::UnhideTopic => 4,
            LogType::SuspendTopic => 5,
            LogType::UnsuspendTopic => 6,
            LogType::HideComment => 7,
            LogType::UnhideComment => 8,
            LogType::PinTopic => 9,
            LogType::UnpinTopic => 10,
        }
    }
}

/// Different kinds are stored under different numbers.
pub proof fn lemma_codes_differ(a: LogType, b: LogType)
    ensures
        a.code_of() == b.code_of() ==> a == b,
{
}

/// What a log entry is about: the number of the topic or comment.
#[derive(Debug, Clone, Copy, PartialEq, Eq, Structural)]
pub struct LogContent {
    pub target: i32,
}

/// A change of a topic's status. A field that is `None` is left as it is.
#[derive(Debug, Clone, Copy, PartialEq, Eq, Structural)]
pub struct TopicForm {
    pub id: i32,
    pub is_closed: Option<bool>,
    pub is_suspended: Option<bool>,
    pub is_hidden: Option<bool>,
}

impl TopicForm {
    /// The kind of entry that this change is logged as. One change makes
    /// one entry: closing or reopening comes before hiding or showing, and
    /// that before suspending or resuming. A change of nothing is not
    /// logged.
    pub open spec fn log_type_of(self) -> Option<LogType> {
        match (self.is_closed, self.is_hidden, self.is_suspended) {
            (Some(true), _, _) => Some(LogType::CloseTopic),
            (Some(false), _, _) => Some(LogType::UncloseTopic),
            (None, Some(true), _) => Some(LogType::HideTopic),
            (None, Some(false), _) => Some(LogType::UnhideTopic),
            (None, None, Some(true)) => Some(LogType::SuspendTopic),
            (None, None, Some(false)) => Some(LogType::UnsuspendTopic),
            (None, None, None) => None,
        }
    }

    /// The kind of entry that this change is logged as, if any.
    pub fn log_type(&self) -> (r: Option<LogType>)
        ensures
            r == self.log_type_of(),
    {
        if let Some(closed) = self.is_closed {
            Some(
                if closed {
                    LogType::CloseTopic
                } else {
                    LogType::UncloseTopic
                },
            )
        } else if let Some(hidden) = self.is_hidden {
            Some(
                if hidden {
                    LogType::HideTopic
                } else {
                    LogType::UnhideTopic
                },
            )
        } else if let Some(suspended) = self.is_suspended {
            Some(
                if suspended {
                    LogType::SuspendTopic
                } else {
                    LogType::UnsuspendTopic
                },
            )
        } else {
            None
        }
    }

    /// The entry's content: the topic that was changed.
    pub fn log_content(&self) -> (r: LogContent)
        ensures
            r.target == self.id,
    {
        LogContent { target: self.id }
    }
}

/// The kind of entry that hiding (`Some(true)`) or showing (`Some(false)`)
/// a comment is logged as; a change of nothing is not logged.
pub fn comment_log_type(is_hidden: Option<bool>) -> (r: Option<LogType>)
    ensures
        r == match is_hidden {
            Some(true) => Some(LogType::HideComment),
            Some(false) => Some(LogType::UnhideComment),
            None => None,
        },
{
    match is_hidden {
        Some(true) => Some(LogType::HideComment),
        Some(false) => Some(LogType::UnhideComment),
        None => None,
    }
}

/// A change to a topic is never logged as a change to a comment, nor the
/// other way round, and pinning is logged by neither.
pub proof fn lemma_log_types_keep_apart(form: TopicForm, is_hidden: Option<bool>)
    ensures
        form.log_type_of() matches Some(kind) ==> 1 <= kind.code_of() <= 6,
        (match is_hidden {
            Some(true) => Some(LogType::HideComment),
            Some(false) => Some(LogType::UnhideComment),
            None => None,
        }) matches Some(kind) ==> 7 <= kind.code_of() <= 8,
{
}

/// Why a topic takes no new comment.
#[derive(Debug, Clone, Copy, PartialEq, Eq, Structural)]
pub enum PostingDenied {
    TopicIsHidden,
    TopicIsClosed,
    TopicIsSuspended,
}

impl PostingDenied {
    /// The words of the refusal.
    pub open spec fn message_text(self) -> Seq<char> {
        match self {
            PostingDenied::TopicIsHidden => "Topic is hidden"@,
            PostingDenied::TopicIsClosed => "Topic is closed"@,
            PostingDenied::TopicIsSuspended => "Topic is suspended"@,
        }
    }

    /// The words of the refusal.
    pub fn message(&self) -> (r: &'static str)
        ensures
            r@ == self.message_text(),
    {
        match self {
            PostingDenied::TopicIsHidden => "Topic is hidden",
            PostingDenied::TopicIsClosed => "Topic is closed",
            PostingDenied::TopicIsSuspended => "Topic is suspended",
        }
    }
}

/// Why a topic in the given state takes no new comment, if it does not:
/// hidden counts before closed, closed before suspended.
pub open spec fn posting_denied(is_hidden: bool, is_closed: bool, is_suspended: bool) -> Option<
    PostingDenied,
> {
    if is_hidden {
        Some(PostingDenied::TopicIsHidden)
    } else if is_closed {
        Some(PostingDenied::TopicIsClosed)
    } else if is_suspended {
        Some(PostingDenied::TopicIsSuspended)
    } else {
        None
    }
}

/// Decides whether a topic in the given state takes a new comment.
pub fn check_posting(is_hidden: bool, is_closed: bool, is_suspended: bool) -> (r: Result<
    (),
    PostingDenied,
>)
    ensures
        match posting_denied(is_hidden, is_closed, is_suspended) {
            Some(reason) => r == Err::<(), PostingDenied>(reason),
            None => r is Ok,
        },
{
    if is_hidden {
        Err(PostingDenied::TopicIsHidden)
    } else if is_closed {
        Err(PostingDenied::TopicIsClosed)
    } else if is_suspended {
        Err(PostingDenied::TopicIsSuspended)
    } else {
        Ok(())
    }
}

/// A topic takes a comment exactly when it is neither hidden, closed nor
/// suspended.
pub proof fn lemma_posting_needs_an_open_topic(is_hidden: bool, is_closed: bool, is_suspended: bool)
    ensures
        posting_denied(is_hidden, is_closed, is_suspended) is None <==> !is_hidden && !is_closed
            && !is_suspended,
{
}

} // verus!
