//! The ambient context that every log entry carries: correlation, user and
//! session identifiers and free-form properties.

use vstd::prelude::*;
use crate::property::{upsert, Properties, PropertiesView, PropertyValue};
use crate::text::{clone_opt_text, opt_text};

verus! {

/// Whether a text has the shape of a hyphenated UUID: 36 characters, with
/// hyphens after the groups of 8, 4, 4 and 4.
pub open spec fn is_hyphenated_id(text: Seq<char>) -> bool {
    &&& text.len() == 36
    &&& text[8] == '-'
    &&& text[13] == '-'
    &&& text[18] == '-'
    &&& text[23] == '-'
}

/// Correlation metadata attached to every event.
#[derive(Debug)]
pub struct LogContext {
    pub correlation_id: Option<String>,
    pub user_id: Option<String>,
    pub session_id: Option<String>,
    pub properties: Properties,
}

/// What a [`LogContext`] holds, as plain text.
pub ghost struct LogContextView {
    pub correlation_id: Option<Seq<char>>,
    pub user_id: Option<Seq<char>>,
    pub session_id: Option<Seq<char>>,
    pub properties: PropertiesView,
}

impl View for LogContext {
    type V = LogContextView;

    open spec fn view(&self) -> LogContextView {
        LogContextView {
            correlation_id: opt_text(self.correlation_id),
            user_id: opt_text(self.user_id),
            session_id: opt_text(self.session_id),
            properties: self.properties@,
        }
    }
}

impl Clone for LogContext {
    fn clone(&self) -> (copy: Self)
        ensures
            copy@ == self@,
    {
        LogContext {
            correlation_id: clone_opt_text(&self.correlation_id),
            user_id: clone_opt_text(&self.user_id),
            session_id: clone_opt_text(&self.session_id),
            properties: self.properties.clone(),
        }
    }
}

impl LogContext {
    /// A context with a fresh correlation id and nothing else.
    pub fn new() -> (context: Self)
        ensures
            context@.correlation_id matches Some(id) && is_hyphenated_id(id),
            context@.user_id is None,
            context@.session_id is None,
            context@.properties.len() == 0,
    {
        LogContext {
            correlation_id: Some(fresh_id()),
            user_id: None,
            session_id: None,
            properties: Properties::new(),
        }
    }

    /// The context with the user id set.
    pub fn with_user_id(self, user_id: String) -> (context: Self)
        ensures
            context@ == (LogContextView { user_id: Some(user_id@), ..self@ }),
    {
        let mut context = self;
        context.user_id = Some(user_id);
        context
    }

    /// The context with the session id set.
    pub fn with_session_id(self, session_id: String) -> (context: Self)
        ensures
            context@ == (LogContextView { session_id: Some(session_id@), ..self@ }),
    {
        let mut context = self;
        context.session_id = Some(session_id);
        context
    }

    /// The context with `key` given `value`; a value that the key had is replaced.
    pub fn with_property(self, key: String, value: PropertyValue) -> (context: Self)
        ensures
            context@ == (LogContextView {
                properties: upsert(self@.properties, key@, value@),
                ..self@
            }),
    {
        let mut context = self;
        context.properties.insert(key, value);
        context
    }

    /// The context with the correlation id replaced.
    pub fn with_correlation_id(self, correlation_id: String) -> (context: Self)
        ensures
            context@ == (LogContextView { correlation_id: Some(correlation_id@), ..self@ }),
    {
        let mut context = self;
        context.correlation_id = Some(correlation_id);
        context
    }
}

/// A context for a caller that holds no logger: a new one, with a fresh
/// correlation id and nothing else.
pub fn get_logger_context() -> (context: LogContext)
    ensures
        context@.correlation_id matches Some(id) && is_hyphenated_id(id),
        context@.user_id is None,
        context@.session_id is None,
        context@.properties.len() == 0,
{
    LogContext::new()
}

/// Calls `uuid::Uuid::new_v4` and renders the identifier with its `Display`,
/// the hyphenated lower-case form. The identifier is random; claimed is only
/// the shape of the text. uuid panics where the system has no random bytes to
/// give.
#[verifier::external_body]
fn fresh_id() -> (id: String)
    ensures
        is_hyphenated_id(id@),
{
    uuid::Uuid::new_v4().to_string()
}

} // verus!
