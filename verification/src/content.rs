//! What a tool call hands back: content items tagged with their audience,
//! and the errors a call can end in.

use vstd::prelude::*;
use vstd::string::StringExecFns;

verus! {

/// A consumer of tool results.
#[derive(Clone, Copy, Debug, PartialEq, Eq, Structural)]
pub enum Role {
    /// The human operator.
    User,
    /// The automated agent.
    Assistant,
}

/// What a content item carries.
#[derive(Clone, Debug)]
pub enum Body {
    /// Plain text.
    Text(String),
    /// The text of a resource, with the address of the resource.
    Resource { uri: String, text: String },
    /// An encoded image, with its media type.
    Image { data: String, mime_type: String },
}

/// The mathematical model of a `Body`.
pub enum BodyView {
    Text(Seq<char>),
    Resource { uri: Seq<char>, text: Seq<char> },
    Image { data: Seq<char>, mime_type: Seq<char> },
}

impl View for Body {
    type V = BodyView;

    open spec fn view(&self) -> BodyView {
        match self {
            Body::Text(text) => BodyView::Text(text@),
            Body::Resource { uri, text } => BodyView::Resource { uri: uri@, text: text@ },
            Body::Image { data, mime_type } => BodyView::Image {
                data: data@,
                mime_type: mime_type@,
            },
        }
    }
}

/// The highest display priority, in hundredths.
pub const MAX_PRIORITY: u8 = 100;

/// One item of a tool result.
///
/// An item without an audience is meant for every consumer. The priority is
/// given in hundredths, from 0 (supplementary) to 100 (most important).
#[derive(Clone, Debug)]
pub struct Content {
    pub body: Body,
    pub audience: Option<Vec<Role>>,
    pub priority: Option<u8>,
}

/// The mathematical model of a `Content`.
pub struct ContentView {
    pub body: BodyView,
    pub audience: Option<Seq<Role>>,
    pub priority: Option<int>,
}

impl ContentView {
    /// A text item for every consumer, without a priority.
    pub open spec fn text(text: Seq<char>) -> ContentView {
        ContentView { body: BodyView::Text(text), audience: None, priority: None }
    }

    /// A resource item for every consumer, without a priority.
    pub open spec fn resource(uri: Seq<char>, text: Seq<char>) -> ContentView {
        ContentView { body: BodyView::Resource { uri, text }, audience: None, priority: None }
    }

    /// An image item for every consumer, without a priority.
    pub open spec fn image(data: Seq<char>, mime_type: Seq<char>) -> ContentView {
        ContentView { body: BodyView::Image { data, mime_type }, audience: None, priority: None }
    }

    /// The same item, meant for `role` alone.
    pub open spec fn only_for(self, role: Role) -> ContentView {
        ContentView { audience: Some(seq![role]), ..self }
    }

    /// The same item, with the priority `hundredths`.
    pub open spec fn ranked(self, hundredths: int) -> ContentView {
        ContentView { priority: Some(hundredths), ..self }
    }

    /// Whether the item is meant for `role`: it names the role, or it names
    /// no audience at all.
    pub open spec fn is_for(self, role: Role) -> bool {
        match self.audience {
            Some(roles) => roles.contains(role),
            None => true,
        }
    }
}

impl View for Content {
    type V = ContentView;

    open spec fn view(&self) -> ContentView {
        ContentView {
            body: self.body@,
            audience: match self.audience {
                Some(roles) => Some(roles@),
                None => None,
            },
            priority: match self.priority {
                Some(p) => Some(p as int),
                None => None,
            },
        }
    }
}

/// The models of a sequence of content items.
pub open spec fn content_views(items: Seq<Content>) -> Seq<ContentView> {
    Seq::new(items.len(), |i: int| items[i]@)
}

impl Content {
    /// A text item for every consumer, without a priority.
    pub fn text(text: String) -> (c: Content)
        ensures
            c@ == ContentView::text(text@),
    {
        Content { body: Body::Text(text), audience: None, priority: None }
    }

    /// A resource item for every consumer, without a priority.
    pub fn embedded_text(uri: String, text: String) -> (c: Content)
        ensures
            c@ == ContentView::resource(uri@, text@),
    {
        Content { body: Body::Resource { uri, text }, audience: None, priority: None }
    }

    /// An image item for every consumer, without a priority.
    pub fn image(data: String, mime_type: String) -> (c: Content)
        ensures
            c@ == ContentView::image(data@, mime_type@),
    {
        Content { body: Body::Image { data, mime_type }, audience: None, priority: None }
    }

    /// The same item, meant for `role` alone.
    pub fn with_audience(self, role: Role) -> (c: Content)
        ensures
            c@ == self@.only_for(role),
    {
        let mut roles: Vec<Role> = Vec::new();
        roles.push(role);
        Content { body: self.body, audience: Some(roles), priority: self.priority }
    }

    /// The same item, with the priority `hundredths`.
    pub fn with_priority(self, hundredths: u8) -> (c: Content)
        requires
            hundredths <= MAX_PRIORITY,
        ensures
            c@ == self@.ranked(hundredths as int),
    {
        Content { body: self.body, audience: self.audience, priority: Some(hundredths) }
    }

    /// The roles the item is meant for; `None` means every consumer.
    pub fn audience(&self) -> (r: Option<&Vec<Role>>)
        ensures
            match r {
                Some(roles) => self@.audience == Some(roles@),
                None => self@.audience is None,
            },
    {
        match &self.audience {
            Some(roles) => Some(roles),
            None => None,
        }
    }

    /// The priority in hundredths, if the item has one.
    pub fn priority(&self) -> (r: Option<u8>)
        ensures
            r == self.priority,
    {
        self.priority
    }

    /// The text of a text item.
    pub fn as_text(&self) -> (r: Option<&str>)
        ensures
            match r {
                Some(text) => self@.body == BodyView::Text(text@),
                None => !(self@.body is Text),
            },
    {
        match &self.body {
            Body::Text(text) => Some(text.as_str()),
            _ => None,
        }
    }

    /// Whether the item is meant for `role`: it names the role, or it names
    /// no audience at all.
    pub fn is_for(&self, role: Role) -> (r: bool)
        ensures
            r == self@.is_for(role),
    {
        match &self.audience {
            None => true,
            Some(roles) => {
                let mut i: usize = 0;
                while i < roles.len()
                    invariant
                        i <= roles.len(),
                        self@.audience == Some(roles@),
                        forall|k: int| 0 <= k < i ==> roles@[k] != role,
                    decreases roles.len() - i,
                {
                    if roles[i] == role {
                        return true;
                    }
                    i = i + 1;
                }
                false
            },
        }
    }
}

/// The two items `first` and `second`, in this order.
pub fn pair(first: Content, second: Content) -> (items: Vec<Content>)
    ensures
        content_views(items@) == seq![first@, second@],
{
    let mut items: Vec<Content> = Vec::new();
    items.push(first);
    items.push(second);
    items
}

/// The one item `only`.
pub fn single(only: Content) -> (items: Vec<Content>)
    ensures
        content_views(items@) == seq![only@],
{
    let mut items: Vec<Content> = Vec::new();
    items.push(only);
    items
}

/// Why a tool call failed.
#[derive(Clone, Debug)]
pub enum ToolError {
    /// The parameters of the call are missing or malformed.
    InvalidParameters(String),
    /// The operation was refused or failed while it ran.
    ExecutionError(String),
    /// No tool has the name that was asked for.
    NotFound(String),
}

/// The mathematical model of a `ToolError`.
pub enum ToolErrorView {
    InvalidParameters(Seq<char>),
    ExecutionError(Seq<char>),
    NotFound(Seq<char>),
}

impl View for ToolError {
    type V = ToolErrorView;

    open spec fn view(&self) -> ToolErrorView {
        match self {
            ToolError::InvalidParameters(m) => ToolErrorView::InvalidParameters(m@),
            ToolError::ExecutionError(m) => ToolErrorView::ExecutionError(m@),
            ToolError::NotFound(m) => ToolErrorView::NotFound(m@),
        }
    }
}

impl ToolErrorView {
    /// The message the error carries.
    pub open spec fn message(self) -> Seq<char> {
        match self {
            ToolErrorView::InvalidParameters(m) => m,
            ToolErrorView::ExecutionError(m) => m,
            ToolErrorView::NotFound(m) => m,
        }
    }

    /// The error written out: its kind, then its message.
    pub open spec fn rendered(self) -> Seq<char> {
        match self {
            ToolErrorView::InvalidParameters(m) => "Invalid parameters: "@ + m,
            ToolErrorView::ExecutionError(m) => "Execution failed: "@ + m,
            ToolErrorView::NotFound(m) => "Tool not found: "@ + m,
        }
    }
}

impl ToolError {
    /// The message the error carries.
    pub fn message(&self) -> (m: &str)
        ensures
            m@ == self@.message(),
    {
        match self {
            ToolError::InvalidParameters(m) => m.as_str(),
            ToolError::ExecutionError(m) => m.as_str(),
            ToolError::NotFound(m) => m.as_str(),
        }
    }

    /// The error written out: its kind, then its message.
    pub fn to_string(&self) -> (s: String)
        ensures
            s@ == self@.rendered(),
    {
        match self {
            ToolError::InvalidParameters(m) => String::from_str("Invalid parameters: ").concat(
                m.as_str(),
            ),
            ToolError::ExecutionError(m) => String::from_str("Execution failed: ").concat(
                m.as_str(),
            ),
            ToolError::NotFound(m) => String::from_str("Tool not found: ").concat(m.as_str()),
        }
    }
}

/// The model of the outcome of a tool call.
pub open spec fn outcome_view(r: Result<Vec<Content>, ToolError>) -> Result<
    Seq<ContentView>,
    ToolErrorView,
> {
    match r {
        Ok(items) => Ok(content_views(items@)),
        Err(e) => Err(e@),
    }
}

} // verus!
