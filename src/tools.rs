use vstd::prelude::*;
use crate::value::{Value, lookup, text_field};
use crate::schema::{
    FieldSchema, FieldSchemaView, FieldType, ParamError, SchemaNode, params_valid, param_message,
    reports_field,
};

verus! {

/// The metadata a tool advertises: its name, what it does, and the shape of
/// its parameters.
#[derive(Debug)]
pub struct ToolDescriptor {
    pub name: String,
    pub description: String,
    pub parameter_schema: SchemaNode,
}

pub struct ToolDescriptorView {
    pub name: Seq<char>,
    pub description: Seq<char>,
    pub parameter_schema: Seq<FieldSchemaView>,
}

impl View for ToolDescriptor {
    type V = ToolDescriptorView;

    open spec fn view(&self) -> ToolDescriptorView {
        ToolDescriptorView {
            name: self.name@,
            description: self.description@,
            parameter_schema: self.parameter_schema@,
        }
    }
}

/// One block of content in a tool's result.
#[derive(Debug)]
pub enum ContentBlock {
    Text(String),
}

/// The outcome of a successful tool call.
#[derive(Debug)]
pub struct CallResult {
    pub content: Vec<ContentBlock>,
    pub is_error: bool,
}

/// `r` is a successful result made of exactly one text block holding `text`.
pub open spec fn is_text_result(r: CallResult, text: Seq<char>) -> bool {
    &&& !r.is_error
    &&& r.content@.len() == 1
    &&& r.content@[0] matches ContentBlock::Text(t) && t@ == text
}

impl CallResult {
    /// A successful result holding a single text block.
    pub fn text_content(text: String) -> (r: CallResult)
        ensures
            is_text_result(r, text@),
    {
        CallResult { content: vec![ContentBlock::Text(text)], is_error: false }
    }
}

/// The failure a notifier reported, as sent back to the caller.
#[derive(Debug)]
pub struct NotifyError(pub String);

impl NotifyError {
    /// The text of this error.
    pub fn to_string(&self) -> (r: String)
        ensures
            r@ == self.0@,
    {
        self.0.clone()
    }
}

/// The errors a tool call can end in.
#[derive(Debug)]
pub enum CallToolError {
    /// No registered tool has the requested name.
    UnknownTool(String),
    /// The parameters do not satisfy the tool's schema.
    InvalidParams(ParamError),
    /// The tool's side effect reported a failure.
    ExecutionFailed(NotifyError),
}

/// The text of a tool call error.
pub open spec fn error_message(e: CallToolError) -> Seq<char> {
    match e {
        CallToolError::UnknownTool(name) => "Unknown tool: "@ + name@,
        CallToolError::InvalidParams(p) => param_message(p.problem, p.field@, p.expected),
        CallToolError::ExecutionFailed(n) => n.0@,
    }
}

impl CallToolError {
    /// The text of this error, as sent back to the caller.
    pub fn message(&self) -> (r: String)
        ensures
            r@ == error_message(*self),
    {
        match self {
            CallToolError::UnknownTool(name) => {
                let mut s = String::from_str("Unknown tool: ");
                s.append(name.as_str());
                s
            },
            CallToolError::InvalidParams(p) => p.message(),
            CallToolError::ExecutionFailed(n) => n.to_string(),
        }
    }
}

/// The text bound to `key`, or the empty text where there is none.
pub open spec fn text_arg(params: Seq<(String, Value)>, key: Seq<char>) -> Seq<char> {
    match lookup(params, key) {
        Some(Value::Text(s)) => s@,
        _ => Seq::empty(),
    }
}

/// The parameters of the notify tool.
pub open spec fn notify_schema() -> Seq<FieldSchemaView> {
    seq![
        FieldSchemaView {
            name: "title"@,
            field_type: FieldType::Text,
            required: true,
            description: "The title of the notification."@,
        },
        FieldSchemaView {
            name: "message"@,
            field_type: FieldType::Text,
            required: true,
            description: "The message body of the notification."@,
        },
    ]
}

/// What the notify tool advertises.
pub open spec fn notify_descriptor() -> ToolDescriptorView {
    ToolDescriptorView {
        name: "notify"@,
        description: "Sends a desktop notification with the given title and message"@,
        parameter_schema: notify_schema(),
    }
}

/// The confirmation text of a notification that was sent.
pub open spec fn success_text(title: Seq<char>, message: Seq<char>) -> Seq<char> {
    "Notification sent successfully with title: \""@ + title + "\" and message: \""@ + message
        + "\""@
}

/// The error text of a notification that failed with `cause`.
pub open spec fn failure_text(cause: Seq<char>) -> Seq<char> {
    "Failed to send notification: "@ + cause
}

/// A validated request to send a desktop notification.
#[derive(Debug)]
pub struct NotifyTool {
    title: String,
    message: String,
}

impl NotifyTool {
    pub closed spec fn title_view(&self) -> Seq<char> {
        self.title@
    }

    pub closed spec fn message_view(&self) -> Seq<char> {
        self.message@
    }

    pub fn new(title: String, message: String) -> (r: NotifyTool)
        ensures
            r.title_view() == title@,
            r.message_view() == message@,
    {
        NotifyTool { title, message }
    }

    /// The title of the notification.
    pub fn title(&self) -> (r: &String)
        ensures
            r@ == self.title_view(),
    {
        &self.title
    }

    /// The body of the notification.
    pub fn message(&self) -> (r: &String)
        ensures
            r@ == self.message_view(),
    {
        &self.message
    }

    /// The name this tool is registered under.
    pub fn tool_name() -> (r: String)
        ensures
            r@ == notify_descriptor().name,
    {
        String::from_str("notify")
    }

    /// The parameters this tool takes.
    pub fn schema() -> (r: SchemaNode)
        ensures
            r@ == notify_schema(),
    {
        let fields = vec![
            FieldSchema {
                name: String::from_str("title"),
                field_type: FieldType::Text,
                required: true,
                description: String::from_str("The title of the notification."),
            },
            FieldSchema {
                name: String::from_str("message"),
                field_type: FieldType::Text,
                required: true,
                description: String::from_str("The message body of the notification."),
            },
        ];
        let r = SchemaNode { fields };
        assert(r@ =~= notify_schema());
        r
    }

    /// What this tool advertises to clients.
    pub fn descriptor() -> (r: ToolDescriptor)
        ensures
            r@ == notify_descriptor(),
    {
        ToolDescriptor {
            name: Self::tool_name(),
            description: String::from_str(
                "Sends a desktop notification with the given title and message",
            ),
            parameter_schema: Self::schema(),
        }
    }

    /// Decodes the tool from untyped parameters: both fields must be present
    /// as text; other fields are ignored.
    pub fn decode(params: &Vec<(String, Value)>) -> (r: Result<NotifyTool, ParamError>)
        ensures
            r is Ok <==> params_valid(notify_schema(), params@),
            r matches Ok(t) ==> (t.title_view() == text_arg(params@, "title"@)
                && t.message_view() == text_arg(params@, "message"@)),
            r matches Err(e) ==> exists|k: int| reports_field(e, notify_schema(), params@, k),
    {
        let schema = Self::schema();
        match crate::schema::validate(&schema, params) {
            Err(e) => Err(e),
            Ok(()) => {
                let title_key = String::from_str("title");
                let message_key = String::from_str("message");
                assert(crate::schema::field_ok(notify_schema()[0], params@));
                assert(crate::schema::field_ok(notify_schema()[1], params@));
                let title = text_field(params, &title_key).clone();
                let message = text_field(params, &message_key).clone();
                Ok(NotifyTool { title, message })
            },
        }
    }

    /// Turns the notifier's outcome for this tool into the call's result:
    /// a confirmation echoing the title and message when it was sent, an
    /// execution failure carrying the notifier's text when it was not.
    pub fn call_tool(&self, sent: Result<(), String>) -> (r: Result<CallResult, CallToolError>)
        ensures
            sent is Ok ==> (r matches Ok(c) && is_text_result(
                c,
                success_text(self.title_view(), self.message_view()),
            )),
            sent matches Err(cause) ==> (r matches Err(CallToolError::ExecutionFailed(e)) && e.0@
                == failure_text(cause@)),
    {
        match sent {
            Ok(()) => {
                let mut text = String::from_str("Notification sent successfully with title: \"");
                text.append(self.title.as_str());
                text.append("\" and message: \"");
                text.append(self.message.as_str());
                text.append("\"");
                Ok(CallResult::text_content(text))
            },
            Err(cause) => {
                let mut text = String::from_str("Failed to send notification: ");
                text.append(cause.as_str());
                Err(CallToolError::ExecutionFailed(NotifyError(text)))
            },
        }
    }
}

/// The closed set of tools this server knows how to decode and run.
#[derive(Clone, Copy, Debug, PartialEq, Eq, Structural)]
pub enum ToolKind {
    Notify,
}

/// What a tool kind advertises.
pub open spec fn kind_descriptor(k: ToolKind) -> ToolDescriptorView {
    match k {
        ToolKind::Notify => notify_descriptor(),
    }
}

/// The kind of a decoded tool call.
pub open spec fn kind_of(v: NotificationTools) -> ToolKind {
    match v {
        NotificationTools::NotifyTool(_) => ToolKind::Notify,
    }
}

/// `v` is the call of kind `k` that `params` decode to: each field copied
/// from the parameters.
pub open spec fn decoded_as(k: ToolKind, params: Seq<(String, Value)>, v: NotificationTools) -> bool {
    match v {
        NotificationTools::NotifyTool(t) => {
            &&& k == ToolKind::Notify
            &&& t.title_view() == text_arg(params, "title"@)
            &&& t.message_view() == text_arg(params, "message"@)
        },
    }
}

/// `r` is what decoding `params` as a call of kind `k` gives: the decoded
/// call when the parameters satisfy the kind's schema, otherwise an error
/// naming the first failing field.
pub open spec fn decodes(
    k: ToolKind,
    params: Seq<(String, Value)>,
    r: Result<NotificationTools, ParamError>,
) -> bool {
    &&& (r is Ok <==> params_valid(kind_descriptor(k).parameter_schema, params))
    &&& (r matches Ok(v) ==> decoded_as(k, params, v))
    &&& (r matches Err(e) ==> exists|j: int|
        reports_field(e, kind_descriptor(k).parameter_schema, params, j))
}

impl ToolKind {
    /// The name this kind is registered under.
    pub fn name(&self) -> (r: String)
        ensures
            r@ == kind_descriptor(*self).name,
    {
        match self {
            ToolKind::Notify => NotifyTool::tool_name(),
        }
    }

    /// What this kind advertises to clients.
    pub fn descriptor(&self) -> (r: ToolDescriptor)
        ensures
            r@ == kind_descriptor(*self),
    {
        match self {
            ToolKind::Notify => NotifyTool::descriptor(),
        }
    }

    /// Decodes untyped parameters into a call of this kind.
    pub fn decode(&self, params: &Vec<(String, Value)>) -> (r: Result<NotificationTools, ParamError>)
        ensures
            decodes(*self, params@, r),
    {
        match self {
            ToolKind::Notify => match NotifyTool::decode(params) {
                Ok(t) => Ok(NotificationTools::NotifyTool(t)),
                Err(e) => Err(e),
            },
        }
    }
}

/// A decoded tool call, one variant per tool.
#[derive(Debug)]
pub enum NotificationTools {
    NotifyTool(NotifyTool),
}

/// The confirmation text of a call whose side effect succeeded.
pub open spec fn confirmation_of(v: NotificationTools) -> Seq<char> {
    match v {
        NotificationTools::NotifyTool(t) => success_text(t.title_view(), t.message_view()),
    }
}

/// `r` is the answer to call `v` whose side effect had outcome `sent`: one
/// text block confirming the call on success, an execution failure carrying
/// the side effect's text otherwise.
pub open spec fn dispatches(
    v: NotificationTools,
    sent: Result<(), String>,
    r: Result<CallResult, CallToolError>,
) -> bool {
    &&& (sent is Ok ==> (r matches Ok(c) && is_text_result(c, confirmation_of(v))))
    &&& (sent matches Err(cause) ==> (r matches Err(CallToolError::ExecutionFailed(e)) && e.0@
        == failure_text(cause@)))
}

impl NotificationTools {
    /// The name of the tool this call is for.
    pub fn tool_name(&self) -> (r: String)
        ensures
            r@ == kind_descriptor(kind_of(*self)).name,
    {
        match self {
            NotificationTools::NotifyTool(_) => NotifyTool::tool_name(),
        }
    }

    /// Answers this call, given the outcome of its side effect.
    pub fn call_tool(&self, sent: Result<(), String>) -> (r: Result<CallResult, CallToolError>)
        ensures
            dispatches(*self, sent, r),
    {
        match self {
            NotificationTools::NotifyTool(t) => t.call_tool(sent),
        }
    }
}

} // verus!
