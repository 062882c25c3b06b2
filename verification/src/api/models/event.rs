//! Error events and what they carry. Values that arrive as free-form JSON and that
//! nothing here reads are held as their JSON text.

use vstd::prelude::*;

verus! {

/// An event with its details.
#[derive(Debug)]
pub struct Event {
    pub id: String,
    pub message: Option<String>,
    pub entries: Vec<EventEntry>,
    pub tags: Vec<EventTag>,
    /// The context objects, in the order the response lists them.
    pub contexts: Vec<ContextEntry>,
    pub breadcrumbs: Option<BreadcrumbsData>,
    /// The user data, as JSON text.
    pub user: Option<String>,
}

/// One named context of an event.
#[derive(Debug)]
pub struct ContextEntry {
    pub key: String,
    pub value: ContextValue,
}

/// The value of a context: an object with its fields, or any other JSON value.
#[derive(Debug)]
pub enum ContextValue {
    Object(Vec<ContextField>),
    /// Any value that is not an object, as JSON text.
    Other(String),
}

/// One field of a context object.
#[derive(Debug)]
pub struct ContextField {
    pub key: String,
    pub value: ContextScalar,
}

/// The value of a context field.
#[derive(Debug)]
pub enum ContextScalar {
    /// A JSON string.
    Text(String),
    /// A JSON number, as its JSON text.
    Number(String),
    /// A JSON boolean.
    Bool(bool),
    /// An array, object or null, as JSON text.
    Other(String),
}

/// One entry of an event.
#[derive(Debug)]
#[allow(inconsistent_fields)]
pub enum EventEntry {
    Exception { data: ExceptionData },
    Message { data: MessageData },
    Breadcrumbs { data: BreadcrumbsData },
    /// Debug metadata, as JSON text.
    DebugMeta { data: String },
    /// Thread data, as JSON text.
    Threads { data: String },
    Other,
}

#[derive(Debug)]
pub struct ExceptionData {
    pub values: Vec<ExceptionValue>,
}

#[derive(Debug)]
pub struct ExceptionValue {
    pub exception_type: String,
    pub value: String,
    pub stacktrace: Option<Stacktrace>,
    /// The mechanism, as JSON text.
    pub mechanism: Option<String>,
}

#[derive(Debug)]
pub struct Stacktrace {
    pub frames: Vec<StackFrame>,
}

#[derive(Debug)]
pub struct StackFrame {
    pub filename: Option<String>,
    pub function: Option<String>,
    pub lineno: Option<u32>,
    pub colno: Option<u32>,
    pub context_line: Option<String>,
    pub pre_context: Vec<String>,
    pub post_context: Vec<String>,
    pub in_app: bool,
    pub instruction_addr: Option<String>,
    pub package: Option<String>,
    pub trust: Option<String>,
    pub image_addr: Option<String>,
}

#[derive(Debug)]
pub struct MessageData {
    pub formatted: String,
}

#[derive(Debug)]
pub struct BreadcrumbsData {
    pub values: Vec<Breadcrumb>,
}

#[derive(Debug)]
pub struct Breadcrumb {
    pub timestamp: Option<String>,
    pub breadcrumb_type: Option<String>,
    pub category: Option<String>,
    pub message: Option<String>,
    pub level: Option<String>,
    /// The data fields, as (key, JSON text) in the order the response lists them.
    pub data: Option<Vec<(String, String)>>,
}

#[derive(Debug)]
pub struct EventTag {
    pub key: String,
    pub value: String,
}

/// Lighter event struct for list responses
#[derive(Debug)]
pub struct EventListItem {
    pub id: String,
    pub event_id: Option<String>,
    pub message: Option<String>,
    pub date_created: String,
    pub title: Option<String>,
    pub platform: Option<String>,
    pub tags: Vec<EventTag>,
    pub event_type: Option<String>,
}

#[derive(Debug)]
pub struct ListEventsParams {
    pub limit: Option<u32>,
    pub cursor: Option<String>,
}

#[derive(Debug)]
pub struct Attachment {
    pub id: String,
    pub attachment_type: String,
    pub name: String,
    pub mimetype: Option<String>,
    pub size: Option<u64>,
    pub date_created: Option<String>,
    pub sha1: Option<String>,
    pub event_id: Option<String>,
}

} // verus!
