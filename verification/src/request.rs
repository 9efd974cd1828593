use vstd::prelude::*;

verus! {

/// One thing the driver is asked to do in the outside world.
#[derive(Debug, PartialEq, Eq)]
pub enum Request {
    /// Read the whole local file at `path`.
    ReadFile { path: String },
    /// Create or truncate the local file at `path` and write `content` to it.
    WriteFile { path: String, content: Vec<u8> },
    /// Put `body` into the relay store as object `key` of `bucket`, in one call.
    PutObject { bucket: String, key: String, body: Vec<u8> },
    /// Get object `key` of `bucket` from the relay store, whole.
    GetObject { bucket: String, key: String },
    /// Submit `commands` to run on `instance_id` under `document_name`.
    SendCommand { instance_id: String, document_name: String, commands: Vec<String> },
    /// Ask how the invocation of `command_id` on `instance_id` stands.
    GetCommandInvocation { command_id: String, instance_id: String },
    /// Wait for `seconds` seconds.
    Sleep { seconds: u64 },
    /// Show `line` to the user.
    Print { line: String },
}

/// How one invocation of a remote command stands, as the channel reports it.
#[derive(Debug, PartialEq, Eq)]
pub struct CommandInvocation {
    pub status: String,
    /// What the command wrote to standard output, where the channel gave it.
    pub standard_output: Option<String>,
    /// What the command wrote to standard error, where the channel gave it.
    pub standard_error: Option<String>,
}

/// What came of a request. Each variant answers one kind of request; a failure
/// carries the text of the outside error.
#[derive(Debug, PartialEq, Eq)]
pub enum Reply {
    FileRead(Result<Vec<u8>, String>),
    FileWritten(Result<(), String>),
    ObjectPut(Result<(), String>),
    ObjectGot(Result<Vec<u8>, String>),
    CommandSent(Result<String, String>),
    Invocation(Result<CommandInvocation, String>),
    Slept,
    Printed,
}

pub ghost enum RequestView {
    ReadFile { path: Seq<char> },
    WriteFile { path: Seq<char>, content: Seq<u8> },
    PutObject { bucket: Seq<char>, key: Seq<char>, body: Seq<u8> },
    GetObject { bucket: Seq<char>, key: Seq<char> },
    SendCommand { instance_id: Seq<char>, document_name: Seq<char>, commands: Seq<Seq<char>> },
    GetCommandInvocation { command_id: Seq<char>, instance_id: Seq<char> },
    Sleep { seconds: u64 },
    Print { line: Seq<char> },
}

pub ghost struct CommandInvocationView {
    pub status: Seq<char>,
    pub standard_output: Option<Seq<char>>,
    pub standard_error: Option<Seq<char>>,
}

pub ghost enum ReplyView {
    FileRead(Result<Seq<u8>, Seq<char>>),
    FileWritten(Result<(), Seq<char>>),
    ObjectPut(Result<(), Seq<char>>),
    ObjectGot(Result<Seq<u8>, Seq<char>>),
    CommandSent(Result<Seq<char>, Seq<char>>),
    Invocation(Result<CommandInvocationView, Seq<char>>),
    Slept,
    Printed,
}

impl View for Request {
    type V = RequestView;

    open spec fn view(&self) -> RequestView {
        match self {
            Request::ReadFile { path } => RequestView::ReadFile { path: path@ },
            Request::WriteFile { path, content } => RequestView::WriteFile {
                path: path@,
                content: content@,
            },
            Request::PutObject { bucket, key, body } => RequestView::PutObject {
                bucket: bucket@,
                key: key@,
                body: body@,
            },
            Request::GetObject { bucket, key } => RequestView::GetObject {
                bucket: bucket@,
                key: key@,
            },
            Request::SendCommand { instance_id, document_name, commands } => {
                RequestView::SendCommand {
                    instance_id: instance_id@,
                    document_name: document_name@,
                    commands: commands.deep_view(),
                }
            },
            Request::GetCommandInvocation { command_id, instance_id } => {
                RequestView::GetCommandInvocation {
                    command_id: command_id@,
                    instance_id: instance_id@,
                }
            },
            Request::Sleep { seconds } => RequestView::Sleep { seconds: *seconds },
            Request::Print { line } => RequestView::Print { line: line@ },
        }
    }
}

impl View for CommandInvocation {
    type V = CommandInvocationView;

    open spec fn view(&self) -> CommandInvocationView {
        CommandInvocationView {
            status: self.status@,
            standard_output: match self.standard_output {
                Some(text) => Some(text@),
                None => None,
            },
            standard_error: match self.standard_error {
                Some(text) => Some(text@),
                None => None,
            },
        }
    }
}

impl View for Reply {
    type V = ReplyView;

    open spec fn view(&self) -> ReplyView {
        match self {
            Reply::FileRead(Ok(bytes)) => ReplyView::FileRead(Ok(bytes@)),
            Reply::FileRead(Err(why)) => ReplyView::FileRead(Err(why@)),
            Reply::FileWritten(Ok(_)) => ReplyView::FileWritten(Ok(())),
            Reply::FileWritten(Err(why)) => ReplyView::FileWritten(Err(why@)),
            Reply::ObjectPut(Ok(_)) => ReplyView::ObjectPut(Ok(())),
            Reply::ObjectPut(Err(why)) => ReplyView::ObjectPut(Err(why@)),
            Reply::ObjectGot(Ok(bytes)) => ReplyView::ObjectGot(Ok(bytes@)),
            Reply::ObjectGot(Err(why)) => ReplyView::ObjectGot(Err(why@)),
            Reply::CommandSent(Ok(id)) => ReplyView::CommandSent(Ok(id@)),
            Reply::CommandSent(Err(why)) => ReplyView::CommandSent(Err(why@)),
            Reply::Invocation(Ok(invocation)) => ReplyView::Invocation(Ok(invocation@)),
            Reply::Invocation(Err(why)) => ReplyView::Invocation(Err(why@)),
            Reply::Slept => ReplyView::Slept,
            Reply::Printed => ReplyView::Printed,
        }
    }
}

} // verus!
