use crate::command::{
    classify, copy_command, copy_command_line, failure_message, shell_document,
    shell_document_name, status_of, success_line, unknown_status_message, Outcome,
    POLL_INTERVAL_SECONDS,
};
use crate::error::{ErrorKind, ErrorView, TransferError};
use crate::request::{Reply, ReplyView, Request, RequestView};
use crate::s3::{S3Url, S3UrlView};
use crate::text::{first_index, lemma_first_index, lemma_first_index_is, position};
use vstd::prelude::*;
use vstd::string::*;

verus! {

/// An endpoint on this machine: a file path.
#[derive(Debug, PartialEq, Eq)]
pub struct LocalUsingS3Hub {
    path: String,
}

/// An endpoint on a remote instance, reached by running commands on it.
#[derive(Debug, PartialEq, Eq)]
pub struct SsmEc2UsingS3Hub {
    path: String,
    instance_id: String,
}

/// One end of a transfer.
#[derive(Debug, PartialEq, Eq)]
pub enum Hub {
    Local(LocalUsingS3Hub),
    SsmEc2(SsmEc2UsingS3Hub),
}

pub ghost struct LocalHubView {
    pub path: Seq<char>,
}

pub ghost struct SsmEc2HubView {
    pub path: Seq<char>,
    pub instance_id: Seq<char>,
}

pub ghost enum HubView {
    Local(LocalHubView),
    SsmEc2(SsmEc2HubView),
}

impl View for LocalUsingS3Hub {
    type V = LocalHubView;

    closed spec fn view(&self) -> LocalHubView {
        LocalHubView { path: self.path@ }
    }
}

impl View for SsmEc2UsingS3Hub {
    type V = SsmEc2HubView;

    closed spec fn view(&self) -> SsmEc2HubView {
        SsmEc2HubView { path: self.path@, instance_id: self.instance_id@ }
    }
}

impl View for Hub {
    type V = HubView;

    open spec fn view(&self) -> HubView {
        match self {
            Hub::Local(hub) => HubView::Local(hub@),
            Hub::SsmEc2(hub) => HubView::SsmEc2(hub@),
        }
    }
}

impl LocalUsingS3Hub {
    pub fn new(path: String) -> (hub: Self)
        ensures
            hub@ == (LocalHubView { path: path@ }),
    {
        LocalUsingS3Hub { path }
    }

    pub fn path(&self) -> (path: &str)
        ensures
            path@ == self@.path,
    {
        self.path.as_str()
    }
}

impl SsmEc2UsingS3Hub {
    pub fn new(path: String, instance_id: String) -> (hub: Self)
        ensures
            hub@ == (SsmEc2HubView { path: path@, instance_id: instance_id@ }),
    {
        SsmEc2UsingS3Hub { path, instance_id }
    }

    pub fn path(&self) -> (path: &str)
        ensures
            path@ == self@.path,
    {
        self.path.as_str()
    }

    pub fn instance_id(&self) -> (instance_id: &str)
        ensures
            instance_id@ == self@.instance_id,
    {
        self.instance_id.as_str()
    }
}

/// What a path-spec names.
///
/// Without a colon it is a local path. With one colon, what stands before it
/// names the remote instance and what stands after it is the path there. With
/// more than one colon it names nothing, and the error carries the path-spec.
pub open spec fn parse_path_spec(spec: Seq<char>) -> Result<HubView, ErrorView> {
    let colon = first_index(spec, ':');
    if colon == spec.len() {
        Ok(HubView::Local(LocalHubView { path: spec }))
    } else {
        let path = spec.subrange(colon + 1, spec.len() as int);
        if first_index(path, ':') == path.len() {
            Ok(HubView::SsmEc2(SsmEc2HubView { path, instance_id: spec.subrange(0, colon) }))
        } else {
            Err(ErrorView { kind: ErrorKind::Parse, message: spec + " is not expected"@ })
        }
    }
}

/// Resolves a path-spec into the endpoint it names.
pub fn make_hub(spec: &str) -> (hub: Result<Hub, TransferError>)
    ensures
        match hub {
            Ok(hub) => parse_path_spec(spec@) == Ok::<HubView, ErrorView>(hub@),
            Err(error) => parse_path_spec(spec@) == Err::<HubView, ErrorView>(error@),
        },
{
    let length = spec.unicode_len();
    let colon = position(spec, ':');
    if colon == length {
        return Ok(Hub::Local(LocalUsingS3Hub::new(spec.to_owned())));
    }
    let instance_id = spec.substring_char(0, colon);
    let path = spec.substring_char(colon + 1, length);
    if position(path, ':') == path.unicode_len() {
        Ok(Hub::SsmEc2(SsmEc2UsingS3Hub::new(path.to_owned(), instance_id.to_owned())))
    } else {
        let mut message = spec.to_owned();
        message.append(" is not expected");
        Err(TransferError::new(ErrorKind::Parse, message))
    }
}

/// A path-spec without a colon names the local path that it spells.
pub proof fn lemma_local_path_spec(spec: Seq<char>)
    requires
        !spec.contains(':'),
    ensures
        parse_path_spec(spec) == Ok::<HubView, ErrorView>(
            HubView::Local(LocalHubView { path: spec }),
        ),
{
    lemma_first_index(spec, ':');
    if first_index(spec, ':') < spec.len() {
        assert(spec.contains(spec[first_index(spec, ':')]));
    }
}

/// A path-spec `<instance>:<path>`, with no colon in either part, names that
/// path on that instance.
pub proof fn lemma_remote_path_spec(instance_id: Seq<char>, path: Seq<char>)
    requires
        !instance_id.contains(':'),
        !path.contains(':'),
    ensures
        parse_path_spec(instance_id + seq![':'] + path) == Ok::<HubView, ErrorView>(
            HubView::SsmEc2(SsmEc2HubView { path, instance_id }),
        ),
{
    let spec = instance_id + seq![':'] + path;
    let colon = instance_id.len() as int;
    assert forall|j: int| 0 <= j < colon implies spec[j] != ':' by {
        assert(instance_id.contains(spec[j]));
    }
    assert(spec[colon] == ':');
    lemma_first_index_is(spec, ':', colon);
    assert(spec.subrange(0, colon) =~= instance_id);
    assert(spec.subrange(colon + 1, spec.len() as int) =~= path);
    lemma_first_index(path, ':');
    if first_index(path, ':') < path.len() {
        assert(path.contains(path[first_index(path, ':')]));
    }
}

/// A path-spec with two colons or more names nothing: resolving it fails with
/// a parse error that carries it.
pub proof fn lemma_two_colons_rejected(spec: Seq<char>, first: int, second: int)
    requires
        0 <= first < second < spec.len(),
        spec[first] == ':',
        spec[second] == ':',
    ensures
        parse_path_spec(spec) == Err::<HubView, ErrorView>(
            ErrorView { kind: ErrorKind::Parse, message: spec + " is not expected"@ },
        ),
{
    lemma_first_index(spec, ':');
    let colon = first_index(spec, ':');
    assert(colon <= first) by {
        if first < colon {
            assert(spec[first] != ':');
        }
    }
    let path = spec.subrange(colon + 1, spec.len() as int);
    lemma_first_index(path, ':');
    assert(path[second - colon - 1] == ':');
}

/// One push or one pull of an endpoint, part-way: the request that is out,
/// with what is needed to go on once it is answered.
#[derive(Debug, PartialEq, Eq)]
pub enum Operation {
    /// A local push is reading its file, to put it at `bucket`/`key`.
    ReadingFile { bucket: String, key: String },
    /// A local push is putting the file's content into the relay store.
    PuttingObject,
    /// A local pull is getting the object, to write it to `path`.
    GettingObject { path: String },
    /// A local pull is writing its file.
    WritingFile,
    /// A remote push or pull is submitting its command to `instance_id`.
    SendingCommand { instance_id: String },
    /// The command is submitted; its status has been asked for.
    AwaitingInvocation { command_id: String, instance_id: String },
    /// The command has not finished; the wait before the next look is on.
    Sleeping { command_id: String, instance_id: String },
    /// The command has succeeded and its output is being shown.
    Printing,
}

pub ghost enum OperationView {
    ReadingFile { bucket: Seq<char>, key: Seq<char> },
    PuttingObject,
    GettingObject { path: Seq<char> },
    WritingFile,
    SendingCommand { instance_id: Seq<char> },
    AwaitingInvocation { command_id: Seq<char>, instance_id: Seq<char> },
    Sleeping { command_id: Seq<char>, instance_id: Seq<char> },
    Printing,
}

impl View for Operation {
    type V = OperationView;

    open spec fn view(&self) -> OperationView {
        match self {
            Operation::ReadingFile { bucket, key } => OperationView::ReadingFile {
                bucket: bucket@,
                key: key@,
            },
            Operation::PuttingObject => OperationView::PuttingObject,
            Operation::GettingObject { path } => OperationView::GettingObject { path: path@ },
            Operation::WritingFile => OperationView::WritingFile,
            Operation::SendingCommand { instance_id } => OperationView::SendingCommand {
                instance_id: instance_id@,
            },
            Operation::AwaitingInvocation { command_id, instance_id } => {
                OperationView::AwaitingInvocation {
                    command_id: command_id@,
                    instance_id: instance_id@,
                }
            },
            Operation::Sleeping { command_id, instance_id } => OperationView::Sleeping {
                command_id: command_id@,
                instance_id: instance_id@,
            },
            Operation::Printing => OperationView::Printing,
        }
    }
}

/// Where a machine stands after a reply: it goes on with a new request, or it
/// has ended.
#[derive(Debug, PartialEq, Eq)]
pub enum Progress<M> {
    Next(M, Request),
    Done(Result<(), TransferError>),
}

pub ghost enum ProgressView<M> {
    Next(M, RequestView),
    Done(Result<(), ErrorView>),
}

impl<M: View> View for Progress<M> {
    type V = ProgressView<M::V>;

    open spec fn view(&self) -> ProgressView<M::V> {
        match self {
            Progress::Next(machine, request) => ProgressView::Next(machine@, request@),
            Progress::Done(Ok(_)) => ProgressView::Done(Ok(())),
            Progress::Done(Err(error)) => ProgressView::Done(Err(error@)),
        }
    }
}

/// The message of the error for a reply that does not answer the request that
/// is out.
pub open spec fn unexpected_reply() -> Seq<char> {
    "unexpected reply"@
}

/// The end of an operation in failure.
pub open spec fn failed(kind: ErrorKind, message: Seq<char>) -> ProgressView<OperationView> {
    ProgressView::Done(Err(ErrorView { kind, message }))
}

/// The request that asks how the command `command_id` on `instance_id` stands,
/// and the operation that waits for the answer.
pub open spec fn look(command_id: Seq<char>, instance_id: Seq<char>) -> ProgressView<
    OperationView,
> {
    ProgressView::Next(
        OperationView::AwaitingInvocation { command_id, instance_id },
        RequestView::GetCommandInvocation { command_id, instance_id },
    )
}

/// How a push starts: a local endpoint reads its file; a remote one submits
/// the command that copies its file to the relay location.
pub open spec fn upload_start(hub: HubView, url: S3UrlView) -> (OperationView, RequestView) {
    match hub {
        HubView::Local(hub) => (
            OperationView::ReadingFile { bucket: url.bucket, key: url.key },
            RequestView::ReadFile { path: hub.path },
        ),
        HubView::SsmEc2(hub) => run_start(hub.instance_id, copy_command(hub.path, url.address())),
    }
}

/// How a pull starts: a local endpoint gets the object; a remote one submits
/// the command that copies the relay location to its file.
pub open spec fn download_start(hub: HubView, url: S3UrlView) -> (OperationView, RequestView) {
    match hub {
        HubView::Local(hub) => (
            OperationView::GettingObject { path: hub.path },
            RequestView::GetObject { bucket: url.bucket, key: url.key },
        ),
        HubView::SsmEc2(hub) => run_start(hub.instance_id, copy_command(url.address(), hub.path)),
    }
}

/// How running one shell command line on `instance_id` starts.
pub open spec fn run_start(instance_id: Seq<char>, line: Seq<char>) -> (
    OperationView,
    RequestView,
) {
    (
        OperationView::SendingCommand { instance_id },
        RequestView::SendCommand {
            instance_id,
            document_name: shell_document(),
            commands: seq![line],
        },
    )
}

/// How an operation goes on when `reply` comes in.
///
/// A failure reply ends the operation with an error of the kind of the request
/// that failed, carrying the reply's text. So does a reply that answers
/// another request, carrying `unexpected_reply()`.
pub open spec fn operation_resume(operation: OperationView, reply: ReplyView) -> ProgressView<
    OperationView,
> {
    match operation {
        OperationView::ReadingFile { bucket, key } => match reply {
            ReplyView::FileRead(Ok(body)) => ProgressView::Next(
                OperationView::PuttingObject,
                RequestView::PutObject { bucket, key, body },
            ),
            ReplyView::FileRead(Err(why)) => failed(ErrorKind::Io, why),
            _ => failed(ErrorKind::Io, unexpected_reply()),
        },
        OperationView::PuttingObject => match reply {
            ReplyView::ObjectPut(Ok(_)) => ProgressView::Done(Ok(())),
            ReplyView::ObjectPut(Err(why)) => failed(ErrorKind::Relay, why),
            _ => failed(ErrorKind::Relay, unexpected_reply()),
        },
        OperationView::GettingObject { path } => match reply {
            ReplyView::ObjectGot(Ok(content)) => ProgressView::Next(
                OperationView::WritingFile,
                RequestView::WriteFile { path, content },
            ),
            ReplyView::ObjectGot(Err(why)) => failed(ErrorKind::Relay, why),
            _ => failed(ErrorKind::Relay, unexpected_reply()),
        },
        OperationView::WritingFile => match reply {
            ReplyView::FileWritten(Ok(_)) => ProgressView::Done(Ok(())),
            ReplyView::FileWritten(Err(why)) => failed(ErrorKind::Io, why),
            _ => failed(ErrorKind::Io, unexpected_reply()),
        },
        OperationView::SendingCommand { instance_id } => match reply {
            ReplyView::CommandSent(Ok(command_id)) => look(command_id, instance_id),
            ReplyView::CommandSent(Err(why)) => failed(ErrorKind::RemoteCommand, why),
            _ => failed(ErrorKind::RemoteCommand, unexpected_reply()),
        },
        OperationView::AwaitingInvocation { command_id, instance_id } => match reply {
            ReplyView::Invocation(Ok(invocation)) => match status_of(invocation.status).outcome() {
                Outcome::Wait => ProgressView::Next(
                    OperationView::Sleeping { command_id, instance_id },
                    RequestView::Sleep { seconds: POLL_INTERVAL_SECONDS },
                ),
                Outcome::Succeeded => ProgressView::Next(
                    OperationView::Printing,
                    RequestView::Print { line: success_line(invocation) },
                ),
                Outcome::Failed => failed(ErrorKind::RemoteCommand, failure_message(invocation)),
                Outcome::Unrecognized => failed(
                    ErrorKind::RemoteCommand,
                    unknown_status_message(invocation),
                ),
            },
            ReplyView::Invocation(Err(why)) => failed(ErrorKind::RemoteCommand, why),
            _ => failed(ErrorKind::RemoteCommand, unexpected_reply()),
        },
        OperationView::Sleeping { command_id, instance_id } => match reply {
            ReplyView::Slept => look(command_id, instance_id),
            _ => failed(ErrorKind::RemoteCommand, unexpected_reply()),
        },
        OperationView::Printing => match reply {
            ReplyView::Printed => ProgressView::Done(Ok(())),
            _ => failed(ErrorKind::RemoteCommand, unexpected_reply()),
        },
    }
}

fn fail(kind: ErrorKind, message: String) -> (progress: Progress<Operation>)
    ensures
        progress@ == failed(kind, message@),
{
    Progress::Done(Err(TransferError::new(kind, message)))
}

fn fail_unexpected(kind: ErrorKind) -> (progress: Progress<Operation>)
    ensures
        progress@ == failed(kind, unexpected_reply()),
{
    fail(kind, String::from_str("unexpected reply"))
}

fn look_again(command_id: String, instance_id: String) -> (progress: Progress<Operation>)
    ensures
        progress@ == look(command_id@, instance_id@),
{
    let request = Request::GetCommandInvocation {
        command_id: command_id.clone(),
        instance_id: instance_id.clone(),
    };
    Progress::Next(Operation::AwaitingInvocation { command_id, instance_id }, request)
}

fn run_command(instance_id: &str, line: String) -> (start: (Operation, Request))
    ensures
        (start.0@, start.1@) == run_start(instance_id@, line@),
{
    let mut commands: Vec<String> = Vec::new();
    commands.push(line);
    assert(commands.deep_view() =~= seq![line@]);
    (
        Operation::SendingCommand { instance_id: instance_id.to_owned() },
        Request::SendCommand {
            instance_id: instance_id.to_owned(),
            document_name: shell_document_name(),
            commands,
        },
    )
}

impl Operation {
    /// Takes the reply to the request that is out and says how the operation
    /// goes on.
    pub fn resume(self, reply: Reply) -> (progress: Progress<Operation>)
        ensures
            progress@ == operation_resume(self@, reply@),
    {
        match self {
            Operation::ReadingFile { bucket, key } => match reply {
                Reply::FileRead(Ok(body)) => Progress::Next(
                    Operation::PuttingObject,
                    Request::PutObject { bucket, key, body },
                ),
                Reply::FileRead(Err(why)) => fail(ErrorKind::Io, why),
                _ => fail_unexpected(ErrorKind::Io),
            },
            Operation::PuttingObject => match reply {
                Reply::ObjectPut(Ok(_)) => Progress::Done(Ok(())),
                Reply::ObjectPut(Err(why)) => fail(ErrorKind::Relay, why),
                _ => fail_unexpected(ErrorKind::Relay),
            },
            Operation::GettingObject { path } => match reply {
                Reply::ObjectGot(Ok(content)) => Progress::Next(
                    Operation::WritingFile,
                    Request::WriteFile { path, content },
                ),
                Reply::ObjectGot(Err(why)) => fail(ErrorKind::Relay, why),
                _ => fail_unexpected(ErrorKind::Relay),
            },
            Operation::WritingFile => match reply {
                Reply::FileWritten(Ok(_)) => Progress::Done(Ok(())),
                Reply::FileWritten(Err(why)) => fail(ErrorKind::Io, why),
                _ => fail_unexpected(ErrorKind::Io),
            },
            Operation::SendingCommand { instance_id } => match reply {
                Reply::CommandSent(Ok(command_id)) => look_again(command_id, instance_id),
                Reply::CommandSent(Err(why)) => fail(ErrorKind::RemoteCommand, why),
                _ => fail_unexpected(ErrorKind::RemoteCommand),
            },
            Operation::AwaitingInvocation { command_id, instance_id } => match reply {
                Reply::Invocation(Ok(invocation)) => {
                    match classify(invocation.status.as_str()).decide() {
                        Outcome::Wait => Progress::Next(
                            Operation::Sleeping { command_id, instance_id },
                            Request::Sleep { seconds: POLL_INTERVAL_SECONDS },
                        ),
                        Outcome::Succeeded => Progress::Next(
                            Operation::Printing,
                            Request::Print { line: invocation.success_line() },
                        ),
                        Outcome::Failed => fail(
                            ErrorKind::RemoteCommand,
                            invocation.failure_message(),
                        ),
                        Outcome::Unrecognized => fail(
                            ErrorKind::RemoteCommand,
                            invocation.unknown_status_message(),
                        ),
                    }
                },
                Reply::Invocation(Err(why)) => fail(ErrorKind::RemoteCommand, why),
                _ => fail_unexpected(ErrorKind::RemoteCommand),
            },
            Operation::Sleeping { command_id, instance_id } => match reply {
                Reply::Slept => look_again(command_id, instance_id),
                _ => fail_unexpected(ErrorKind::RemoteCommand),
            },
            Operation::Printing => match reply {
                Reply::Printed => Progress::Done(Ok(())),
                _ => fail_unexpected(ErrorKind::RemoteCommand),
            },
        }
    }
}

impl Hub {
    /// Starts pushing this endpoint's file to `url`.
    pub fn upload_to_s3(&self, url: &S3Url) -> (start: (Operation, Request))
        ensures
            (start.0@, start.1@) == upload_start(self@, url@),
    {
        match self {
            Hub::Local(hub) => (
                Operation::ReadingFile { bucket: url.bucket.clone(), key: url.key.clone() },
                Request::ReadFile { path: hub.path.clone() },
            ),
            Hub::SsmEc2(hub) => {
                let address = url.url();
                run_command(
                    hub.instance_id.as_str(),
                    copy_command_line(hub.path.as_str(), address.as_str()),
                )
            },
        }
    }

    /// Starts pulling the object at `url` down to this endpoint's file.
    pub fn download_from_s3(&self, url: &S3Url) -> (start: (Operation, Request))
        ensures
            (start.0@, start.1@) == download_start(self@, url@),
    {
        match self {
            Hub::Local(hub) => (
                Operation::GettingObject { path: hub.path.clone() },
                Request::GetObject { bucket: url.bucket.clone(), key: url.key.clone() },
            ),
            Hub::SsmEc2(hub) => {
                let address = url.url();
                run_command(
                    hub.instance_id.as_str(),
                    copy_command_line(address.as_str(), hub.path.as_str()),
                )
            },
        }
    }
}

/// A whole transfer, part-way: the source pushes to the relay location, and
/// only when that has succeeded the destination pulls from it.
#[derive(Debug, PartialEq, Eq)]
pub enum Transfer {
    /// The push is under way; `destination` and `url` are kept for the pull.
    Pushing { operation: Operation, destination: Hub, url: S3Url },
    /// The push has succeeded and the pull is under way.
    Pulling { operation: Operation },
}

pub ghost enum TransferView {
    Pushing { operation: OperationView, destination: HubView, url: S3UrlView },
    Pulling { operation: OperationView },
}

impl View for Transfer {
    type V = TransferView;

    open spec fn view(&self) -> TransferView {
        match self {
            Transfer::Pushing { operation, destination, url } => TransferView::Pushing {
                operation: operation@,
                destination: destination@,
                url: url@,
            },
            Transfer::Pulling { operation } => TransferView::Pulling { operation: operation@ },
        }
    }
}

/// How a transfer starts: with the start of the source's push.
pub open spec fn transfer_start(source: HubView, destination: HubView, url: S3UrlView) -> (
    TransferView,
    RequestView,
) {
    let (operation, request) = upload_start(source, url);
    (TransferView::Pushing { operation, destination, url }, request)
}

/// How a transfer goes on when `reply` comes in.
///
/// The reply goes to the operation under way. A push that fails ends the
/// transfer with its error; one that succeeds starts the pull. The pull's end
/// is the transfer's end.
pub open spec fn transfer_resume(transfer: TransferView, reply: ReplyView) -> ProgressView<
    TransferView,
> {
    match transfer {
        TransferView::Pushing { operation, destination, url } => match operation_resume(
            operation,
            reply,
        ) {
            ProgressView::Next(operation, request) => ProgressView::Next(
                TransferView::Pushing { operation, destination, url },
                request,
            ),
            ProgressView::Done(Ok(_)) => {
                let (operation, request) = download_start(destination, url);
                ProgressView::Next(TransferView::Pulling { operation }, request)
            },
            ProgressView::Done(Err(error)) => ProgressView::Done(Err(error)),
        },
        TransferView::Pulling { operation } => match operation_resume(operation, reply) {
            ProgressView::Next(operation, request) => ProgressView::Next(
                TransferView::Pulling { operation },
                request,
            ),
            ProgressView::Done(outcome) => ProgressView::Done(outcome),
        },
    }
}

impl Hub {
    /// Starts the transfer of this endpoint's file to `destination` by way of
    /// `url`.
    pub fn transfer_to(&self, destination: Hub, url: &S3Url) -> (start: (Transfer, Request))
        ensures
            (start.0@, start.1@) == transfer_start(self@, destination@, url@),
    {
        let (operation, request) = self.upload_to_s3(url);
        (Transfer::Pushing { operation, destination, url: url.clone() }, request)
    }
}

impl Transfer {
    /// Takes the reply to the request that is out and says how the transfer
    /// goes on.
    pub fn resume(self, reply: Reply) -> (progress: Progress<Transfer>)
        ensures
            progress@ == transfer_resume(self@, reply@),
    {
        match self {
            Transfer::Pushing { operation, destination, url } => match operation.resume(reply) {
                Progress::Next(operation, request) => Progress::Next(
                    Transfer::Pushing { operation, destination, url },
                    request,
                ),
                Progress::Done(Ok(_)) => {
                    let (operation, request) = destination.download_from_s3(&url);
                    Progress::Next(Transfer::Pulling { operation }, request)
                },
                Progress::Done(Err(error)) => Progress::Done(Err(error)),
            },
            Transfer::Pulling { operation } => match operation.resume(reply) {
                Progress::Next(operation, request) => Progress::Next(
                    Transfer::Pulling { operation },
                    request,
                ),
                Progress::Done(outcome) => Progress::Done(outcome),
            },
        }
    }
}

} // verus!
