use sscp::error::{ErrorKind, TransferError};
use sscp::request::{CommandInvocation, Reply, Request};
use sscp::s3::S3Url;
use sscp::transfer::{make_hub, Hub, LocalUsingS3Hub, Progress, SsmEc2UsingS3Hub, Transfer};
use std::collections::HashMap;

fn local(path: &str) -> Hub {
    Hub::Local(LocalUsingS3Hub::new(path.to_string()))
}

fn remote(instance_id: &str, path: &str) -> Hub {
    Hub::SsmEc2(SsmEc2UsingS3Hub::new(path.to_string(), instance_id.to_string()))
}

fn succeeded() -> Reply {
    Reply::Invocation(Ok(CommandInvocation {
        status: "Success".to_string(),
        standard_output: Some(String::new()),
        standard_error: Some(String::new()),
    }))
}

/// Hands `replies` to the transfer one by one. Gives the requests made in
/// answer and how the transfer ended, if it did.
fn run(
    start: (Transfer, Request),
    replies: Vec<Reply>,
) -> (Vec<Request>, Option<Result<(), TransferError>>) {
    let (mut transfer, first) = start;
    let mut requests = vec![first];
    for reply in replies {
        match transfer.resume(reply) {
            Progress::Next(next, request) => {
                transfer = next;
                requests.push(request);
            },
            Progress::Done(outcome) => return (requests, Some(outcome)),
        }
    }
    (requests, None)
}

/// A file system and a relay store held in memory, with counts of what was
/// asked of the relay store.
struct World {
    files: HashMap<String, Vec<u8>>,
    objects: HashMap<(String, String), Vec<u8>>,
    puts: Vec<(String, String)>,
    gets: Vec<(String, String)>,
}

fn perform(world: &mut World, request: Request) -> Reply {
    match request {
        Request::ReadFile { path } => Reply::FileRead(
            world.files.get(&path).cloned().ok_or_else(|| "No such file or directory".to_string()),
        ),
        Request::WriteFile { path, content } => {
            world.files.insert(path, content);
            Reply::FileWritten(Ok(()))
        },
        Request::PutObject { bucket, key, body } => {
            world.puts.push((bucket.clone(), key.clone()));
            world.objects.insert((bucket, key), body);
            Reply::ObjectPut(Ok(()))
        },
        Request::GetObject { bucket, key } => {
            world.gets.push((bucket.clone(), key.clone()));
            Reply::ObjectGot(
                world.objects.get(&(bucket, key)).cloned().ok_or_else(|| "NoSuchKey".to_string()),
            )
        },
        other => panic!("nothing here answers {:?}", other),
    }
}

fn drive(world: &mut World, start: (Transfer, Request)) -> Result<(), TransferError> {
    let (mut transfer, mut request) = start;
    loop {
        let reply = perform(world, request);
        match transfer.resume(reply) {
            Progress::Next(next, then) => {
                transfer = next;
                request = then;
            },
            Progress::Done(outcome) => return outcome,
        }
    }
}

#[test]
fn local_to_local_copies_the_content_through_the_relay() {
    let mut world = World {
        files: HashMap::new(),
        objects: HashMap::new(),
        puts: Vec::new(),
        gets: Vec::new(),
    };
    world.files.insert("/tmp/a.txt".to_string(), b"hi".to_vec());
    let url = S3Url::new("b", "/tmp/a.txt");
    let source = make_hub("/tmp/a.txt").unwrap();
    let destination = make_hub("/tmp/b.txt").unwrap();
    let outcome = drive(&mut world, source.transfer_to(destination, &url));
    assert_eq!(outcome, Ok(()));
    assert_eq!(world.files.get("/tmp/b.txt"), Some(&b"hi".to_vec()));
    assert_eq!(world.files.get("/tmp/a.txt"), Some(&b"hi".to_vec()));
    assert_eq!(world.puts, vec![("b".to_string(), "/tmp/a.txt".to_string())]);
    assert_eq!(world.gets, vec![("b".to_string(), "/tmp/a.txt".to_string())]);
}

#[test]
fn missing_source_file_ends_the_transfer_before_the_relay_is_touched() {
    let mut world = World {
        files: HashMap::new(),
        objects: HashMap::new(),
        puts: Vec::new(),
        gets: Vec::new(),
    };
    let url = S3Url::new("b", "/tmp/a.txt");
    let outcome = drive(&mut world, local("/tmp/a.txt").transfer_to(local("/tmp/b.txt"), &url));
    assert_eq!(outcome.unwrap_err().kind(), ErrorKind::Io);
    assert!(world.puts.is_empty());
    assert!(world.gets.is_empty());
    assert!(world.files.is_empty());
}

#[test]
fn transfer_starts_with_the_push_of_the_source() {
    let url = S3Url::new("b", "k");
    let (transfer, request) = local("/tmp/a.txt").transfer_to(remote("i-2", "/x"), &url);
    let (operation, first) = local("/tmp/a.txt").upload_to_s3(&url);
    assert_eq!(request, first);
    assert_eq!(
        transfer,
        Transfer::Pushing { operation, destination: remote("i-2", "/x"), url: S3Url::new("b", "k") }
    );
}

#[test]
fn failed_push_never_starts_the_pull() {
    let url = S3Url::new("b", "k");
    let start = local("/tmp/a.txt").transfer_to(local("/tmp/b.txt"), &url);
    let (requests, outcome) = run(
        start,
        vec![Reply::FileRead(Ok(vec![7])), Reply::ObjectPut(Err("AccessDenied".to_string()))],
    );
    assert_eq!(outcome, Some(Err(TransferError::new(ErrorKind::Relay, "AccessDenied".to_string()))));
    assert_eq!(
        requests,
        vec![
            Request::ReadFile { path: "/tmp/a.txt".to_string() },
            Request::PutObject { bucket: "b".to_string(), key: "k".to_string(), body: vec![7] },
        ]
    );
    let pulls = requests
        .iter()
        .filter(|request| matches!(request, Request::GetObject { .. } | Request::WriteFile { .. }))
        .count();
    assert_eq!(pulls, 0);
}

#[test]
fn failed_remote_push_never_submits_the_pull() {
    let url = S3Url::new("b", "k");
    let start = remote("i-1", "/a").transfer_to(remote("i-2", "/b"), &url);
    let failed = Reply::Invocation(Ok(CommandInvocation {
        status: "Failed".to_string(),
        standard_output: Some(String::new()),
        standard_error: Some("disk full".to_string()),
    }));
    let (requests, outcome) = run(start, vec![Reply::CommandSent(Ok("c-1".to_string())), failed]);
    assert_eq!(
        outcome,
        Some(Err(TransferError::new(
            ErrorKind::RemoteCommand,
            "Command execution failed: disk full".to_string(),
        )))
    );
    let submissions =
        requests.iter().filter(|request| matches!(request, Request::SendCommand { .. })).count();
    assert_eq!(submissions, 1);
}

#[test]
fn push_comes_before_pull_and_each_comes_once() {
    let url = S3Url::new("b", "k");
    let start = remote("i-1", "/a").transfer_to(remote("i-2", "/b"), &url);
    let (requests, outcome) = run(
        start,
        vec![
            Reply::CommandSent(Ok("c-1".to_string())),
            succeeded(),
            Reply::Printed,
            Reply::CommandSent(Ok("c-2".to_string())),
            succeeded(),
            Reply::Printed,
        ],
    );
    assert_eq!(outcome, Some(Ok(())));
    let submissions: Vec<&Request> =
        requests.iter().filter(|request| matches!(request, Request::SendCommand { .. })).collect();
    assert_eq!(
        submissions,
        vec![
            &Request::SendCommand {
                instance_id: "i-1".to_string(),
                document_name: "AWS-RunShellScript".to_string(),
                commands: vec!["aws s3 cp /a s3://b/k".to_string()],
            },
            &Request::SendCommand {
                instance_id: "i-2".to_string(),
                document_name: "AWS-RunShellScript".to_string(),
                commands: vec!["aws s3 cp s3://b/k /b".to_string()],
            },
        ]
    );
}

#[test]
fn pull_starts_only_when_the_push_has_ended() {
    let url = S3Url::new("b", "k");
    let start = local("/tmp/a.txt").transfer_to(local("/tmp/b.txt"), &url);
    let (requests, outcome) = run(start, vec![Reply::FileRead(Ok(vec![1]))]);
    assert_eq!(outcome, None);
    assert_eq!(requests.len(), 2);
    assert!(matches!(requests[1], Request::PutObject { .. }));
}

#[test]
fn failed_pull_is_the_transfer_s_failure() {
    let url = S3Url::new("b", "k");
    let start = local("/tmp/a.txt").transfer_to(local("/tmp/b.txt"), &url);
    let (requests, outcome) = run(
        start,
        vec![
            Reply::FileRead(Ok(vec![1])),
            Reply::ObjectPut(Ok(())),
            Reply::ObjectGot(Ok(vec![1])),
            Reply::FileWritten(Err("Read-only file system".to_string())),
        ],
    );
    assert_eq!(
        outcome,
        Some(Err(TransferError::new(ErrorKind::Io, "Read-only file system".to_string())))
    );
    assert_eq!(requests.len(), 4);
}

#[test]
fn local_to_remote_puts_then_submits_the_download() {
    let url = S3Url::new("b", "k");
    let start = local("/tmp/a.txt").transfer_to(remote("i-2", "/b"), &url);
    let (requests, outcome) = run(
        start,
        vec![
            Reply::FileRead(Ok(b"hi".to_vec())),
            Reply::ObjectPut(Ok(())),
            Reply::CommandSent(Ok("c-2".to_string())),
            succeeded(),
            Reply::Printed,
        ],
    );
    assert_eq!(outcome, Some(Ok(())));
    assert_eq!(
        requests[2],
        Request::SendCommand {
            instance_id: "i-2".to_string(),
            document_name: "AWS-RunShellScript".to_string(),
            commands: vec!["aws s3 cp s3://b/k /b".to_string()],
        }
    );
}
