use crate::command::{
    failure_message, status_of, success_line, unknown_status_message, Outcome,
    POLL_INTERVAL_SECONDS,
};
use crate::error::{ErrorKind, ErrorView};
use crate::request::{CommandInvocationView, ReplyView, RequestView};
use crate::s3::S3UrlView;
use crate::transfer::{
    download_start, operation_resume, transfer_resume, transfer_start, upload_start, HubView,
    OperationView, ProgressView, TransferView,
};
use vstd::prelude::*;

verus! {

/// What a machine did with a sequence of replies, each handed to it in turn:
/// the requests it made in answer, how it ended if it did, and how many of
/// the replies it took before it ended.
pub ghost struct Run {
    pub requests: Seq<RequestView>,
    pub outcome: Option<Result<(), ErrorView>>,
    pub used: nat,
}

impl Run {
    /// This run, after one more reply that was answered with `request`.
    pub open spec fn after(self, request: RequestView) -> Run {
        Run { requests: seq![request] + self.requests, outcome: self.outcome, used: self.used + 1 }
    }
}

/// The run of an operation over `replies`. Replies that come after its end
/// are not taken.
pub open spec fn operation_run(operation: OperationView, replies: Seq<ReplyView>) -> Run
    decreases replies.len(),
{
    if replies.len() == 0 {
        Run { requests: Seq::empty(), outcome: None, used: 0 }
    } else {
        match operation_resume(operation, replies[0]) {
            ProgressView::Next(operation, request) => operation_run(
                operation,
                replies.drop_first(),
            ).after(request),
            ProgressView::Done(outcome) => Run {
                requests: Seq::empty(),
                outcome: Some(outcome),
                used: 1,
            },
        }
    }
}

/// The run of a transfer over `replies`. Replies that come after its end are
/// not taken.
pub open spec fn transfer_run(transfer: TransferView, replies: Seq<ReplyView>) -> Run
    decreases replies.len(),
{
    if replies.len() == 0 {
        Run { requests: Seq::empty(), outcome: None, used: 0 }
    } else {
        match transfer_resume(transfer, replies[0]) {
            ProgressView::Next(transfer, request) => transfer_run(
                transfer,
                replies.drop_first(),
            ).after(request),
            ProgressView::Done(outcome) => Run {
                requests: Seq::empty(),
                outcome: Some(outcome),
                used: 1,
            },
        }
    }
}

/// A run takes no more replies than there are, and all of them while it has
/// not ended.
pub proof fn lemma_run_used(operation: OperationView, replies: Seq<ReplyView>)
    ensures
        operation_run(operation, replies).used <= replies.len(),
        operation_run(operation, replies).outcome is None ==> operation_run(
            operation,
            replies,
        ).used == replies.len(),
    decreases replies.len(),
{
    if replies.len() > 0 {
        match operation_resume(operation, replies[0]) {
            ProgressView::Next(next, _) => {
                lemma_run_used(next, replies.drop_first());
            },
            ProgressView::Done(_) => {},
        }
    }
}

/// Once the push is over, a transfer runs as its pull runs.
pub proof fn lemma_pulling_run(operation: OperationView, replies: Seq<ReplyView>)
    ensures
        transfer_run(TransferView::Pulling { operation }, replies) == operation_run(
            operation,
            replies,
        ),
    decreases replies.len(),
{
    if replies.len() > 0 {
        match operation_resume(operation, replies[0]) {
            ProgressView::Next(next, _) => {
                lemma_pulling_run(next, replies.drop_first());
            },
            ProgressView::Done(_) => {},
        }
    }
}

/// The run of a transfer whose push has come as far as `operation`, told by
/// the run of that push and the run of the pull that follows it.
///
/// While the push has not ended, and when it has failed, the transfer's run
/// is the push's run. When the push has succeeded, the transfer's run is the
/// push's run, then the request that starts the pull, then the pull's run
/// over the replies that the push left.
pub open spec fn push_then_pull(
    operation: OperationView,
    destination: HubView,
    url: S3UrlView,
    replies: Seq<ReplyView>,
) -> Run {
    let push = operation_run(operation, replies);
    match push.outcome {
        Some(Ok(_)) => {
            let (first, request) = download_start(destination, url);
            let pull = operation_run(first, replies.skip(push.used as int));
            Run {
                requests: push.requests + seq![request] + pull.requests,
                outcome: pull.outcome,
                used: push.used + pull.used,
            }
        },
        _ => push,
    }
}

/// A transfer is its push, and then, only after the push has succeeded, its
/// pull.
pub proof fn lemma_pushing_run(
    operation: OperationView,
    destination: HubView,
    url: S3UrlView,
    replies: Seq<ReplyView>,
)
    ensures
        transfer_run(TransferView::Pushing { operation, destination, url }, replies)
            == push_then_pull(operation, destination, url, replies),
    decreases replies.len(),
{
    let whole = transfer_run(TransferView::Pushing { operation, destination, url }, replies);
    let told = push_then_pull(operation, destination, url, replies);
    if replies.len() > 0 {
        let rest = replies.drop_first();
        match operation_resume(operation, replies[0]) {
            ProgressView::Next(next, request) => {
                lemma_pushing_run(next, destination, url, rest);
                let push = operation_run(next, rest);
                lemma_run_used(next, rest);
                if push.outcome matches Some(Ok(_)) {
                    assert(replies.skip(push.used as int + 1) =~= rest.skip(push.used as int));
                }
                assert(whole.requests =~= told.requests);
            },
            ProgressView::Done(Ok(_)) => {
                let (first, request) = download_start(destination, url);
                lemma_pulling_run(first, rest);
                assert(replies.skip(1) =~= rest);
                assert(whole.requests =~= told.requests);
            },
            ProgressView::Done(Err(_)) => {},
        }
    }
}

/// Fail-fast. When the source's push fails, the transfer ends with the push's
/// error and has made no request but those of the push: nothing is asked of
/// the destination.
pub proof fn lemma_fail_fast(
    source: HubView,
    destination: HubView,
    url: S3UrlView,
    replies: Seq<ReplyView>,
)
    requires
        operation_run(upload_start(source, url).0, replies).outcome matches Some(Err(_)),
    ensures
        transfer_start(source, destination, url).1 == upload_start(source, url).1,
        transfer_run(transfer_start(source, destination, url).0, replies) == operation_run(
            upload_start(source, url).0,
            replies,
        ),
{
    lemma_pushing_run(upload_start(source, url).0, destination, url, replies);
}

/// Push, then pull, each once. When the source's push succeeds on `pushing`,
/// taking all of it, and the destination's pull succeeds on `pulling`, the
/// transfer succeeds on the two in a row, and its requests are those of the
/// push, then the request that starts the pull, then those of the pull.
pub proof fn lemma_push_then_pull(
    source: HubView,
    destination: HubView,
    url: S3UrlView,
    pushing: Seq<ReplyView>,
    pulling: Seq<ReplyView>,
)
    requires
        operation_run(upload_start(source, url).0, pushing).outcome == Some(
            Ok::<(), ErrorView>(()),
        ),
        operation_run(upload_start(source, url).0, pushing).used == pushing.len(),
        operation_run(download_start(destination, url).0, pulling).outcome == Some(
            Ok::<(), ErrorView>(()),
        ),
    ensures
        ({
            let push = operation_run(upload_start(source, url).0, pushing);
            let pull = operation_run(download_start(destination, url).0, pulling);
            let whole = transfer_run(
                transfer_start(source, destination, url).0,
                pushing + pulling,
            );
            &&& transfer_start(source, destination, url).1 == upload_start(source, url).1
            &&& whole.requests == push.requests + seq![download_start(destination, url).1]
                + pull.requests
            &&& whole.outcome == Some(Ok::<(), ErrorView>(()))
            &&& whole.used == push.used + pull.used
        }),
{
    let start = upload_start(source, url).0;
    lemma_pushing_run(start, destination, url, pushing + pulling);
    lemma_run_prefix(start, pushing, pulling);
    assert((pushing + pulling).skip(pushing.len() as int) =~= pulling);
}

/// Replies that come after the end change nothing.
pub proof fn lemma_run_prefix(
    operation: OperationView,
    replies: Seq<ReplyView>,
    more: Seq<ReplyView>,
)
    requires
        operation_run(operation, replies).outcome is Some,
    ensures
        operation_run(operation, replies + more) == operation_run(operation, replies),
    decreases replies.len(),
{
    if replies.len() > 0 {
        assert((replies + more)[0] == replies[0]);
        match operation_resume(operation, replies[0]) {
            ProgressView::Next(next, _) => {
                assert((replies + more).drop_first() =~= replies.drop_first() + more);
                lemma_run_prefix(next, replies.drop_first(), more);
            },
            ProgressView::Done(_) => {},
        }
    }
}

/// The replies of `invocations.len()` rounds of waiting: each invocation is
/// reported, and each report is followed by the end of a wait.
pub open spec fn waiting_rounds(invocations: Seq<CommandInvocationView>) -> Seq<ReplyView>
    decreases invocations.len(),
{
    if invocations.len() == 0 {
        Seq::empty()
    } else {
        seq![ReplyView::Invocation(Ok(invocations[0])), ReplyView::Slept] + waiting_rounds(
            invocations.drop_first(),
        )
    }
}

/// The requests of `rounds` rounds of waiting for the command `command_id` on
/// `instance_id`: a wait, then a look, `rounds` times.
pub open spec fn waiting_requests(
    rounds: nat,
    command_id: Seq<char>,
    instance_id: Seq<char>,
) -> Seq<RequestView>
    decreases rounds,
{
    if rounds == 0 {
        Seq::empty()
    } else {
        seq![
            RequestView::Sleep { seconds: POLL_INTERVAL_SECONDS },
            RequestView::GetCommandInvocation { command_id, instance_id },
        ] + waiting_requests((rounds - 1) as nat, command_id, instance_id)
    }
}

/// Polling goes on until the first status that is terminal, and no further.
///
/// An operation that has asked for a command's status, and is told of
/// `invocations.len()` invocations that have not finished and then goes on
/// over `rest`, makes one wait and one look for each of them, in turn, and
/// then goes on over `rest` as if `rest` had come at once. With a terminal
/// status at the head of `rest` the command is thus looked at
/// `invocations.len() + 1` times, the look that started the polling counted,
/// with `invocations.len()` waits between the looks.
pub proof fn lemma_polling(
    command_id: Seq<char>,
    instance_id: Seq<char>,
    invocations: Seq<CommandInvocationView>,
    rest: Seq<ReplyView>,
)
    requires
        forall|i: int|
            0 <= i < invocations.len() ==> status_of(#[trigger] invocations[i].status).outcome()
                == Outcome::Wait,
    ensures
        ({
            let polling = OperationView::AwaitingInvocation { command_id, instance_id };
            let whole = operation_run(polling, waiting_rounds(invocations) + rest);
            let end = operation_run(polling, rest);
            &&& whole.requests == waiting_requests(invocations.len(), command_id, instance_id)
                + end.requests
            &&& whole.outcome == end.outcome
            &&& whole.used == 2 * invocations.len() + end.used
        }),
    decreases invocations.len(),
{
    let polling = OperationView::AwaitingInvocation { command_id, instance_id };
    let sleeping = OperationView::Sleeping { command_id, instance_id };
    let end = operation_run(polling, rest);
    if invocations.len() == 0 {
        assert(waiting_rounds(invocations) + rest =~= rest);
        assert(waiting_requests(0, command_id, instance_id) + end.requests =~= end.requests);
    } else {
        let later = invocations.drop_first();
        let replies = waiting_rounds(invocations) + rest;
        let after_report = replies.drop_first();
        let after_wait = after_report.drop_first();
        assert(replies[0] == ReplyView::Invocation(Ok(invocations[0])));
        assert(after_report[0] == ReplyView::Slept);
        assert(after_wait =~= waiting_rounds(later) + rest);
        assert(status_of(invocations[0].status).outcome() == Outcome::Wait);
        assert(operation_resume(polling, replies[0]) == ProgressView::Next(
            sleeping,
            RequestView::Sleep { seconds: POLL_INTERVAL_SECONDS },
        ));
        assert(operation_resume(sleeping, after_report[0]) == ProgressView::Next(
            polling,
            RequestView::GetCommandInvocation { command_id, instance_id },
        ));
        assert forall|i: int| 0 <= i < later.len() implies status_of(
            #[trigger] later[i].status,
        ).outcome() == Outcome::Wait by {
            assert(later[i] == invocations[i + 1]);
        }
        lemma_polling(command_id, instance_id, later, rest);
        let inner = operation_run(polling, after_wait);
        assert(operation_run(sleeping, after_report) == inner.after(
            RequestView::GetCommandInvocation { command_id, instance_id },
        ));
        assert(operation_run(polling, replies) == operation_run(sleeping, after_report).after(
            RequestView::Sleep { seconds: POLL_INTERVAL_SECONDS },
        ));
        assert(operation_run(polling, replies).requests =~= waiting_requests(
            invocations.len(),
            command_id,
            instance_id,
        ) + end.requests);
    }
}

/// Polling ends on the first terminal status, with what that status says.
///
/// After `invocations.len()` invocations that have not finished, an
/// invocation whose status is terminal ends the operation: in failure at
/// once, with the captured standard error or the unknown status in the
/// message; in success once the captured standard output has been shown.
pub proof fn lemma_polling_ends(
    command_id: Seq<char>,
    instance_id: Seq<char>,
    invocations: Seq<CommandInvocationView>,
    last: CommandInvocationView,
)
    requires
        forall|i: int|
            0 <= i < invocations.len() ==> status_of(#[trigger] invocations[i].status).outcome()
                == Outcome::Wait,
        status_of(last.status).is_terminal(),
    ensures
        ({
            let polling = OperationView::AwaitingInvocation { command_id, instance_id };
            let waits = waiting_requests(invocations.len(), command_id, instance_id);
            let whole = operation_run(
                polling,
                waiting_rounds(invocations) + seq![
                    ReplyView::Invocation(Ok(last)),
                    ReplyView::Printed,
                ],
            );
            match status_of(last.status).outcome() {
                Outcome::Succeeded => whole == (Run {
                    requests: waits + seq![RequestView::Print { line: success_line(last) }],
                    outcome: Some(Ok(())),
                    used: 2 * invocations.len() + 2,
                }),
                Outcome::Failed => whole == (Run {
                    requests: waits,
                    outcome: Some(
                        Err(
                            ErrorView {
                                kind: ErrorKind::RemoteCommand,
                                message: failure_message(last),
                            },
                        ),
                    ),
                    used: 2 * invocations.len() + 1,
                }),
                _ => whole == (Run {
                    requests: waits,
                    outcome: Some(
                        Err(
                            ErrorView {
                                kind: ErrorKind::RemoteCommand,
                                message: unknown_status_message(last),
                            },
                        ),
                    ),
                    used: 2 * invocations.len() + 1,
                }),
            }
        }),
{
    let polling = OperationView::AwaitingInvocation { command_id, instance_id };
    let rest = seq![ReplyView::Invocation(Ok(last)), ReplyView::Printed];
    let waits = waiting_requests(invocations.len(), command_id, instance_id);
    lemma_polling(command_id, instance_id, invocations, rest);
    let end = operation_run(polling, rest);
    let shown = rest.drop_first();
    assert(rest[0] == ReplyView::Invocation(Ok(last)));
    assert(shown[0] == ReplyView::Printed);
    assert(shown.drop_first().len() == 0);
    if status_of(last.status).outcome() == Outcome::Succeeded {
        let printing = operation_run(OperationView::Printing, shown);
        assert(printing == Run { requests: Seq::empty(), outcome: Some(Ok(())), used: 1 });
        assert(end.requests =~= seq![RequestView::Print { line: success_line(last) }]);
    } else {
        assert(waits + end.requests =~= waits);
    }
}

} // verus!
