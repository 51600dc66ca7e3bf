//! Worker lifecycles in the words of the Signal contract.
use vstd::prelude::*;
use crate::signal;
use crate::terminal::{TerminalWorkerKind, TerminalWorkerLifecycle, TerminalWorkerStop};

verus! {

/// The Signal name of a worker.
pub open spec fn signal_kind(worker: TerminalWorkerKind) -> signal::TerminalWorkerKind {
    match worker {
        TerminalWorkerKind::InputWriter => signal::TerminalWorkerKind::InputWriter,
        TerminalWorkerKind::ViewerFanout => signal::TerminalWorkerKind::ViewerFanout,
        TerminalWorkerKind::TranscriptScriber => signal::TerminalWorkerKind::TranscriptScriber,
        TerminalWorkerKind::OutputReader => signal::TerminalWorkerKind::OutputReader,
        TerminalWorkerKind::ChildExitWatcher => signal::TerminalWorkerKind::ChildExitWatcher,
        TerminalWorkerKind::SocketAcceptLoop => signal::TerminalWorkerKind::SocketAcceptLoop,
        TerminalWorkerKind::AttachConnectionPump =>
            signal::TerminalWorkerKind::AttachConnectionPump,
    }
}

/// The Signal name of the reason why a worker stopped.
pub open spec fn signal_stop(reason: TerminalWorkerStop) -> signal::TerminalWorkerStopReason {
    match reason {
        TerminalWorkerStop::InputCommandChannelClosed =>
            signal::TerminalWorkerStopReason::InputCommandChannelClosed,
        TerminalWorkerStop::InputWriteFailed(error) =>
            signal::TerminalWorkerStopReason::InputWriteFailed(error),
        TerminalWorkerStop::OutputCommandChannelClosed =>
            signal::TerminalWorkerStopReason::OutputCommandChannelClosed,
        TerminalWorkerStop::TranscriptNoticeChannelClosed =>
            signal::TerminalWorkerStopReason::TranscriptNoticeChannelClosed,
        TerminalWorkerStop::OutputReaderFinished =>
            signal::TerminalWorkerStopReason::OutputReaderFinished,
        TerminalWorkerStop::OutputReadFailed(error) =>
            signal::TerminalWorkerStopReason::OutputReadFailed(error),
        TerminalWorkerStop::OutputPortClosed => signal::TerminalWorkerStopReason::OutputPortClosed,
        TerminalWorkerStop::ChildExited(status) =>
            signal::TerminalWorkerStopReason::ChildExited(status),
        TerminalWorkerStop::ChildWaitFailed(error) =>
            signal::TerminalWorkerStopReason::ChildWaitFailed(error),
        TerminalWorkerStop::SocketAcceptFailed(error) =>
            signal::TerminalWorkerStopReason::SocketAcceptFailed(error),
        TerminalWorkerStop::AttachConnectionClosed =>
            signal::TerminalWorkerStopReason::AttachConnectionClosed,
        TerminalWorkerStop::AttachConnectionFailed(error) =>
            signal::TerminalWorkerStopReason::AttachConnectionFailed(error),
    }
}

/// A worker lifecycle in the words of the Signal contract.
pub open spec fn signal_lifecycle(
    lifecycle: TerminalWorkerLifecycle,
) -> signal::TerminalWorkerLifecycle {
    match lifecycle {
        TerminalWorkerLifecycle::Started(worker) => signal::TerminalWorkerLifecycle::Started(
            signal_kind(worker),
        ),
        TerminalWorkerLifecycle::Stopped { worker, reason } =>
            signal::TerminalWorkerLifecycle::Stopped(
            signal::TerminalWorkerStop {
                terminal_worker_kind: signal_kind(worker),
                terminal_worker_stop_reason: signal_stop(reason),
            },
        ),
    }
}

pub fn signal_worker_kind(worker: TerminalWorkerKind) -> (kind: signal::TerminalWorkerKind)
    ensures
        kind == signal_kind(worker),
{
    match worker {
        TerminalWorkerKind::InputWriter => signal::TerminalWorkerKind::InputWriter,
        TerminalWorkerKind::ViewerFanout => signal::TerminalWorkerKind::ViewerFanout,
        TerminalWorkerKind::TranscriptScriber => signal::TerminalWorkerKind::TranscriptScriber,
        TerminalWorkerKind::OutputReader => signal::TerminalWorkerKind::OutputReader,
        TerminalWorkerKind::ChildExitWatcher => signal::TerminalWorkerKind::ChildExitWatcher,
        TerminalWorkerKind::SocketAcceptLoop => signal::TerminalWorkerKind::SocketAcceptLoop,
        TerminalWorkerKind::AttachConnectionPump =>
            signal::TerminalWorkerKind::AttachConnectionPump,
    }
}

pub fn signal_worker_stop(reason: TerminalWorkerStop) -> (stop: signal::TerminalWorkerStopReason)
    ensures
        stop == signal_stop(reason),
{
    match reason {
        TerminalWorkerStop::InputCommandChannelClosed =>
            signal::TerminalWorkerStopReason::InputCommandChannelClosed,
        TerminalWorkerStop::InputWriteFailed(error) =>
            signal::TerminalWorkerStopReason::InputWriteFailed(error),
        TerminalWorkerStop::OutputCommandChannelClosed =>
            signal::TerminalWorkerStopReason::OutputCommandChannelClosed,
        TerminalWorkerStop::TranscriptNoticeChannelClosed =>
            signal::TerminalWorkerStopReason::TranscriptNoticeChannelClosed,
        TerminalWorkerStop::OutputReaderFinished =>
            signal::TerminalWorkerStopReason::OutputReaderFinished,
        TerminalWorkerStop::OutputReadFailed(error) =>
            signal::TerminalWorkerStopReason::OutputReadFailed(error),
        TerminalWorkerStop::OutputPortClosed => signal::TerminalWorkerStopReason::OutputPortClosed,
        TerminalWorkerStop::ChildExited(status) =>
            signal::TerminalWorkerStopReason::ChildExited(status),
        TerminalWorkerStop::ChildWaitFailed(error) =>
            signal::TerminalWorkerStopReason::ChildWaitFailed(error),
        TerminalWorkerStop::SocketAcceptFailed(error) =>
            signal::TerminalWorkerStopReason::SocketAcceptFailed(error),
        TerminalWorkerStop::AttachConnectionClosed =>
            signal::TerminalWorkerStopReason::AttachConnectionClosed,
        TerminalWorkerStop::AttachConnectionFailed(error) =>
            signal::TerminalWorkerStopReason::AttachConnectionFailed(error),
    }
}

pub fn signal_worker_lifecycle(lifecycle: TerminalWorkerLifecycle) -> (translated:
    signal::TerminalWorkerLifecycle)
    ensures
        translated == signal_lifecycle(lifecycle),
{
    match lifecycle {
        TerminalWorkerLifecycle::Started(worker) => signal::TerminalWorkerLifecycle::Started(
            signal_worker_kind(worker),
        ),
        TerminalWorkerLifecycle::Stopped { worker, reason } =>
            signal::TerminalWorkerLifecycle::Stopped(
            signal::TerminalWorkerStop {
                terminal_worker_kind: signal_worker_kind(worker),
                terminal_worker_stop_reason: signal_worker_stop(reason),
            },
        ),
    }
}

/// Puts lifecycles in the words of the Signal contract, in their order.
pub fn signal_worker_lifecycles(lifecycles: Vec<TerminalWorkerLifecycle>) -> (translated: Vec<
    signal::TerminalWorkerLifecycle,
>)
    ensures
        translated@ == lifecycles@.map_values(|lifecycle| signal_lifecycle(lifecycle)),
{
    let ghost all = lifecycles@;
    let mut translated: Vec<signal::TerminalWorkerLifecycle> = Vec::new();
    for lifecycle in remaining: lifecycles
        invariant
            remaining.seq() == all,
            translated@ == all.take(remaining.index() as int).map_values(
                |lifecycle| signal_lifecycle(lifecycle),
            ),
    {
        translated.push(signal_worker_lifecycle(lifecycle));
        assert(translated@ =~= all.take(remaining.index() + 1).map_values(
            |lifecycle| signal_lifecycle(lifecycle),
        ));
    }
    assert(all.take(all.len() as int) =~= all);
    translated
}

/// Different lifecycles stay different.
pub proof fn lifecycles_are_told_apart(a: TerminalWorkerLifecycle, b: TerminalWorkerLifecycle)
    requires
        signal_lifecycle(a) == signal_lifecycle(b),
    ensures
        a == b,
{
}

/// Whether the two contracts call a worker by one name.
pub open spec fn same_worker(worker: TerminalWorkerKind, kind: signal::TerminalWorkerKind) -> bool {
    match worker {
        TerminalWorkerKind::InputWriter => kind is InputWriter,
        TerminalWorkerKind::ViewerFanout => kind is ViewerFanout,
        TerminalWorkerKind::TranscriptScriber => kind is TranscriptScriber,
        TerminalWorkerKind::OutputReader => kind is OutputReader,
        TerminalWorkerKind::ChildExitWatcher => kind is ChildExitWatcher,
        TerminalWorkerKind::SocketAcceptLoop => kind is SocketAcceptLoop,
        TerminalWorkerKind::AttachConnectionPump => kind is AttachConnectionPump,
    }
}

/// Whether the two contracts call the end of a worker by one name and give one text for it.
pub open spec fn same_stop(
    reason: TerminalWorkerStop,
    stop: signal::TerminalWorkerStopReason,
) -> bool {
    match reason {
        TerminalWorkerStop::InputCommandChannelClosed => stop is InputCommandChannelClosed,
        TerminalWorkerStop::InputWriteFailed(error) =>
            stop matches signal::TerminalWorkerStopReason::InputWriteFailed(told) && told@
                == error@,
        TerminalWorkerStop::OutputCommandChannelClosed => stop is OutputCommandChannelClosed,
        TerminalWorkerStop::TranscriptNoticeChannelClosed => stop is TranscriptNoticeChannelClosed,
        TerminalWorkerStop::OutputReaderFinished => stop is OutputReaderFinished,
        TerminalWorkerStop::OutputReadFailed(error) =>
            stop matches signal::TerminalWorkerStopReason::OutputReadFailed(told) && told@
                == error@,
        TerminalWorkerStop::OutputPortClosed => stop is OutputPortClosed,
        TerminalWorkerStop::ChildExited(status) =>
            stop matches signal::TerminalWorkerStopReason::ChildExited(told) && told@ == status@,
        TerminalWorkerStop::ChildWaitFailed(error) =>
            stop matches signal::TerminalWorkerStopReason::ChildWaitFailed(told) && told@ == error@,
        TerminalWorkerStop::SocketAcceptFailed(error) =>
            stop matches signal::TerminalWorkerStopReason::SocketAcceptFailed(told) && told@
                == error@,
        TerminalWorkerStop::AttachConnectionClosed => stop is AttachConnectionClosed,
        TerminalWorkerStop::AttachConnectionFailed(error) =>
            stop matches signal::TerminalWorkerStopReason::AttachConnectionFailed(told) && told@
                == error@,
    }
}

/// A started worker is told as a start of the worker of the same name; a stopped one as a stop of
/// the worker of the same name, for the reason of the same name and with the same text.
pub proof fn lifecycles_keep_their_names(
    lifecycle: TerminalWorkerLifecycle,
    told: signal::TerminalWorkerLifecycle,
)
    requires
        call_ensures(signal_worker_lifecycle, (lifecycle,), told),
    ensures
        signal_lifecycle(lifecycle) == told,
        match lifecycle {
            TerminalWorkerLifecycle::Started(worker) => {
                &&& told matches signal::TerminalWorkerLifecycle::Started(kind)
                &&& same_worker(worker, kind)
            },
            TerminalWorkerLifecycle::Stopped { worker, reason } => {
                &&& told matches signal::TerminalWorkerLifecycle::Stopped(stop)
                &&& same_worker(worker, stop.terminal_worker_kind)
                &&& same_stop(reason, stop.terminal_worker_stop_reason)
            },
        },
{
}

/// The start and the stop of one worker name one kind of worker.
pub proof fn start_and_stop_name_the_same_worker(
    worker: TerminalWorkerKind,
    reason: TerminalWorkerStop,
    started: signal::TerminalWorkerLifecycle,
    stopped: signal::TerminalWorkerLifecycle,
)
    requires
        call_ensures(
            signal_worker_lifecycle,
            (TerminalWorkerLifecycle::Started(worker),),
            started,
        ),
        call_ensures(
            signal_worker_lifecycle,
            (TerminalWorkerLifecycle::Stopped { worker, reason },),
            stopped,
        ),
    ensures
        ({
            &&& started matches signal::TerminalWorkerLifecycle::Started(kind)
            &&& stopped matches signal::TerminalWorkerLifecycle::Stopped(stop)
            &&& stop.terminal_worker_kind == kind
            &&& same_worker(worker, kind)
        }),
{
}

/// Names and reasons are put in the other contract's words one by one, as they are inside a
/// lifecycle.
pub proof fn kinds_and_stops_keep_their_names(
    worker: TerminalWorkerKind,
    kind: signal::TerminalWorkerKind,
    reason: TerminalWorkerStop,
    stop: signal::TerminalWorkerStopReason,
)
    requires
        call_ensures(signal_worker_kind, (worker,), kind),
        call_ensures(signal_worker_stop, (reason,), stop),
    ensures
        same_worker(worker, kind),
        same_stop(reason, stop),
{
}

/// A history keeps its length and its order: what stands at a place is told at that place.
pub proof fn histories_keep_their_order(
    lifecycles: Vec<TerminalWorkerLifecycle>,
    told: Vec<signal::TerminalWorkerLifecycle>,
    place: int,
    alone: signal::TerminalWorkerLifecycle,
)
    requires
        call_ensures(signal_worker_lifecycles, (lifecycles,), told),
        0 <= place < lifecycles@.len(),
        call_ensures(signal_worker_lifecycle, (lifecycles@[place],), alone),
    ensures
        told@.len() == lifecycles@.len(),
        told@[place] == alone,
{
}

} // verus!
