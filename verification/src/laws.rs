//! What holds of every run and of every relay, proved from the models.

use vstd::prelude::*;
use crate::message_receiver::{MessageReceiverView, MessageView, Reply, RequestView};
use crate::place_runner::{
    execution_cmd, launch_args, launcher, plugin_file_name, PlaceRunnerView,
};
use crate::text::{contains, decimal, digit, occurs_at};
use crate::session::{
    ActionView, EventView, Phase, RunError, SessionView, HANDSHAKE_TIMEOUT_SECS,
};

verus! {

/// Different numbers have different numerals.
pub proof fn lemma_numerals_differ(a: nat, b: nat)
    requires
        decimal(a) == decimal(b),
    ensures
        a == b,
    decreases a,
{
    lemma_numeral_is_not_empty(a / 10);
    lemma_numeral_is_not_empty(b / 10);
    if a < 10 && b < 10 {
        assert(decimal(a)[0] == digit(a));
        assert(decimal(b)[0] == digit(b));
    } else if a >= 10 && b >= 10 {
        let front_a = decimal(a / 10);
        let front_b = decimal(b / 10);
        assert(front_a.push(digit(a % 10)).drop_last() =~= front_a);
        assert(front_b.push(digit(b % 10)).drop_last() =~= front_b);
        assert(front_a.push(digit(a % 10)).last() == digit(a % 10));
        assert(front_b.push(digit(b % 10)).last() == digit(b % 10));
        lemma_numerals_differ(a / 10, b / 10);
    } else {
        assert(decimal(a).len() != decimal(b).len());
    }
}

proof fn lemma_numeral_is_not_empty(n: nat)
    ensures
        decimal(n).len() >= 1,
    decreases n,
{
    if n >= 10 {
        lemma_numeral_is_not_empty(n / 10);
    }
}

/// Runs on different ports never share a plugin file.
pub proof fn lemma_ports_do_not_share_a_plugin_file(one: u16, other: u16)
    requires
        plugin_file_name(one) == plugin_file_name(other),
    ensures
        one == other,
{
    let front = "run_in_roblox-"@;
    let back = ".rbxmx"@;
    let a = decimal(one as nat);
    let b = decimal(other as nat);
    let left = front + a + back;
    let right = front + b + back;
    assert(left.len() == front.len() + a.len() + back.len());
    assert(right.len() == front.len() + b.len() + back.len());
    assert forall|i: int| 0 <= i < a.len() implies a[i] == b[i] by {
        assert(left[front.len() + i] == a[i]);
        assert(right[front.len() + i] == b[i]);
    }
    assert(a =~= b);
    lemma_numerals_differ(one as nat, other as nat);
}

/// Studio is started through the launcher exactly where the path of its
/// executable names the launcher: then the program is the launcher and the
/// place follows the subcommand; otherwise the program is the executable
/// and the place is the only argument.
pub proof fn lemma_launcher_is_used_where_the_path_names_it(
    app_path: Seq<char>,
    place_path: Seq<char>,
)
    ensures
        ({
            let program = execution_cmd(app_path);
            if contains(app_path, launcher()) {
                &&& program == launcher()
                &&& launch_args(program, place_path) == seq!["studio"@, "run"@, place_path]
            } else {
                &&& program == app_path
                &&& launch_args(program, place_path) == seq![place_path]
            }
        }),
{
    let name = launcher();
    assert(name.subrange(0, name.len() as int) =~= name);
    assert(occurs_at(name, name, 0));
}

/// A step keeps the invariant.
pub proof fn lemma_advance_keeps_invariant(session: SessionView, event: EventView)
    requires
        session.inv(),
    ensures
        session.advance(event).inv(),
{
}

/// Every session reached from one that satisfies the invariant satisfies
/// it too.
pub proof fn lemma_run_keeps_invariant(session: SessionView, events: Seq<EventView>)
    requires
        session.inv(),
    ensures
        session.run(events).inv(),
    decreases events.len(),
{
    if events.len() > 0 {
        lemma_advance_keeps_invariant(session, events[0]);
        lemma_run_keeps_invariant(session.advance(events[0]), events.drop_first());
    }
}

/// What a session takes itself to hold is what the host has reported: the
/// plugin file is on disk from the completed `WriteArtifact` to the
/// completed `RemoveArtifact`, the relay listens from the completed
/// `StartRelay` to the completed `StopRelay`, the Studio process lives from
/// the completed `Spawn` to the completed `KillProcess`, and no other
/// report changes any of the three.
pub proof fn lemma_holdings_follow_reports(session: SessionView, event: EventView)
    requires
        session.inv(),
    ensures
        ({
            let next = session.advance(event);
            let completed = event == EventView::Completed;
            &&& next.artifact_present == if completed && session.action() is WriteArtifact {
                true
            } else if completed && session.action() is RemoveArtifact {
                false
            } else {
                session.artifact_present
            }
            &&& next.relay_running == if completed && session.action() is StartRelay {
                true
            } else if completed && session.action() is StopRelay {
                false
            } else {
                session.relay_running
            }
            &&& next.process_running == if completed && session.action() is Spawn {
                true
            } else if completed && session.action() is KillProcess {
                false
            } else {
                session.process_running
            }
        }),
{
}

/// Once a run has returned, whatever the host reported on the way, the
/// Studio process is no longer alive and the relay no longer listens; and
/// if it returned `Ok`, the plugin file is gone as well.
pub proof fn lemma_finished_run_holds_nothing(runner: PlaceRunnerView, events: Seq<EventView>)
    ensures
        ({
            let end = SessionView::start(runner).run(events);
            &&& end.phase == Phase::Finished ==> !end.process_running && !end.relay_running
            &&& end.action() == ActionView::Return(Ok(())) ==> {
                &&& !end.process_running
                &&& !end.relay_running
                &&& !end.artifact_present
            }
        }),
{
    lemma_run_keeps_invariant(SessionView::start(runner), events);
}

/// The first fatal error of a run is the one it ends with: once a run is
/// winding down after `error`, nothing the host reports changes that.
pub proof fn lemma_failure_is_kept(session: SessionView, error: RunError, events: Seq<EventView>)
    requires
        session.inv(),
        session.failure == Some(error),
    ensures
        session.run(events).failure == Some(error),
    decreases events.len(),
{
    if events.len() > 0 {
        lemma_advance_keeps_invariant(session, events[0]);
        lemma_failure_is_kept(session.advance(events[0]), error, events.drop_first());
    }
}

/// What a failed handshake leads to: the relay is stopped, the plugin file
/// removed and the Studio process killed, in that order, before the run
/// returns `error`; and whatever the host reports instead, the run returns
/// nothing else and never before the process is gone.
proof fn lemma_failed_handshake(waiting: SessionView, event: EventView, error: RunError, later: Seq<EventView>)
    requires
        waiting.inv(),
        waiting.phase == Phase::AwaitingStart,
        waiting.advance(event) == waiting.wind_down(Some(error)),
    ensures
        ({
            let failed = waiting.advance(event);
            let stopped = failed.advance(EventView::Completed);
            let removed = stopped.advance(EventView::Completed);
            let killed = removed.advance(EventView::Completed);
            let end = failed.run(later);
            &&& failed.action() == ActionView::StopRelay
            &&& stopped.action() is RemoveArtifact
            &&& removed.action() == ActionView::KillProcess
            &&& killed.action() == ActionView::Return(Err(error))
            &&& end.failure == Some(error)
            &&& end.phase == Phase::Finished ==> {
                &&& end.action() == ActionView::Return(Err(error))
                &&& !end.process_running
            }
        }),
{
    let failed = waiting.advance(event);
    lemma_advance_keeps_invariant(waiting, event);
    lemma_failure_is_kept(failed, error, later);
    lemma_run_keeps_invariant(failed, later);
}

/// If the plugin's first message is not a start signal, the run is a
/// protocol violation: the session stops the relay, removes the plugin
/// file and kills the Studio process before it returns that error, and no
/// report of the host makes it return anything else or return while the
/// process is alive.
pub proof fn lemma_invalid_first_message_is_fatal(
    waiting: SessionView,
    first: MessageView,
    later: Seq<EventView>,
)
    requires
        waiting.inv(),
        waiting.phase == Phase::AwaitingStart,
        first != MessageView::Start,
    ensures
        ({
            let failed = waiting.advance(EventView::Received(first));
            let stopped = failed.advance(EventView::Completed);
            let removed = stopped.advance(EventView::Completed);
            let killed = removed.advance(EventView::Completed);
            let end = failed.run(later);
            &&& failed.action() == ActionView::StopRelay
            &&& stopped.action() is RemoveArtifact
            &&& removed.action() == ActionView::KillProcess
            &&& killed.action() == ActionView::Return(Err(RunError::ProtocolViolation))
            &&& end.failure == Some(RunError::ProtocolViolation)
            &&& end.phase == Phase::Finished ==> {
                &&& end.action() == ActionView::Return(Err(RunError::ProtocolViolation))
                &&& !end.process_running
            }
        }),
{
    lemma_failed_handshake(
        waiting,
        EventView::Received(first),
        RunError::ProtocolViolation,
        later,
    );
}

/// If nothing arrives within the handshake bound, the run is a timeout:
/// the session stops the relay, removes the plugin file and kills the
/// Studio process before it returns that error, and no report of the host
/// makes it return anything else or return while the process is alive.
pub proof fn lemma_handshake_timeout_is_fatal(waiting: SessionView, later: Seq<EventView>)
    requires
        waiting.inv(),
        waiting.phase == Phase::AwaitingStart,
    ensures
        ({
            let failed = waiting.advance(EventView::TimedOut);
            let stopped = failed.advance(EventView::Completed);
            let removed = stopped.advance(EventView::Completed);
            let killed = removed.advance(EventView::Completed);
            let end = failed.run(later);
            &&& waiting.action() == ActionView::AwaitStart { timeout_secs: HANDSHAKE_TIMEOUT_SECS }
            &&& failed.action() == ActionView::StopRelay
            &&& stopped.action() is RemoveArtifact
            &&& removed.action() == ActionView::KillProcess
            &&& killed.action() == ActionView::Return(Err(RunError::Timeout))
            &&& !killed.artifact_present
            &&& end.failure == Some(RunError::Timeout)
            &&& end.phase == Phase::Finished ==> {
                &&& end.action() == ActionView::Return(Err(RunError::Timeout))
                &&& !end.process_running
            }
        }),
{
    lemma_failed_handshake(waiting, EventView::TimedOut, RunError::Timeout, later);
}

/// `count` reports of `Completed`.
pub open spec fn acknowledgements(count: nat) -> Seq<EventView> {
    Seq::new(count, |i: int| EventView::Completed)
}

/// How many items a message puts on the output channel.
pub open spec fn items_of(message: MessageView) -> nat {
    match message {
        MessageView::Start => 0,
        MessageView::Stop => 1,
        MessageView::Messages(events) => events.len(),
    }
}

/// What the host reports while the relay hands over `messages`, oldest
/// first, and the output channel takes every item: each message as it is
/// received, then one `Completed` for every item it puts on the channel.
pub open spec fn smooth_relay(messages: Seq<MessageView>) -> Seq<EventView>
    decreases messages.len(),
{
    if messages.len() == 0 {
        Seq::empty()
    } else {
        seq![EventView::Received(messages[0])] + acknowledgements(items_of(messages[0]))
            + smooth_relay(messages.drop_first())
    }
}

/// Each event as an item of the output channel.
pub open spec fn wrapped(events: Seq<Seq<char>>) -> Seq<Option<Seq<char>>> {
    Seq::new(events.len(), |i: int| Some(events[i]))
}

/// The events that `messages` carry, in the order of arrival, as items of
/// the output channel.
pub open spec fn relayed(messages: Seq<MessageView>) -> Seq<Option<Seq<char>>>
    decreases messages.len(),
{
    if messages.len() == 0 {
        Seq::empty()
    } else {
        let first = match messages[0] {
            MessageView::Messages(events) => wrapped(events),
            _ => Seq::empty(),
        };
        first + relayed(messages.drop_first())
    }
}

/// Reports can be taken in two parts.
pub proof fn lemma_run_in_two_parts(session: SessionView, first: Seq<EventView>, second: Seq<EventView>)
    ensures
        session.run(first + second) == session.run(first).run(second),
        session.sent(first + second) == session.sent(first) + session.run(first).sent(second),
    decreases first.len(),
{
    if first.len() == 0 {
        assert(first + second =~= second);
        assert(session.sent(first) + session.run(first).sent(second) =~= session.sent(second));
    } else {
        let whole = first + second;
        assert(whole[0] == first[0]);
        assert(whole.drop_first() =~= first.drop_first() + second);
        lemma_run_in_two_parts(session.advance(first[0]), first.drop_first(), second);
        assert(session.sent(whole) =~= session.sent(first) + session.run(first).sent(second));
    }
}

/// A batch under delivery goes out event by event, from the cursor on,
/// while the channel takes them, and the session then waits for the next
/// message.
proof fn lemma_batch_goes_out(session: SessionView)
    requires
        session.inv(),
        session.phase == Phase::Delivering,
    ensures
        ({
            let count = (session.batch.len() - session.cursor) as nat;
            &&& session.run(acknowledgements(count)) == SessionView {
                phase: Phase::Relaying,
                batch: Seq::empty(),
                cursor: 0,
                ..session
            }
            &&& session.sent(acknowledgements(count)) == wrapped(
                session.batch.subrange(session.cursor as int, session.batch.len() as int),
            )
        }),
    decreases session.batch.len() - session.cursor,
{
    let count = (session.batch.len() - session.cursor) as nat;
    let script = acknowledgements(count);
    let next = session.advance(EventView::Completed);
    let rest = script.drop_first();
    assert(script[0] == EventView::Completed);
    let left = session.batch.subrange(session.cursor as int, session.batch.len() as int);
    if session.cursor + 1 < session.batch.len() {
        assert(rest =~= acknowledgements((count - 1) as nat));
        lemma_batch_goes_out(next);
        let later = next.batch.subrange(next.cursor as int, next.batch.len() as int);
        assert(seq![Some(session.batch[session.cursor as int])] + wrapped(later) =~= wrapped(left));
    } else {
        assert(rest =~= Seq::<EventView>::empty());
        assert(next.run(rest) == next);
        assert(next.sent(rest) =~= Seq::<Option<Seq<char>>>::empty());
        assert(seq![Some(session.batch[session.cursor as int])] =~= wrapped(left));
        assert(session.sent(script) =~= seq![Some(session.batch[session.cursor as int])] + next.sent(
            rest,
        ));
    }
}

/// One message that is not a stop signal, received while relaying: its
/// events go out in order, and the session waits for the next message as
/// it did before.
proof fn lemma_one_message_goes_out(relaying: SessionView, message: MessageView)
    requires
        relaying.inv(),
        relaying.phase == Phase::Relaying,
        message != MessageView::Stop,
    ensures
        ({
            let script = seq![EventView::Received(message)] + acknowledgements(items_of(message));
            &&& relaying.run(script) == relaying
            &&& relaying.sent(script) == relayed(seq![message])
        }),
{
    let head = seq![EventView::Received(message)];
    let acks = acknowledgements(items_of(message));
    let next = relaying.advance(EventView::Received(message));
    lemma_run_in_two_parts(relaying, head, acks);
    assert(head.drop_first() =~= Seq::<EventView>::empty());
    assert(next.run(head.drop_first()) == next);
    assert(next.sent(head.drop_first()) =~= Seq::<Option<Seq<char>>>::empty());
    assert(relaying.run(head) == next);
    assert(relaying.sent(head) =~= Seq::<Option<Seq<char>>>::empty());
    assert(seq![message].drop_first() =~= Seq::<MessageView>::empty());
    assert(relayed(seq![message].drop_first()) =~= Seq::<Option<Seq<char>>>::empty());
    match message {
        MessageView::Messages(events) => {
            if events.len() > 0 {
                lemma_batch_goes_out(next);
                assert(events.subrange(0, events.len() as int) =~= events);
                assert(next.run(acks) =~= relaying);
            } else {
                assert(acks =~= Seq::<EventView>::empty());
            }
            assert(relayed(seq![message]) =~= wrapped(events));
            assert(relaying.sent(head + acks) =~= wrapped(events));
        },
        _ => {
            assert(acks =~= Seq::<EventView>::empty());
            assert(relayed(seq![message]) =~= Seq::<Option<Seq<char>>>::empty());
        },
    }
}

/// The stop signal, received while relaying: one end marker goes out and
/// the session winds down without a failure.
proof fn lemma_stop_closes_the_stream(relaying: SessionView)
    requires
        relaying.inv(),
        relaying.phase == Phase::Relaying,
    ensures
        ({
            let script = smooth_relay(seq![MessageView::Stop]);
            &&& relaying.run(script) == relaying.wind_down(None)
            &&& relaying.sent(script) == seq![None::<Seq<char>>]
        }),
{
    let script = smooth_relay(seq![MessageView::Stop]);
    let plain = seq![EventView::Received(MessageView::Stop), EventView::Completed];
    assert(seq![MessageView::Stop].drop_first() =~= Seq::<MessageView>::empty());
    assert(smooth_relay(Seq::<MessageView>::empty()) =~= Seq::<EventView>::empty());
    assert(script =~= plain);
    let closing = relaying.advance(EventView::Received(MessageView::Stop));
    let tail = plain.drop_first();
    assert(tail =~= seq![EventView::Completed]);
    assert(tail.drop_first() =~= Seq::<EventView>::empty());
    let down = closing.advance(EventView::Completed);
    assert(down.run(tail.drop_first()) == down);
    assert(closing.run(tail) == down);
    assert(relaying.run(plain) == down);
    assert(down.sent(tail.drop_first()) =~= Seq::<Option<Seq<char>>>::empty());
    assert(closing.sent(tail) =~= seq![None::<Seq<char>>]);
    assert(relaying.sent(plain) =~= seq![None::<Seq<char>>]);
}

/// Whatever messages arrive after the handshake and before the stop
/// signal, the output channel receives exactly the events they carry, in
/// the order of arrival, none twice and none left out, and then exactly
/// one end marker; the session then winds down without a failure.
pub proof fn lemma_relay_delivers_everything_in_order(
    relaying: SessionView,
    messages: Seq<MessageView>,
)
    requires
        relaying.inv(),
        relaying.phase == Phase::Relaying,
        forall|i: int| 0 <= i < messages.len() ==> messages[i] != MessageView::Stop,
    ensures
        ({
            let script = smooth_relay(messages.push(MessageView::Stop));
            &&& relaying.sent(script) == relayed(messages).push(None)
            &&& relaying.run(script) == relaying.wind_down(None)
        }),
    decreases messages.len(),
{
    let all = messages.push(MessageView::Stop);
    if messages.len() == 0 {
        assert(all =~= seq![MessageView::Stop]);
        lemma_stop_closes_the_stream(relaying);
        assert(relayed(messages).push(None) =~= seq![None::<Seq<char>>]);
    } else {
        let first = messages[0];
        let rest = messages.drop_first();
        let head = seq![EventView::Received(first)] + acknowledgements(items_of(first));
        assert(all[0] == first);
        assert(all.drop_first() =~= rest.push(MessageView::Stop));
        let tail = smooth_relay(rest.push(MessageView::Stop));
        assert(smooth_relay(all) == head + tail);
        lemma_one_message_goes_out(relaying, first);
        lemma_run_in_two_parts(relaying, head, tail);
        assert forall|i: int| 0 <= i < rest.len() implies rest[i] != MessageView::Stop by {
            assert(rest[i] == messages[i + 1]);
        }
        lemma_relay_delivers_everything_in_order(relaying, rest);
        assert(seq![first].drop_first() =~= Seq::<MessageView>::empty());
        assert(relayed(seq![first].drop_first()) =~= Seq::<Option<Seq<char>>>::empty());
        assert(relayed(seq![first]) =~= match first {
            MessageView::Messages(events) => wrapped(events),
            _ => Seq::empty(),
        });
        assert(relayed(messages).push(None) =~= relayed(seq![first]) + relayed(rest).push(None));
    }
}

/// A session that is winding down, or has finished, puts nothing on the
/// output channel any more.
pub open spec fn past_relaying(session: SessionView) -> bool {
    ||| session.phase == Phase::StoppingRelay
    ||| session.phase == Phase::RemovingArtifact
    ||| session.phase == Phase::Killing
    ||| session.phase == Phase::Finished
}

proof fn lemma_nothing_sent_past_relaying(session: SessionView, events: Seq<EventView>)
    requires
        past_relaying(session),
    ensures
        past_relaying(session.run(events)),
        session.sent(events) == Seq::<Option<Seq<char>>>::empty(),
    decreases events.len(),
{
    if events.len() > 0 {
        lemma_nothing_sent_past_relaying(session.advance(events[0]), events.drop_first());
    }
}

/// No item follows the end marker on the output channel.
pub proof fn lemma_end_marker_comes_last(session: SessionView, events: Seq<EventView>)
    requires
        session.inv(),
    ensures
        forall|i: int|
            0 <= i < session.sent(events).len() && session.sent(events)[i] is None ==> i
                == session.sent(events).len() - 1,
    decreases events.len(),
{
    if events.len() > 0 {
        let next = session.advance(events[0]);
        let rest = next.sent(events.drop_first());
        lemma_advance_keeps_invariant(session, events[0]);
        lemma_end_marker_comes_last(next, events.drop_first());
        if session.phase == Phase::Closing && events[0] == EventView::Completed {
            lemma_nothing_sent_past_relaying(next, events.drop_first());
            assert(session.sent(events) =~= seq![None::<Seq<char>>]);
        } else if session.phase == Phase::Delivering && events[0] == EventView::Completed {
            let item = Some(session.batch[session.cursor as int]);
            assert(session.sent(events) =~= seq![item] + rest);
        } else {
            assert(session.sent(events) =~= rest);
        }
    }
}

/// One more report, taken after the others.
proof fn lemma_one_more_report(session: SessionView, events: Seq<EventView>, last: EventView)
    ensures
        session.run(events.push(last)) == session.run(events).advance(last),
        session.sent(events.push(last)) == session.sent(events) + session.run(events).sent(
            seq![last],
        ),
{
    let one = seq![last];
    assert(events.push(last) =~= events + one);
    lemma_run_in_two_parts(session, events, one);
    let before = session.run(events);
    assert(one.drop_first() =~= Seq::<EventView>::empty());
    assert(before.advance(last).run(one.drop_first()) == before.advance(last));
}

proof fn lemma_clean_end_was_marked(session: SessionView, events: Seq<EventView>)
    requires
        session.inv(),
        !past_relaying(session),
    ensures
        ({
            let end = session.run(events);
            let out = session.sent(events);
            past_relaying(end) && end.failure is None ==> out.len() > 0 && out.last() is None
        }),
    decreases events.len(),
{
    if events.len() > 0 {
        let earlier = events.drop_last();
        let last = events.last();
        assert(events =~= earlier.push(last));
        lemma_clean_end_was_marked(session, earlier);
        lemma_one_more_report(session, earlier, last);
        lemma_run_keeps_invariant(session, earlier);
        let before = session.run(earlier);
        let one = seq![last];
        assert(one.drop_first() =~= Seq::<EventView>::empty());
        assert(before.advance(last).sent(one.drop_first()) =~= Seq::<Option<Seq<char>>>::empty());
        if before.phase == Phase::Closing && last == EventView::Completed {
            assert(before.sent(one) =~= seq![None::<Seq<char>>]);
        } else if before.phase == Phase::Delivering && last == EventView::Completed {
        } else {
            assert(before.sent(one) =~= Seq::<Option<Seq<char>>>::empty());
            assert(session.sent(events) =~= session.sent(earlier));
        }
    }
}

/// The output channel carries events and then at most one end marker,
/// which nothing follows; and a run returns `Ok` only after the end marker
/// has gone out.
pub proof fn lemma_output_ends_with_one_marker(
    runner: PlaceRunnerView,
    events: Seq<EventView>,
)
    ensures
        ({
            let end = SessionView::start(runner).run(events);
            let out = SessionView::start(runner).sent(events);
            &&& forall|i: int| 0 <= i < out.len() && out[i] is None ==> i == out.len() - 1
            &&& end.action() == ActionView::Return(Ok(())) ==> out.len() > 0 && out.last() is None
        }),
{
    lemma_end_marker_comes_last(SessionView::start(runner), events);
    lemma_clean_end_was_marked(SessionView::start(runner), events);
}

/// The messages of those among `requests` that `relay` lets in, in the
/// order of arrival.
pub open spec fn admitted(relay: MessageReceiverView, requests: Seq<RequestView>) -> Seq<
    MessageView,
>
    decreases requests.len(),
{
    if requests.len() == 0 {
        Seq::empty()
    } else {
        let first = if relay.reply(requests[0]) == Reply::Accepted {
            seq![requests[0].payload->0]
        } else {
            Seq::empty()
        };
        first + admitted(relay, requests.drop_first())
    }
}

/// The queue is first in, first out, and nothing enters it but the
/// messages of the requests let in: after any requests the relay holds
/// what it held, then those messages in the order of arrival, each once.
pub proof fn lemma_queue_keeps_arrival_order(relay: MessageReceiverView, requests: Seq<RequestView>)
    ensures
        relay.serve(requests) == (MessageReceiverView {
            queue: relay.queue + admitted(relay, requests),
            ..relay
        }),
    decreases requests.len(),
{
    if requests.len() == 0 {
        assert(relay.queue + admitted(relay, requests) =~= relay.queue);
    } else {
        let next = relay.submit(requests[0]);
        let rest = requests.drop_first();
        lemma_queue_keeps_arrival_order(next, rest);
        lemma_admission_ignores_queue(next, relay, rest);
        assert(next.queue + admitted(relay, rest) =~= relay.queue + admitted(relay, requests));
    }
}

/// Which requests are let in depends on the settings and on whether the
/// relay listens, not on what it holds.
proof fn lemma_admission_ignores_queue(
    one: MessageReceiverView,
    other: MessageReceiverView,
    requests: Seq<RequestView>,
)
    requires
        one.server_id == other.server_id,
        one.listening == other.listening,
    ensures
        admitted(one, requests) == admitted(other, requests),
    decreases requests.len(),
{
    if requests.len() > 0 {
        lemma_admission_ignores_queue(one, other, requests.drop_first());
    }
}

/// A request that presents no token, or another than the session's, leaves no
/// trace: with it or without it among the requests, the relay ends up
/// holding the same messages, so nothing of it can reach the output.
pub proof fn lemma_wrong_token_leaves_no_trace(
    relay: MessageReceiverView,
    requests: Seq<RequestView>,
    at: int,
)
    requires
        0 <= at < requests.len(),
        requests[at].token != Some(relay.server_id),
    ensures
        relay.submit(requests[at]) == relay,
        relay.serve(requests) == relay.serve(requests.remove(at)),
    decreases requests.len(),
{
    let rest = requests.drop_first();
    if at == 0 {
        assert(requests.remove(0) =~= rest);
    } else {
        let next = relay.submit(requests[0]);
        let without = requests.remove(at);
        assert(without[0] == requests[0]);
        assert(without.drop_first() =~= rest.remove(at - 1));
        assert(rest[at - 1] == requests[at]);
        lemma_wrong_token_leaves_no_trace(next, rest, at - 1);
    }
}

/// Stopping never fails, and stopping again changes nothing: a relay
/// stopped twice is a relay stopped once, a relay that never listened is
/// unchanged by a stop, and a stopped relay lets nothing in.
pub proof fn lemma_stop_is_idempotent(relay: MessageReceiverView, requests: Seq<RequestView>)
    ensures
        relay.stop().stop() == relay.stop(),
        !relay.listening ==> relay.stop() == relay,
        MessageReceiverView::idle(relay.port, relay.server_id).stop() == MessageReceiverView::idle(
            relay.port,
            relay.server_id,
        ),
        relay.stop().serve(requests) == relay.stop(),
    decreases requests.len(),
{
    if requests.len() > 0 {
        lemma_stop_is_idempotent(relay, requests.drop_first());
    }
}

} // verus!
