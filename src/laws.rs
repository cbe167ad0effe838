use vstd::prelude::*;

use crate::error::PumpError;
use crate::pump::{next, start_spec, Action, Event, Phase, Pump, SendReport, BACKOFF_MS};

verus! {

/// The state reached and the actions decided when the pump takes events in order.
pub open spec fn run(s: Pump, es: Seq<Event>) -> (Pump, Seq<Action>)
    decreases es.len(),
{
    if es.len() == 0 {
        (s, Seq::empty())
    } else {
        let prev = run(s, es.drop_last());
        let last = next(prev.0, es.last());
        (last.0, prev.1.push(last.1))
    }
}

pub open spec fn count_sends(acts: Seq<Action>) -> nat
    decreases acts.len(),
{
    if acts.len() == 0 {
        0
    } else {
        count_sends(acts.drop_last()) + if acts.last() is Send {
            1nat
        } else {
            0nat
        }
    }
}

pub open spec fn count_reads(acts: Seq<Action>) -> nat
    decreases acts.len(),
{
    if acts.len() == 0 {
        0
    } else {
        count_reads(acts.drop_last()) + if acts.last() is Read {
            1nat
        } else {
            0nat
        }
    }
}

pub open spec fn count_connects(acts: Seq<Action>) -> nat
    decreases acts.len(),
{
    if acts.len() == 0 {
        0
    } else {
        count_connects(acts.drop_last()) + if acts.last() is Connect {
            1nat
        } else {
            0nat
        }
    }
}

pub open spec fn count_triggers(es: Seq<Event>) -> nat
    decreases es.len(),
{
    if es.len() == 0 {
        0
    } else {
        count_triggers(es.drop_last()) + if es.last() is Trigger {
            1nat
        } else {
            0nat
        }
    }
}

/// 1 while a read is under way, whose payload may still be sent.
pub open spec fn pending_read(s: Pump) -> nat {
    if s.phase is Reading {
        1
    } else {
        0
    }
}

pub open spec fn connect_failures(n: nat) -> Seq<Event> {
    Seq::new(n, |i: int| Event::ConnectFailed)
}

pub open spec fn retries_from(a: u64, n: nat) -> Seq<Action> {
    Seq::new(n, |i: int| Action::Connect { attempt: (a + i + 1) as u64, delay_ms: BACKOFF_MS })
}

/// Running two sequences of events one after the other is running their concatenation.
pub proof fn lemma_run_append(s: Pump, a: Seq<Event>, b: Seq<Event>)
    ensures
        run(s, a + b) == (run(run(s, a).0, b).0, run(s, a).1 + run(run(s, a).0, b).1),
    decreases b.len(),
{
    if b.len() == 0 {
        assert(a + b =~= a);
        assert(run(s, a).1 + run(run(s, a).0, b).1 =~= run(s, a).1);
    } else {
        lemma_run_append(s, a, b.drop_last());
        assert((a + b).drop_last() =~= a + b.drop_last());
        assert((a + b).last() == b.last());
        let mid = run(run(s, a).0, b.drop_last());
        let last = next(mid.0, b.last());
        assert((run(s, a).1 + mid.1).push(last.1) =~= run(s, a).1 + mid.1.push(last.1));
    }
}

/// The action counts of a concatenation add up.
pub proof fn lemma_counts_append(x: Seq<Action>, y: Seq<Action>)
    ensures
        count_sends(x + y) == count_sends(x) + count_sends(y),
        count_reads(x + y) == count_reads(x) + count_reads(y),
        count_connects(x + y) == count_connects(x) + count_connects(y),
    decreases y.len(),
{
    if y.len() == 0 {
        assert(x + y =~= x);
    } else {
        lemma_counts_append(x, y.drop_last());
        assert((x + y).drop_last() =~= x + y.drop_last());
        assert((x + y).last() == y.last());
    }
}

/// Counting one more action.
pub proof fn lemma_counts_push(acts: Seq<Action>, a: Action)
    ensures
        count_sends(acts.push(a)) == count_sends(acts) + if a is Send {
            1nat
        } else {
            0nat
        },
        count_reads(acts.push(a)) == count_reads(acts) + if a is Read {
            1nat
        } else {
            0nat
        },
        count_connects(acts.push(a)) == count_connects(acts) + if a is Connect {
            1nat
        } else {
            0nat
        },
{
    assert(acts.push(a).drop_last() =~= acts);
}

/// One step of a run.
pub proof fn lemma_run_step(s: Pump, es: Seq<Event>)
    requires
        es.len() > 0,
    ensures
        run(s, es) == (next(run(s, es.drop_last()).0, es.last()).0, run(
            s,
            es.drop_last(),
        ).1.push(next(run(s, es.drop_last()).0, es.last()).1)),
{
}

/// Every payload sent answers a trigger: over any sequence of events the pump
/// sends no more payloads than it takes triggers, counting a read already under
/// way as one.
pub proof fn law_at_most_one_send_per_trigger(s: Pump, es: Seq<Event>)
    ensures
        count_sends(run(s, es).1) + pending_read(run(s, es).0) <= count_triggers(es)
            + pending_read(s),
    decreases es.len(),
{
    if es.len() > 0 {
        law_at_most_one_send_per_trigger(s, es.drop_last());
        lemma_run_step(s, es);
        let prev = run(s, es.drop_last());
        lemma_counts_push(prev.1, next(prev.0, es.last()).1);
    }
}

/// Events other than triggers start no read and leave the last token as it was.
pub proof fn lemma_no_trigger(s: Pump, es: Seq<Event>)
    requires
        forall|i: int| 0 <= i < es.len() ==> !(es[i] is Trigger),
    ensures
        run(s, es).0.last_token == s.last_token,
        count_reads(run(s, es).1) == 0,
    decreases es.len(),
{
    if es.len() > 0 {
        lemma_no_trigger(s, es.drop_last());
        assert(!(es[es.len() - 1] is Trigger));
        lemma_run_step(s, es);
        let prev = run(s, es.drop_last());
        lemma_counts_push(prev.1, next(prev.0, es.last()).1);
    }
}

/// A notification that repeats the token of the one before it starts no cycle:
/// two notifications with the same token, with no other trigger between them,
/// give exactly one read and at most one send.
pub proof fn law_repeated_token_one_cycle(s: Pump, t: u64, mid: Seq<Event>)
    requires
        s.phase is Idle,
        s.last_token != Some(t),
        forall|i: int| 0 <= i < mid.len() ==> !(mid[i] is Trigger),
    ensures
        ({
            let es = seq![Event::Trigger { token: Some(t) }] + mid + seq![
                Event::Trigger { token: Some(t) },
            ];
            &&& count_reads(run(s, es).1) == 1
            &&& count_sends(run(s, es).1) <= 1
        }),
{
    let first = seq![Event::Trigger { token: Some(t) }];
    let es = first + mid + first;
    assert(first.drop_last() =~= Seq::<Event>::empty());
    let r1 = run(s, first);
    lemma_run_step(s, first);
    assert(run(s, first.drop_last()) == (s, Seq::<Action>::empty()));
    assert(r1.0.last_token == Some(t));
    assert(r1.0.phase is Reading);
    assert(r1.1 =~= seq![Action::Read]);
    lemma_counts_push(Seq::<Action>::empty(), Action::Read);
    assert(r1.1 =~= Seq::<Action>::empty().push(Action::Read));
    lemma_run_append(s, first, mid);
    let r2 = run(r1.0, mid);
    lemma_no_trigger(r1.0, mid);
    law_at_most_one_send_per_trigger(r1.0, mid);
    assert(count_triggers(mid) == 0) by {
        lemma_no_trigger_count(mid);
    }
    lemma_run_append(s, first + mid, first);
    let r3 = run(r2.0, first);
    lemma_run_step(r2.0, first);
    assert(run(r2.0, first.drop_last()) == (r2.0, Seq::<Action>::empty()));
    assert(r3.1 == seq![next(r2.0, Event::Trigger { token: Some(t) }).1]);
    assert(!(r3.1.last() is Read) && !(r3.1.last() is Send));
    lemma_counts_push(Seq::<Action>::empty(), r3.1.last());
    assert(r3.1 =~= Seq::<Action>::empty().push(r3.1.last()));
    lemma_counts_append(r1.1, r2.1);
    lemma_counts_append(r1.1 + r2.1, r3.1);
}

proof fn lemma_no_trigger_count(es: Seq<Event>)
    requires
        forall|i: int| 0 <= i < es.len() ==> !(es[i] is Trigger),
    ensures
        count_triggers(es) == 0,
    decreases es.len(),
{
    if es.len() > 0 {
        lemma_no_trigger_count(es.drop_last());
        assert(!(es[es.len() - 1] is Trigger));
    }
}

/// A failed read leaves the connection as it was: the session goes on with the
/// same run count, the failure is only reported, and no reconnection begins.
pub proof fn law_read_failure_keeps_connection(s: Pump, err: PumpError)
    ensures
        next(s, Event::ReadDone(Err(err))).0.connected() == s.connected(),
        !(next(s, Event::ReadDone(Err(err))).1 is Connect),
        s.phase matches Phase::Reading { run_count } ==> next(
            s,
            Event::ReadDone(Err(err)),
        ) == (Pump { phase: Phase::Idle { run_count }, ..s }, Action::Skip(err)),
{
}

/// After a failed read the pump waits for the next trigger on the same
/// connection; a later read that succeeds is sent once, as usual, and its
/// delivery counts one more run of the session.
pub proof fn law_read_failure_then_recovery(
    s: Pump,
    run_count: u64,
    err: PumpError,
    payload: String,
)
    requires
        s.phase == (Phase::Reading { run_count }),
        run_count < u64::MAX,
    ensures
        ({
            let es = seq![
                Event::ReadDone(Err(err)),
                Event::Trigger { token: None },
                Event::ReadDone(Ok(payload)),
                Event::SendDone(SendReport::Delivered),
            ];
            &&& run(s, es).1 == seq![
                Action::Skip(err),
                Action::Read,
                Action::Send(payload),
                Action::AwaitTrigger,
            ]
            &&& run(s, es).0.phase == (Phase::Idle { run_count: (run_count + 1) as u64 })
            &&& forall|k: int| 0 <= k <= es.len() ==> run(s, es.subrange(0, k)).0.connected()
        }),
{
    let es = seq![
        Event::ReadDone(Err(err)),
        Event::Trigger { token: None },
        Event::ReadDone(Ok(payload)),
        Event::SendDone(SendReport::Delivered),
    ];
    assert(es.subrange(0, 0) =~= Seq::<Event>::empty());
    assert forall|k: int| 1 <= k <= es.len() implies es.subrange(0, k).drop_last() =~= es.subrange(
        0,
        k - 1,
    ) && es.subrange(0, k).last() == es[k - 1] by {}
    lemma_run_step(s, es.subrange(0, 1));
    lemma_run_step(s, es.subrange(0, 2));
    lemma_run_step(s, es.subrange(0, 3));
    lemma_run_step(s, es.subrange(0, 4));
    assert(es.subrange(0, 4) =~= es);
    assert(run(s, es).1 =~= seq![
        Action::Skip(err),
        Action::Read,
        Action::Send(payload),
        Action::AwaitTrigger,
    ]);
}

/// A payload that fails after a successful probe means a dead connection,
/// exactly as a failed probe does.
pub proof fn law_data_failure_is_probe_failure(s: Pump)
    ensures
        next(s, Event::SendDone(SendReport::DataFailed)) == next(
            s,
            Event::SendDone(SendReport::ProbeFailed),
        ),
{
}

/// Events other than a successful connection keep a pump that is connecting
/// connecting, and it neither reads nor sends meanwhile.
pub proof fn lemma_stays_disconnected(s: Pump, es: Seq<Event>)
    requires
        !s.connected(),
        forall|i: int| 0 <= i < es.len() ==> !(es[i] is Connected),
    ensures
        !run(s, es).0.connected(),
        count_reads(run(s, es).1) == 0,
        count_sends(run(s, es).1) == 0,
    decreases es.len(),
{
    if es.len() > 0 {
        lemma_stays_disconnected(s, es.drop_last());
        assert(!(es[es.len() - 1] is Connected));
        lemma_run_step(s, es);
        let prev = run(s, es.drop_last());
        lemma_counts_push(prev.1, next(prev.0, es.last()).1);
    }
}

/// A failed send, of the probe or of the payload, ends the session: the
/// connection is dropped, one reconnection begins at its first attempt, and no
/// new session starts, nor any read or send, before a connection is made.
pub proof fn law_send_failure_reconnects(s: Pump, rep: SendReport, es: Seq<Event>)
    requires
        s.phase is Sending,
        rep != SendReport::Delivered,
        forall|i: int| 0 <= i < es.len() ==> !(es[i] is Connected),
    ensures
        next(s, Event::SendDone(rep)).1 == (Action::Connect { attempt: 1, delay_ms: 0 }),
        next(s, Event::SendDone(rep)).0.phase == (Phase::Connecting { attempt: 1 }),
        !run(next(s, Event::SendDone(rep)).0, es).0.connected(),
        count_reads(run(next(s, Event::SendDone(rep)).0, es).1) == 0,
        count_sends(run(next(s, Event::SendDone(rep)).0, es).1) == 0,
{
    lemma_stays_disconnected(next(s, Event::SendDone(rep)).0, es);
}

proof fn lemma_failures(s: Pump, a: u64, n: nat)
    requires
        s.phase == (Phase::Connecting { attempt: a }),
        a + n <= u64::MAX,
    ensures
        run(s, connect_failures(n)) == (
            (Pump { phase: Phase::Connecting { attempt: (a + n) as u64 }, ..s }),
            retries_from(a, n),
        ),
    decreases n,
{
    if n > 0 {
        lemma_failures(s, a, (n - 1) as nat);
        assert(connect_failures(n).drop_last() =~= connect_failures((n - 1) as nat));
        lemma_run_step(s, connect_failures(n));
        assert(retries_from(a, (n - 1) as nat).push(
            Action::Connect { attempt: (a + n) as u64, delay_ms: BACKOFF_MS },
        ) =~= retries_from(a, n));
    } else {
        assert(connect_failures(n) =~= Seq::<Event>::empty());
        assert(retries_from(a, n) =~= Seq::<Action>::empty());
    }
}

proof fn lemma_all_connects(acts: Seq<Action>)
    requires
        forall|i: int| 0 <= i < acts.len() ==> acts[i] is Connect,
    ensures
        count_connects(acts) == acts.len(),
    decreases acts.len(),
{
    if acts.len() > 0 {
        lemma_all_connects(acts.drop_last());
        assert(acts.last() is Connect);
    }
}

/// Connecting never gives up and never returns a failure: from a fresh start,
/// each of `n` failed attempts is followed by another after the fixed backoff,
/// and the first success opens a session, after `n + 1` attempts in all.
pub proof fn law_connect_retries(n: nat)
    requires
        n < u64::MAX,
    ensures
        ({
            let s0 = start_spec().0;
            let first = start_spec().1;
            let r = run(s0, connect_failures(n).push(Event::Connected));
            &&& first == Action::Connect { attempt: 1, delay_ms: 0 }
            &&& r.1.len() == n + 1
            &&& forall|i: int|
                0 <= i < n ==> r.1[i] == Action::Connect {
                    attempt: (i + 2) as u64,
                    delay_ms: BACKOFF_MS,
                }
            &&& r.1[n as int] == Action::AwaitTrigger
            &&& r.0.phase == Phase::Idle { run_count: 1 }
            &&& count_connects(seq![first] + r.1) == n + 1
        }),
{
    let s0 = start_spec().0;
    let first = start_spec().1;
    let es = connect_failures(n).push(Event::Connected);
    lemma_failures(s0, 1, n);
    assert(es.drop_last() =~= connect_failures(n));
    lemma_run_step(s0, es);
    let r = run(s0, es);
    let retries = retries_from(1, n);
    assert(r.1 == retries.push(Action::AwaitTrigger));
    assert forall|i: int| 0 <= i < n implies r.1[i] == Action::Connect {
        attempt: (i + 2) as u64,
        delay_ms: BACKOFF_MS,
    } by {
        assert(r.1[i] == retries[i]);
    }
    lemma_all_connects(seq![first] + retries);
    lemma_counts_push(seq![first] + retries, Action::AwaitTrigger);
    assert(seq![first] + r.1 =~= (seq![first] + retries).push(Action::AwaitTrigger));
}

} // verus!
