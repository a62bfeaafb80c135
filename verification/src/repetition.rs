//! How far apart the commands to the heater lie over a whole run.
//!
//! The heater forgets its settings after ten minutes. What the thermostat waits
//! for by itself never keeps it from asking in time; only what happens outside,
//! an exchange with the daemon or an event that comes late, puts a command off,
//! and by no more than the time that it takes.
use crate::control::{ActionView, Control, Phase, RunEvent, COOL_DOWN, KEEP_ALIVE};
use crate::control;
use crate::ebusd;
use crate::laws;
use vstd::prelude::*;

verus! {

/// The state before event `k` of `events`.
pub open spec fn state_before(c: Control, events: Seq<(RunEvent, u64)>, k: int) -> Control {
    laws::after_all(c, events.take(k))
}

/// What is to be done after event `k` of `events`.
pub open spec fn action_after(c: Control, events: Seq<(RunEvent, u64)>, k: int) -> ActionView {
    state_before(c, events, k).moved(events[k].0, events[k].1).1
}

/// No event comes before an earlier one, nor before the heater was last asked
/// for settings.
pub open spec fn in_order(c: Control, events: Seq<(RunEvent, u64)>) -> bool {
    &&& forall|a: int, b: int| 0 <= a <= b < events.len() ==> events[a].1 <= events[b].1
    &&& events.len() > 0 ==> (c.last_mode_set_time matches Some(last) ==> last <= events[0].1)
}

/// For how long an action lets time pass: until the settings are to be
/// repeated, or until the pause is over.
pub open spec fn allowance(action: ActionView) -> int {
    match action {
        ActionView::Wait { repeat_in, hold_until } => repeat_in as int,
        ActionView::CoolDown(pause) => pause as int,
        _ => 0,
    }
}

/// The part of the time between an action and the event that answers it which
/// the action does not ask for.
pub open spec fn delay(action: ActionView, elapsed: int) -> int {
    if elapsed > allowance(action) {
        elapsed - allowance(action)
    } else {
        0
    }
}

/// The time that was spent outside between events `i` and `j`.
pub open spec fn outside_time(c: Control, events: Seq<(RunEvent, u64)>, i: int, j: int) -> int
    decreases j - i,
{
    if j <= i {
        0
    } else {
        outside_time(c, events, i, j - 1) + delay(
            action_after(c, events, j - 1),
            events[j].1 - events[j - 1].1,
        )
    }
}

/// How many events between `i` and `j` answer an action that leaves no time to
/// pass, such as an exchange with the daemon.
pub open spec fn outside_answers(c: Control, events: Seq<(RunEvent, u64)>, i: int, j: int) -> nat
    decreases j - i,
{
    if j <= i {
        0
    } else {
        let action = action_after(c, events, j - 1);
        outside_answers(c, events, i, j - 1) + if action is Wait || action is CoolDown {
            0nat
        } else {
            1nat
        }
    }
}

/// Between events `i` and `j` each wait is answered when the settings are to be
/// repeated or before, each pause when it is over or before, and all else
/// within `limit`.
pub open spec fn answered_within(
    c: Control,
    events: Seq<(RunEvent, u64)>,
    i: int,
    j: int,
    limit: nat,
) -> bool {
    forall|k: int|
        i <= k < j ==> {
            let action = #[trigger] action_after(c, events, k);
            let elapsed = events[k + 1].1 - events[k].1;
            if action is Wait || action is CoolDown {
                elapsed <= allowance(action)
            } else {
                elapsed <= limit
            }
        }
}

/// A pause was begun after event `i` and before event `j`.
pub open spec fn paused(c: Control, events: Seq<(RunEvent, u64)>, i: int, j: int) -> bool {
    exists|m: int| i < m < j && #[trigger] action_after(c, events, m) is CoolDown
}

/// How far apart two commands lie but for the time spent outside.
pub open spec fn gap(paused: bool) -> int {
    if paused {
        COOL_DOWN as int
    } else {
        KEEP_ALIVE as int
    }
}

// ---------------------------------------------------------------------------
// Lemmas
// ---------------------------------------------------------------------------

/// The state after event `k` is the one before the next.
proof fn lemma_next_state(c: Control, events: Seq<(RunEvent, u64)>, k: int)
    requires
        0 <= k < events.len(),
    ensures
        state_before(c, events, k + 1) == state_before(c, events, k).moved(
            events[k].0,
            events[k].1,
        ).0,
{
    assert(events.take(k + 1).drop_last() =~= events.take(k));
    assert(events.take(k + 1).last() == events[k]);
}

/// Event `k` can come where it comes.
proof fn lemma_accepted_at(c: Control, events: Seq<(RunEvent, u64)>, k: int)
    requires
        laws::all_accepted(c, events),
        0 <= k < events.len(),
    ensures
        state_before(c, events, k).accepts_spec(events[k].0),
    decreases events.len(),
{
    let front = events.drop_last();
    if k == events.len() - 1 {
        assert(events.take(k) =~= front);
    } else {
        lemma_accepted_at(c, front, k);
        assert(front.take(k) =~= events.take(k));
        assert(front[k] == events[k]);
    }
}

/// Before each event the state is well-formed, and the heater was last asked
/// for settings no later than at that event.
proof fn lemma_known_at(c: Control, events: Seq<(RunEvent, u64)>, k: int)
    requires
        c.wf(),
        laws::all_accepted(c, events),
        in_order(c, events),
        0 <= k < events.len(),
    ensures
        state_before(c, events, k).wf(),
        state_before(c, events, k).last_mode_set_time matches Some(last) ==> last <= events[k].1,
    decreases k,
{
    if k == 0 {
        assert(events.take(0) =~= Seq::empty());
    } else {
        let before = state_before(c, events, k - 1);
        lemma_known_at(c, events, k - 1);
        lemma_accepted_at(c, events, k - 1);
        lemma_next_state(c, events, k - 1);
        before.lemma_wf_kept(events[k - 1].0, events[k - 1].1);
        laws::law_last_asked(before, events[k - 1].0, events[k - 1].1);
    }
}

/// What is known at the time `now` of a state that `action` has led to, when
/// the last command was sent at `sent_at` and `outside` was spent outside
/// since.
spec fn since_sent(
    c: Control,
    action: ActionView,
    sent_at: int,
    now: u64,
    paused: bool,
    outside: int,
) -> bool {
    &&& sent_at <= now <= sent_at + gap(paused) + outside
    &&& 0 <= outside
    &&& c.last_mode_set_time matches Some(last) ==> last <= now && last <= sent_at + outside
    &&& match c.phase {
        Phase::Sending(_, _) | Phase::Reconnecting(_, _) | Phase::Defining(_, _) => {
            &&& now <= sent_at + outside
            &&& !paused
            &&& allowance(action) == 0
        },
        Phase::CoolingDown(_, _) => {
            &&& now <= sent_at + outside
            &&& paused
            &&& allowance(action) == COOL_DOWN
        },
        Phase::Waiting => allowance(action) == control::repeat_delay(c.last_mode_set_time, now),
        _ => allowance(action) == 0,
    }
}

/// The next event comes in time.
proof fn lemma_in_time(
    c: Control,
    action: ActionView,
    sent_at: int,
    then: u64,
    now: u64,
    paused: bool,
    outside: int,
)
    requires
        c.wf(),
        since_sent(c, action, sent_at, then, paused, outside),
        then <= now,
    ensures
        now <= sent_at + gap(paused) + outside + delay(action, now - then),
{
}

/// An event that leads to no command keeps what is known.
proof fn lemma_since_sent_kept(
    c: Control,
    action: ActionView,
    sent_at: int,
    then: u64,
    event: RunEvent,
    now: u64,
    paused: bool,
    outside: int,
)
    requires
        c.wf(),
        c.accepts_spec(event),
        since_sent(c, action, sent_at, then, paused, outside),
        then <= now,
        c.moved(event, now).1 !is Send,
    ensures
        ({
            let (after, next) = c.moved(event, now);
            since_sent(
                after,
                next,
                sent_at,
                now,
                paused || next is CoolDown,
                outside + delay(action, now - then),
            )
        }),
{
    lemma_in_time(c, action, sent_at, then, now, paused, outside);
}

/// What is known when a command has just been sent.
proof fn lemma_just_sent(c: Control, event: RunEvent, now: u64)
    requires
        c.wf(),
        c.accepts_spec(event),
        c.last_mode_set_time matches Some(last) ==> last <= now,
        c.moved(event, now).1 is Send,
    ensures
        ({
            let (after, action) = c.moved(event, now);
            since_sent(after, action, now as int, now, false, 0)
        }),
{
    laws::law_commands(c, event, now);
    laws::law_last_asked(c, event, now);
}

/// A pause between `i` and the event after `j` lies before `j` or begins there.
proof fn lemma_paused_next(c: Control, events: Seq<(RunEvent, u64)>, i: int, j: int)
    requires
        i < j,
    ensures
        paused(c, events, i, j + 1) == (paused(c, events, i, j) || action_after(
            c,
            events,
            j,
        ) is CoolDown),
{
    if paused(c, events, i, j) {
        let m = choose|m: int| i < m < j && #[trigger] action_after(c, events, m) is CoolDown;
        assert(i < m < j + 1 && action_after(c, events, m) is CoolDown);
    }
}

/// What is known after event `j`, when the last command was sent after event
/// `i`.
#[verifier::spinoff_prover]
#[verifier::rlimit(50)]
proof fn lemma_since_sent(c: Control, events: Seq<(RunEvent, u64)>, i: int, j: int)
    requires
        c.wf(),
        laws::all_accepted(c, events),
        in_order(c, events),
        0 <= i <= j < events.len(),
        action_after(c, events, i) is Send,
        forall|k: int| i < k <= j ==> #[trigger] action_after(c, events, k) !is Send,
    ensures
        since_sent(
            state_before(c, events, j + 1),
            action_after(c, events, j),
            events[i].1 as int,
            events[j].1,
            paused(c, events, i, j + 1),
            outside_time(c, events, i, j),
        ),
    decreases j - i,
{
    let before = state_before(c, events, j);
    lemma_known_at(c, events, j);
    lemma_accepted_at(c, events, j);
    lemma_next_state(c, events, j);
    if i == j {
        lemma_just_sent(before, events[j].0, events[j].1);
        assert(!paused(c, events, i, j + 1));
    } else {
        lemma_since_sent(c, events, i, j - 1);
        lemma_since_sent_kept(
            before,
            action_after(c, events, j - 1),
            events[i].1 as int,
            events[j - 1].1,
            events[j].0,
            events[j].1,
            paused(c, events, i, j),
            outside_time(c, events, i, j - 1),
        );
        lemma_paused_next(c, events, i, j);
    }
}

// ---------------------------------------------------------------------------
// Laws
// ---------------------------------------------------------------------------

/// The heater is kept informed: from a command to the next, and to any event on
/// the way there, no more than five minutes pass, or ten where a pause lies
/// between, besides the time that is spent outside. The next command may open a
/// new run.
pub proof fn law_commands_recur(c: Control, events: Seq<(RunEvent, u64)>, i: int, j: int)
    requires
        c.wf(),
        laws::all_accepted(c, events),
        in_order(c, events),
        0 <= i < j < events.len(),
        action_after(c, events, i) is Send,
        forall|k: int| i < k < j ==> #[trigger] action_after(c, events, k) !is Send,
    ensures
        events[j].1 - events[i].1 <= gap(paused(c, events, i, j)) + outside_time(c, events, i, j),
{
    lemma_since_sent(c, events, i, j - 1);
    lemma_known_at(c, events, j);
    lemma_in_time(
        state_before(c, events, j),
        action_after(c, events, j - 1),
        events[i].1 as int,
        events[j - 1].1,
        events[j].1,
        paused(c, events, i, j),
        outside_time(c, events, i, j - 1),
    );
}

/// Where waits and pauses are answered in time and all else within `limit`, the
/// time spent outside is at most `limit` for each answer from outside.
pub proof fn law_outside_time(
    c: Control,
    events: Seq<(RunEvent, u64)>,
    i: int,
    j: int,
    limit: nat,
)
    requires
        0 <= i <= j < events.len(),
        answered_within(c, events, i, j, limit),
    ensures
        outside_time(c, events, i, j) <= outside_answers(c, events, i, j) * limit,
    decreases j - i,
{
    if i == j {
        assert(0 * limit == 0) by (nonlinear_arith);
    } else {
        law_outside_time(c, events, i, j - 1, limit);
        let n = outside_answers(c, events, i, j - 1);
        assert((n + 1) * limit == n * limit + limit) by (nonlinear_arith);
    }
}

/// Where waits and pauses are answered in time and all else within `limit`, a
/// command follows the last within five minutes, or ten across a pause, and
/// `limit` for each answer from outside.
pub proof fn law_commands_recur_within(
    c: Control,
    events: Seq<(RunEvent, u64)>,
    i: int,
    j: int,
    limit: nat,
)
    requires
        c.wf(),
        laws::all_accepted(c, events),
        in_order(c, events),
        0 <= i < j < events.len(),
        action_after(c, events, i) is Send,
        forall|k: int| i < k < j ==> #[trigger] action_after(c, events, k) !is Send,
        answered_within(c, events, i, j, limit),
    ensures
        events[j].1 - events[i].1 <= gap(paused(c, events, i, j)) + outside_answers(
            c,
            events,
            i,
            j,
        ) * limit,
{
    law_commands_recur(c, events, i, j);
    law_outside_time(c, events, i, j, limit);
}

/// A command is sent at least once in ten minutes, the time after which the
/// heater forgets its settings, as long as no pause is made and no more than
/// five minutes are spent outside between two commands; across a pause nothing
/// but the time spent outside is added to the ten minutes. When the time has
/// come, the command carries the settings in force.
pub proof fn law_ten_minutes(c: Control, events: Seq<(RunEvent, u64)>, i: int, j: int)
    requires
        c.wf(),
        laws::all_accepted(c, events),
        in_order(c, events),
        0 <= i < j < events.len(),
        action_after(c, events, i) is Send,
        forall|k: int| i < k < j ==> #[trigger] action_after(c, events, k) !is Send,
    ensures
        !paused(c, events, i, j) && outside_time(c, events, i, j) <= KEEP_ALIVE
            ==> events[j].1 - events[i].1 <= 2 * KEEP_ALIVE,
        events[j].1 - events[i].1 <= 2 * KEEP_ALIVE + outside_time(c, events, i, j),
        events[j].0 is KeepAliveDue ==> action_after(c, events, j) == ActionView::Send(
            ebusd::set_mode_command(state_before(c, events, j).settings),
        ),
{
    law_commands_recur(c, events, i, j);
    lemma_accepted_at(c, events, j);
}

} // verus!
