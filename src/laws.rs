//! Properties that hold across several operations of the dock.
use vstd::prelude::*;
use crate::commands::{class_of, DockCommand, DockCommandDispatcherType};
use crate::dock::{increasing, submitted, superseded_log, took_all, took_oldest, Coalesced, Dock};
use crate::ids::{IDGen, IdSpace};

verus! {

/// The ids that a run of submissions was given, in submission order.
pub open spec fn submitted_ids(states: Seq<Dock>, n: nat) -> Seq<u32> {
    Seq::new(n, |i: int| states[i].ids().next_command())
}

/// `states` are the docks before and after each of `commands`, submitted in
/// turn, all of class `c`.
pub open spec fn submission_run(
    states: Seq<Dock>,
    commands: Seq<DockCommand>,
    c: DockCommandDispatcherType,
) -> bool {
    &&& states.len() == commands.len() + 1
    &&& forall|i: int|
        0 <= i < commands.len() ==> class_of(#[trigger] commands[i]) == c && submitted(
            states[i],
            states[i + 1],
            commands[i],
        )
}

proof fn lemma_submission_run(
    states: Seq<Dock>,
    commands: Seq<DockCommand>,
    c: DockCommandDispatcherType,
    j: int,
)
    requires
        submission_run(states, commands, c),
        0 <= j <= commands.len(),
    ensures
        states[j].pending(c) == states[0].pending(c) + submitted_ids(states, j as nat),
        states[j].ids().next_command() == states[0].ids().next_command() + j,
        forall|k: int|
            0 <= k < j ==> states[j].stored().contains_key(#[trigger] submitted_ids(states, j as nat)[k])
                && states[j].stored()[submitted_ids(states, j as nat)[k]] == commands[k],
    decreases j,
{
    if j > 0 {
        lemma_submission_run(states, commands, c, j - 1);
        assert(class_of(commands[j - 1]) == c);
        assert(submitted_ids(states, j as nat) =~= submitted_ids(states, (j - 1) as nat).push(
            states[j - 1].ids().next_command(),
        ));
        assert(states[j].pending(c) =~= states[0].pending(c) + submitted_ids(states, j as nat));
        assert forall|k: int| 0 <= k < j implies states[j].stored().contains_key(
            #[trigger] submitted_ids(states, j as nat)[k],
        ) && states[j].stored()[submitted_ids(states, j as nat)[k]] == commands[k] by {
            if k < j - 1 {
                lemma_submission_run(states, commands, c, k);
                assert(submitted_ids(states, j as nat)[k] == submitted_ids(states, (j - 1) as nat)[k]);
                assert(states[k].ids().next_command() < states[j - 1].ids().next_command());
            }
        }
    } else {
        assert(submitted_ids(states, 0) =~= Seq::<u32>::empty());
        assert(states[0].pending(c) + Seq::<u32>::empty() =~= states[0].pending(c));
    }
}

/// Within one class, commands are taken in the order in which they were
/// submitted: starting from an empty queue of class `c`, after the
/// submissions `commands` (the docks before and after each are `subs`), the
/// ordered worker's takes (the docks before and after each are `takes`) find
/// the submitted ids oldest first, and those ids increase.
pub proof fn law_fifo_per_class(
    subs: Seq<Dock>,
    commands: Seq<DockCommand>,
    takes: Seq<Dock>,
    c: DockCommandDispatcherType,
)
    requires
        subs[0].pending(c).len() == 0,
        submission_run(subs, commands, c),
        1 <= takes.len() <= subs.len(),
        takes[0] == subs.last(),
        take_run(takes, c),
    ensures
        subs.last().pending(c) == submitted_ids(subs, commands.len()),
        increasing(subs.last().pending(c)),
        forall|i: int|
            0 <= i < takes.len() - 1 ==> #[trigger] takes[i].pending(c)[0] == subs[i].ids().next_command(),
{
    let n = commands.len();
    lemma_submission_run(subs, commands, c, n as int);
    assert(subs[n as int].pending(c) =~= submitted_ids(subs, n));
    assert forall|i: int| 0 <= i < n implies #[trigger] subs[i].ids().next_command()
        == subs[0].ids().next_command() + i by {
        lemma_submission_run(subs, commands, c, i);
    }
    assert forall|i: int| 0 <= i < takes.len() - 1 implies #[trigger] takes[i].pending(c)[0]
        == subs[i].ids().next_command() by {
        lemma_take_run(takes, c, i);
        assert(submitted_ids(subs, n)[i] == subs[i].ids().next_command());
    }
}

/// `takes` are the docks before and after each of a run of ordered takes of
/// class `c`.
pub open spec fn take_run(takes: Seq<Dock>, c: DockCommandDispatcherType) -> bool {
    forall|k: int| 0 <= k < takes.len() - 1 ==> #[trigger] take_step(takes, c, k)
}

/// Take `k` of a run: from `takes[k]` to `takes[k + 1]`.
pub open spec fn take_step(takes: Seq<Dock>, c: DockCommandDispatcherType, k: int) -> bool {
    took_oldest(takes[k], takes[k + 1], c)
}

/// Queue `k + 1` is queue `k` with its oldest id taken.
spec fn drop_step(ps: Seq<Seq<u32>>, k: int) -> bool {
    ps[k].len() > 0 && ps[k + 1] == ps[k].drop_first()
}

proof fn lemma_drop_run(ps: Seq<Seq<u32>>, i: int)
    requires
        forall|k: int| 0 <= k < i ==> #[trigger] drop_step(ps, k),
        0 <= i < ps.len(),
    ensures
        i <= ps[0].len(),
        ps[i] == ps[0].skip(i),
    decreases i,
{
    if i > 0 {
        lemma_drop_run(ps, i - 1);
        assert(drop_step(ps, i - 1));
        let a = ps[0].skip(i - 1);
        assert(ps[i - 1] == a);
        assert(a.len() == ps[0].len() - (i - 1));
        assert(ps[i] == a.drop_first());
        assert(ps[i] =~= ps[0].skip(i));
    } else {
        assert(ps[0] =~= ps[0].skip(0));
    }
}

/// Each ordered take finds the next oldest id of the first queue.
proof fn lemma_take_run(takes: Seq<Dock>, c: DockCommandDispatcherType, i: int)
    requires
        take_run(takes, c),
        0 <= i < takes.len() - 1,
    ensures
        takes[i].pending(c)[0] == takes[0].pending(c)[i],
        i < takes[0].pending(c).len(),
{
    let ps = Seq::new(takes.len(), |k: int| takes[k].pending(c));
    assert forall|k: int| 0 <= k < i implies #[trigger] drop_step(ps, k) by {
        assert(take_step(takes, c, k));
    }
    lemma_drop_run(ps, i);
    assert(take_step(takes, c, i));
    assert(ps[i] == takes[i].pending(c));
}

/// Ids only grow: an id that a space issued (from `issued_from`, leaving
/// `issued_to`) is at least 1, and smaller than any id that the space issues
/// from a later state `later`.
pub proof fn law_ids_increase(
    issued_from: IDGen,
    issued_to: IDGen,
    later: IDGen,
    space: IdSpace,
    first: u32,
    second: u32,
)
    requires
        issued_from.wf(),
        first == issued_from.next_in(space),
        issued_to.next_in(space) == first + 1,
        issued_to.reaches(later),
        second == later.next_in(space),
    ensures
        1 <= first < second,
{
}

/// An entity added under `id` (from `before`, leaving `added`) and then
/// removed (leaving `removed`) is gone both ways: neither `id` nor its handle
/// `handle` is in the table any more, so lookups by either fail.
pub proof fn law_removed_entity_gone(before: Dock, added: Dock, removed: Dock, id: u32, handle: u64)
    requires
        before.wf(),
        !before.entities().contains_value(handle),
        id == before.ids().next_entity(),
        added.entities() == before.entities().insert(id, handle),
        removed.entities() == added.entities().remove(id),
    ensures
        !removed.entities().contains_key(id),
        !removed.entities().contains_value(handle),
{
    before.lemma_wf();
    if removed.entities().contains_value(handle) {
        let j = choose|j: u32| #[trigger]
            removed.entities().contains_key(j) && removed.entities()[j] == handle;
        assert(before.entities().contains_key(j) && before.entities()[j] == handle);
    }
}

/// An entity added under `id` with handle `handle` (from `before`, leaving
/// `added`) is found both ways: `id` maps to `handle`, and `handle` to `id`
/// alone.
pub proof fn law_entity_round_trip(before: Dock, added: Dock, id: u32, handle: u64)
    requires
        !before.entities().contains_value(handle),
        added.entities() == before.entities().insert(id, handle),
    ensures
        added.entities().contains_key(id),
        added.entities()[id] == handle,
        forall|j: u32|
            added.entities().contains_key(j) && #[trigger] added.entities()[j] == handle ==> j == id,
{
    assert forall|j: u32|
        added.entities().contains_key(j) && #[trigger] added.entities()[j] == handle implies j
        == id by {
        if j != id {
            assert(before.entities().contains_key(j) && before.entities()[j] == handle);
        }
    }
}

/// Coalescing: `commands` (at least one) submitted to class `c` within one
/// tick, from an empty queue (the docks before and after each are `subs`),
/// then one coalescing take (`co`, leaving `after`): the first n - 1 commands
/// are resolved as superseded, each once and in submission order, and the
/// n-th alone is handed on to apply.
pub proof fn law_coalesce_latest_wins(
    subs: Seq<Dock>,
    commands: Seq<DockCommand>,
    c: DockCommandDispatcherType,
    after: Dock,
    co: Coalesced,
)
    requires
        subs[0].pending(c).len() == 0,
        submission_run(subs, commands, c),
        commands.len() >= 1,
        took_all(subs.last(), after, c, co),
    ensures
        co.superseded@ == submitted_ids(subs, (commands.len() - 1) as nat),
        match co.latest {
            Some(d) => d.command_id() == subs[commands.len() - 1].ids().next_command() && d.command()
                == commands[commands.len() - 1],
            None => false,
        },
        after.pending(c).len() == 0,
        after.resolutions() == subs.last().resolutions() + superseded_log(
            submitted_ids(subs, (commands.len() - 1) as nat),
        ),
{
    let n = commands.len();
    lemma_submission_run(subs, commands, c, n as int);
    let q = subs.last().pending(c);
    assert(q =~= submitted_ids(subs, n));
    assert(co.superseded@ =~= submitted_ids(subs, (n - 1) as nat));
    assert(q.last() == submitted_ids(subs, n)[n - 1]);
}

} // verus!
