//! What holds of every backup, whatever the collaborators reply.
use crate::backup::{
    is_slow, BackupJob, BackupReply, BackupRequest, BackupState, SinkJob, SinkReply, SinkRequest,
    SinkState,
};
use crate::procedure::{is_run, law_run_is_bounded, Procedure};
use crate::types::{ApplyEvents, CmdBatch};
use vstd::prelude::*;

verus! {

/// Whether `steps` are those of the backup of `batches`, on these replies.
pub open spec fn is_backup_of(
    batches: Vec<CmdBatch>,
    steps: Seq<BackupJob>,
    replies: Seq<BackupReply>,
) -> bool {
    &&& is_run(steps, replies)
    &&& steps[0] == BackupJob::first(batches)
}

/// A backup keeps to its batches, and has one in hand until it is done.
pub proof fn law_backup_keeps_to_its_batches(
    batches: Vec<CmdBatch>,
    steps: Seq<BackupJob>,
    replies: Seq<BackupReply>,
    i: int,
)
    requires
        is_backup_of(batches, steps, replies),
        0 <= i < steps.len(),
    ensures
        steps[i].batches == batches,
        steps[i].wf(),
    decreases i,
{
    if i > 0 {
        law_backup_keeps_to_its_batches(batches, steps, replies, i - 1);
        assert(steps[i - 1].leads_to(replies[i - 1], steps[i]));
        assert(steps[i - 1].index < batches.len());
    }
}

/// Every batch up to the one in hand has been looked at.
pub proof fn law_batches_are_dealt_with_in_order(
    batches: Vec<CmdBatch>,
    steps: Seq<BackupJob>,
    replies: Seq<BackupReply>,
    i: int,
    k: int,
)
    requires
        is_backup_of(batches, steps, replies),
        0 <= i < steps.len(),
        0 <= k <= steps[i].index,
        k < batches@.len(),
    ensures
        exists|j: int|
            0 <= j <= i && (#[trigger] steps[j]).index == k && steps[j].pending() == (
            BackupRequest::FindSubscription { region_id: batches@[k].region_id }),
    decreases i,
{
    law_backup_keeps_to_its_batches(batches, steps, replies, i);
    if i > 0 {
        law_backup_keeps_to_its_batches(batches, steps, replies, i - 1);
        assert(steps[i - 1].leads_to(replies[i - 1], steps[i]));
        assert(steps[i - 1].answered_by(replies[i - 1]));
        assert(steps[i - 1].index < batches.len());
        if k <= steps[i - 1].index {
            law_batches_are_dealt_with_in_order(batches, steps, replies, i - 1, k);
        } else {
            assert(steps[i].pending() == (BackupRequest::FindSubscription {
                region_id: batches@[k].region_id,
            }));
        }
    } else {
        assert(steps[0].pending() == (BackupRequest::FindSubscription {
            region_id: batches@[k].region_id,
        }));
    }
}

/// A backup that is done has the last batch behind it.
pub proof fn law_backup_leaves_no_batch(
    batches: Vec<CmdBatch>,
    steps: Seq<BackupJob>,
    replies: Seq<BackupReply>,
)
    requires
        is_backup_of(batches, steps, replies),
        steps.last().is_done(),
        batches@.len() > 0,
    ensures
        steps.last().index == batches@.len() - 1,
{
    let last = replies.len() - 1;
    assert(last >= 0);
    law_backup_keeps_to_its_batches(batches, steps, replies, last);
    assert(steps[last].leads_to(replies[last], steps[last + 1]));
    assert(steps[last].answered_by(replies[last]));
}

/// Events are written only of a batch whose region is subscribed, and only
/// where there are any.
pub proof fn law_only_subscribed_regions_are_backed_up(
    batches: Vec<CmdBatch>,
    steps: Seq<BackupJob>,
    replies: Seq<BackupReply>,
    i: int,
    region_id: u64,
    events: ApplyEvents,
)
    requires
        is_backup_of(batches, steps, replies),
        0 <= i < steps.len(),
        steps[i].pending() == (BackupRequest::SpawnSink { region_id, events }),
    ensures
        i > 1,
        events.len > 0,
        replies[i - 1] == BackupReply::Events(events),
        steps[i - 1].pending() matches BackupRequest::FromCmdBatch { batch } && batch.region_id
            == region_id,
        replies[i - 2] == BackupReply::Subscribed(true),
        steps[i - 2].pending() == (BackupRequest::FindSubscription { region_id }),
{
    assert(i > 0);
    assert(steps[i - 1].leads_to(replies[i - 1], steps[i]));
    assert(steps[i - 1].answered_by(replies[i - 1]));
    assert(i > 1);
    assert(steps[i - 2].leads_to(replies[i - 2], steps[i - 1]));
    assert(steps[i - 2].answered_by(replies[i - 2]));
}

/// Events are made of a batch, and locks told to a resolver, only where the
/// subscription of the region of that batch was just found.
pub proof fn law_only_the_found_subscription_is_told(
    batches: Vec<CmdBatch>,
    steps: Seq<BackupJob>,
    replies: Seq<BackupReply>,
    i: int,
    batch: CmdBatch,
)
    requires
        is_backup_of(batches, steps, replies),
        0 <= i < steps.len(),
        steps[i].pending() == (BackupRequest::FromCmdBatch { batch: &batch }),
    ensures
        i > 0,
        batches@.contains(batch),
        steps[i - 1].pending() == (BackupRequest::FindSubscription { region_id: batch.region_id }),
        replies[i - 1] == BackupReply::Subscribed(true),
{
    law_backup_keeps_to_its_batches(batches, steps, replies, i);
    assert(i > 0);
    assert(steps[i - 1].leads_to(replies[i - 1], steps[i]));
    assert(steps[i - 1].answered_by(replies[i - 1]));
}

/// The events that were made of a batch are written, just these, if and only if
/// there are any.
pub proof fn law_events_are_written(
    batches: Vec<CmdBatch>,
    steps: Seq<BackupJob>,
    replies: Seq<BackupReply>,
    i: int,
    events: ApplyEvents,
)
    requires
        is_backup_of(batches, steps, replies),
        0 <= i < replies.len(),
        replies[i] == BackupReply::Events(events),
    ensures
        steps[i].pending() matches BackupRequest::FromCmdBatch { batch } && (events.len > 0
            ==> steps[i + 1].pending() == (BackupRequest::SpawnSink {
            region_id: batch.region_id,
            events,
        })),
        events.len == 0 ==> !(steps[i + 1].pending() is SpawnSink),
{
    law_backup_keeps_to_its_batches(batches, steps, replies, i);
    law_backup_keeps_to_its_batches(batches, steps, replies, i + 1);
    assert(steps[i].leads_to(replies[i], steps[i + 1]));
    assert(steps[i].answered_by(replies[i]));
}

/// A backup of `n` batches takes at most `3 n` replies.
pub proof fn law_backup_ends(
    batches: Vec<CmdBatch>,
    steps: Seq<BackupJob>,
    replies: Seq<BackupReply>,
)
    requires
        is_backup_of(batches, steps, replies),
    ensures
        replies.len() <= 3 * batches@.len(),
{
    law_run_is_bounded(steps, replies);
}

/// The router takes the events once, with their memory accounted for, and what
/// came of it is handed on. Whatever that was, the same amount of memory is
/// then free again, and the events are counted.
pub proof fn law_memory_is_released(
    region_id: u64,
    events: ApplyEvents,
    steps: Seq<SinkJob>,
    replies: Seq<SinkReply>,
)
    requires
        is_run(steps, replies),
        steps[0] == (SinkJob { region_id, events, state: SinkState::AddMemory }),
        steps.last().is_done(),
    ensures
        replies.len() == 6 || replies.len() == 7,
        steps[0].pending() == (SinkRequest::AddMemory { bytes: events.size }),
        steps[1].pending() == (SinkRequest::OnEvents { events }),
        replies[1] matches SinkReply::Taken(result) && steps[2].pending() == (
        SinkRequest::HandleOnEventResult { result }),
        steps[3].pending() == (SinkRequest::ReleaseMemory { bytes: events.size }),
        steps[4].pending() == (SinkRequest::CountEvents { count: events.len }),
        steps[5].pending() == SinkRequest::TakeTime,
        replies[5] matches SinkReply::Elapsed { secs, nanos } && (replies.len() == 7 <==> is_slow(
            secs,
            nanos,
        )),
        replies.len() == 7 ==> steps[6].pending() == (SinkRequest::WarnSlow {
            region_id,
            count: events.len,
        }),
{
    law_run_is_bounded(steps, replies);
    if replies.len() > 0 {
        assert(steps[0].leads_to(replies[0], steps[1]));
    }
    if replies.len() > 1 {
        assert(steps[1].leads_to(replies[1], steps[2]) && steps[1].answered_by(replies[1]));
    }
    if replies.len() > 2 {
        assert(steps[2].leads_to(replies[2], steps[3]));
    }
    if replies.len() > 3 {
        assert(steps[3].leads_to(replies[3], steps[4]));
    }
    if replies.len() > 4 {
        assert(steps[4].leads_to(replies[4], steps[5]));
    }
    if replies.len() > 5 {
        assert(steps[5].leads_to(replies[5], steps[6]) && steps[5].answered_by(replies[5]));
    }
    if replies.len() > 6 {
        assert(steps[6].answered_by(replies[6]));
    }
}

/// The events that were made of a batch whose region is subscribed reach the
/// router, just these.
pub proof fn law_events_reach_the_router(
    batches: Vec<CmdBatch>,
    steps: Seq<BackupJob>,
    replies: Seq<BackupReply>,
    i: int,
    sink_steps: Seq<SinkJob>,
    sink_replies: Seq<SinkReply>,
)
    requires
        is_backup_of(batches, steps, replies),
        0 <= i < steps.len(),
        is_run(sink_steps, sink_replies),
        steps[i].pending().begun() == Some(sink_steps[0]),
        sink_steps.last().is_done(),
    ensures
        i > 1,
        replies[i - 2] == BackupReply::Subscribed(true),
        replies[i - 1] matches BackupReply::Events(events) && sink_steps[1].pending() == (
        SinkRequest::OnEvents { events }),
{
    let sink = sink_steps[0];
    law_only_subscribed_regions_are_backed_up(
        batches,
        steps,
        replies,
        i,
        sink.region_id,
        sink.events,
    );
    law_memory_is_released(sink.region_id, sink.events, sink_steps, sink_replies);
}

/// The batch in hand moves on to the next one or stays.
proof fn lemma_index_moves_on(
    batches: Vec<CmdBatch>,
    steps: Seq<BackupJob>,
    replies: Seq<BackupReply>,
    i: int,
    j: int,
)
    requires
        is_backup_of(batches, steps, replies),
        0 <= i <= j < steps.len(),
    ensures
        steps[i].index <= steps[j].index,
        i < j && steps[j].state is FindSubscription ==> steps[i].index < steps[j].index,
    decreases j - i,
{
    if i < j {
        lemma_index_moves_on(batches, steps, replies, i, j - 1);
        law_backup_keeps_to_its_batches(batches, steps, replies, j - 1);
        assert(steps[j - 1].leads_to(replies[j - 1], steps[j]));
        assert(steps[j - 1].answered_by(replies[j - 1]));
        assert(steps[j - 1].index < batches.len());
    }
}

/// No batch is looked at twice.
pub proof fn law_no_batch_is_repeated(
    batches: Vec<CmdBatch>,
    steps: Seq<BackupJob>,
    replies: Seq<BackupReply>,
    i: int,
    j: int,
)
    requires
        is_backup_of(batches, steps, replies),
        0 <= i < j < steps.len(),
        steps[i].pending() is FindSubscription,
        steps[j].pending() is FindSubscription,
    ensures
        steps[i].index < steps[j].index,
{
    lemma_index_moves_on(batches, steps, replies, i, j);
}

/// Whether a backup that goes through `steps` is a backup of `a`, with the first
/// `n` replies, and then one of `b`, with the others, which ask for the same
/// things in the same order.
pub open spec fn goes_through_both(
    a: Vec<CmdBatch>,
    b: Vec<CmdBatch>,
    steps: Seq<BackupJob>,
    replies: Seq<BackupReply>,
    n: int,
    first: Seq<BackupJob>,
    second: Seq<BackupJob>,
) -> bool {
    &&& 0 <= n <= replies.len()
    &&& is_backup_of(a, first, replies.take(n))
    &&& first.last().is_done()
    &&& is_backup_of(b, second, replies.skip(n))
    &&& second.last().is_done()
    &&& forall|i: int| 0 <= i < n ==> (#[trigger] steps[i]).pending() == first[i].pending()
    &&& forall|i: int|
        0 <= i < replies.len() - n ==> (#[trigger] second[i]).pending() == steps[n + i].pending()
}

/// To back up some batches and then more is to back up the former and then to
/// back up the latter: the same things are asked for, in the same order.
pub proof fn law_backup_goes_batch_by_batch(
    a: Vec<CmdBatch>,
    b: Vec<CmdBatch>,
    both: Vec<CmdBatch>,
    steps: Seq<BackupJob>,
    replies: Seq<BackupReply>,
)
    requires
        both@ == a@ + b@,
        is_backup_of(both, steps, replies),
        steps.last().is_done(),
    ensures
        exists|n: int, first: Seq<BackupJob>, second: Seq<BackupJob>|
            goes_through_both(a, b, steps, replies, n, first, second),
{
    let n = lemma_where_the_rest_begins(a, b, both, steps, replies);
    let first = Seq::new(
        (n + 1) as nat,
        |i: int|
            if i < n {
                BackupJob { batches: a, index: steps[i].index, state: steps[i].state }
            } else {
                BackupJob {
                    batches: a,
                    index: if a@.len() == 0 {
                        0
                    } else {
                        (a@.len() - 1) as usize
                    },
                    state: BackupState::Done,
                }
            },
    );
    let second = if b@.len() == 0 {
        seq![BackupJob::first(b)]
    } else {
        Seq::new(
            (replies.len() - n + 1) as nat,
            |i: int|
                BackupJob {
                    batches: b,
                    index: (steps[n + i].index - a@.len()) as usize,
                    state: steps[n + i].state,
                },
        )
    };
    assert(a.len() + b.len() == both.len());
    let early = replies.take(n);
    let late = replies.skip(n);
    assert forall|i: int| #![trigger early[i]] 0 <= i < early.len() implies first[i].answered_by(
        early[i],
    ) && first[i].leads_to(early[i], first[i + 1]) by {
        assert(early[i] == replies[i]);
        assert(steps[i].answered_by(replies[i]) && steps[i].leads_to(replies[i], steps[i + 1]));
        law_backup_keeps_to_its_batches(both, steps, replies, i);
    }
    assert forall|i: int| #![trigger late[i]] 0 <= i < late.len() implies second[i].answered_by(
        late[i],
    ) && second[i].leads_to(late[i], second[i + 1]) by {
        assert(late[i] == replies[n + i]);
        assert(steps[n + i].answered_by(replies[n + i]) && steps[n + i].leads_to(
            replies[n + i],
            steps[n + i + 1],
        ));
        law_backup_keeps_to_its_batches(both, steps, replies, n + i);
    }
    assert forall|i: int| 0 <= i < n implies (#[trigger] steps[i]).pending()
        == first[i].pending() by {
        law_backup_keeps_to_its_batches(both, steps, replies, i);
    }
    assert forall|i: int| 0 <= i < replies.len() - n implies (#[trigger] second[i]).pending()
        == steps[n + i].pending() by {
        law_backup_keeps_to_its_batches(both, steps, replies, n + i);
        assert(steps[n + i].answered_by(replies[n + i]));
    }
    assert(goes_through_both(a, b, steps, replies, n, first, second));
}

/// The step at which a backup of `a` and `b` has the first batch of `b` in hand,
/// or is done where there is none.
proof fn lemma_where_the_rest_begins(
    a: Vec<CmdBatch>,
    b: Vec<CmdBatch>,
    both: Vec<CmdBatch>,
    steps: Seq<BackupJob>,
    replies: Seq<BackupReply>,
) -> (n: int)
    requires
        both@ == a@ + b@,
        is_backup_of(both, steps, replies),
        steps.last().is_done(),
    ensures
        0 <= n <= replies.len(),
        b@.len() == 0 ==> n == replies.len(),
        b@.len() > 0 ==> steps[n].index == a@.len() && steps[n].state is FindSubscription,
        a@.len() == 0 ==> n == 0,
        a@.len() > 0 ==> n > 0 && steps[n - 1].index == a@.len() - 1,
        forall|i: int| 0 <= i < n ==> (#[trigger] steps[i]).index < a@.len(),
        forall|i: int| n <= i < steps.len() && b@.len() > 0 ==> (#[trigger] steps[i]).index
            >= a@.len(),
        b@.len() > 0 ==> steps.last().index == both@.len() - 1,
{
    if both@.len() > 0 {
        law_backup_leaves_no_batch(both, steps, replies);
    }
    if b@.len() == 0 {
        let n = replies.len() as int;
        assert forall|i: int| 0 <= i < n implies (#[trigger] steps[i]).index < a@.len() by {
            assert(steps[i].answered_by(replies[i]));
            law_backup_keeps_to_its_batches(both, steps, replies, i);
        }
        if a@.len() > 0 {
            assert(n > 0);
            assert(steps[n - 1].leads_to(replies[n - 1], steps[n]));
            assert(steps[n - 1].answered_by(replies[n - 1]));
        } else if n > 0 {
            assert(steps[0].answered_by(replies[0]));
        }
        n
    } else if a@.len() == 0 {
        0
    } else {
        law_batches_are_dealt_with_in_order(
            both,
            steps,
            replies,
            replies.len() as int,
            a@.len() as int,
        );
        let n = choose|j: int|
            0 <= j <= replies.len() && (#[trigger] steps[j]).index == a@.len()
                && steps[j].pending() == (BackupRequest::FindSubscription {
                region_id: both@[a@.len() as int].region_id,
            });
        assert forall|i: int| 0 <= i < n implies (#[trigger] steps[i]).index < a@.len() by {
            lemma_index_moves_on(both, steps, replies, i, n);
        }
        assert forall|i: int| n <= i < steps.len() implies (#[trigger] steps[i]).index
            >= a@.len() by {
            lemma_index_moves_on(both, steps, replies, n, i);
        }
        assert(n > 0);
        assert(steps[n - 1].leads_to(replies[n - 1], steps[n]));
        assert(steps[n - 1].answered_by(replies[n - 1]));
        n
    }
}

/// Which replies a backup takes: those that answer what it asks for, whatever
/// they hold. It begins with its first batch, if there is one.
pub proof fn law_backup_takes_any_answer(
    batches: Vec<CmdBatch>,
    steps: Seq<BackupJob>,
    replies: Seq<BackupReply>,
    i: int,
    reply: BackupReply,
)
    requires
        is_backup_of(batches, steps, replies),
        0 <= i < steps.len(),
    ensures
        steps[0].index == 0,
        steps[0].pending() == if batches@.len() > 0 {
            BackupRequest::FindSubscription { region_id: batches@[0].region_id }
        } else {
            BackupRequest::Nothing
        },
        steps[i].is_done() <==> steps[i].pending() is Nothing,
        steps[i].answered_by(reply) == match steps[i].pending() {
            BackupRequest::FindSubscription { .. } => reply is Subscribed,
            BackupRequest::FromCmdBatch { .. } => reply is Events,
            BackupRequest::SpawnSink { .. } => reply is Acknowledged,
            BackupRequest::Nothing => false,
        },
{
    law_backup_keeps_to_its_batches(batches, steps, replies, i);
}

/// Whether a backup that had the batch at `index` in hand has moved on: to the
/// next batch, or to its end.
pub open spec fn has_moved_on(batches: Seq<CmdBatch>, index: int, next: BackupJob) -> bool {
    if index + 1 < batches.len() {
        &&& next.index == index + 1
        &&& next.pending() == (BackupRequest::FindSubscription {
            region_id: batches[index + 1].region_id,
        })
    } else {
        next.is_done() && next.pending() == BackupRequest::Nothing
    }
}

/// What a backup asks for after each reply. Events are made of every batch whose
/// region is subscribed, whatever the batch holds, and are written where there
/// are any.
pub proof fn law_backup_goes_on(
    batches: Vec<CmdBatch>,
    steps: Seq<BackupJob>,
    replies: Seq<BackupReply>,
    i: int,
)
    requires
        is_backup_of(batches, steps, replies),
        0 <= i < replies.len(),
    ensures
        steps[i].index < batches@.len(),
        ({
            let index = steps[i].index as int;
            let batch = batches@[index];
            match (steps[i].pending(), replies[i]) {
                (
                    BackupRequest::FindSubscription { region_id },
                    BackupReply::Subscribed(subscribed),
                ) => {
                    &&& region_id == batch.region_id
                    &&& if subscribed {
                        &&& steps[i + 1].pending() == (BackupRequest::FromCmdBatch {
                            batch: &batch,
                        })
                        &&& steps[i + 1].index == index
                    } else {
                        has_moved_on(batches@, index, steps[i + 1])
                    }
                },
                (BackupRequest::FromCmdBatch { batch: converted }, BackupReply::Events(events)) => {
                    &&& *converted == batch
                    &&& if events.len > 0 {
                        &&& steps[i + 1].pending() == (BackupRequest::SpawnSink {
                            region_id: batch.region_id,
                            events,
                        })
                        &&& steps[i + 1].index == index
                    } else {
                        has_moved_on(batches@, index, steps[i + 1])
                    }
                },
                (BackupRequest::SpawnSink { .. }, BackupReply::Acknowledged) => has_moved_on(
                    batches@,
                    index,
                    steps[i + 1],
                ),
                _ => false,
            }
        }),
{
    law_backup_keeps_to_its_batches(batches, steps, replies, i);
    law_backup_keeps_to_its_batches(batches, steps, replies, i + 1);
    assert(steps[i].leads_to(replies[i], steps[i + 1]) && steps[i].answered_by(replies[i]));
    assert(steps[i].index < batches.len());
}

/// The request to write events begins the writing of just these, and no other
/// request begins any.
pub proof fn law_writing_is_begun(request: BackupRequest)
    ensures
        match request {
            BackupRequest::SpawnSink { region_id, events } => request.begun() matches Some(sink)
                && sink.region_id == region_id && sink.events == events && sink.pending() == (
            SinkRequest::AddMemory { bytes: events.size }),
            _ => request.begun() is None,
        },
{
}

/// Which replies the writing of events takes: those that answer what it asks
/// for, whatever they hold.
pub proof fn law_writing_takes_any_answer(job: SinkJob, reply: SinkReply)
    ensures
        (SinkJob { state: SinkState::AddMemory, ..job }).pending() == (SinkRequest::AddMemory {
            bytes: job.events.size,
        }),
        job.is_done() <==> job.pending() is Nothing,
        job.answered_by(reply) == match job.pending() {
            SinkRequest::OnEvents { .. } => reply is Taken,
            SinkRequest::TakeTime => reply matches SinkReply::Elapsed { nanos, .. } && nanos
                < 1_000_000_000,
            SinkRequest::Nothing => false,
            _ => reply is Acknowledged,
        },
{
}

/// What the writing of events asks for after each reply. It warns if and only if
/// the events took longer than two minutes.
pub proof fn law_writing_goes_on(job: SinkJob, reply: SinkReply, next: SinkJob)
    requires
        job.answered_by(reply),
        job.leads_to(reply, next),
    ensures
        next.region_id == job.region_id,
        next.events == job.events,
        match (job.pending(), reply) {
            (SinkRequest::AddMemory { bytes }, SinkReply::Acknowledged) => bytes
                == job.events.size && next.pending() == (SinkRequest::OnEvents {
                events: job.events,
            }),
            (SinkRequest::OnEvents { .. }, SinkReply::Taken(result)) => next.pending() == (
            SinkRequest::HandleOnEventResult { result }),
            (SinkRequest::HandleOnEventResult { .. }, SinkReply::Acknowledged) => next.pending()
                == (SinkRequest::ReleaseMemory { bytes: job.events.size }),
            (SinkRequest::ReleaseMemory { .. }, SinkReply::Acknowledged) => next.pending() == (
            SinkRequest::CountEvents { count: job.events.len }),
            (SinkRequest::CountEvents { .. }, SinkReply::Acknowledged) => next.pending()
                == SinkRequest::TakeTime,
            (SinkRequest::TakeTime, SinkReply::Elapsed { secs, nanos }) => next.pending() == if secs
                > 120 || (secs == 120 && nanos > 0) {
                SinkRequest::WarnSlow { region_id: job.region_id, count: job.events.len }
            } else {
                SinkRequest::Nothing
            },
            (SinkRequest::WarnSlow { .. }, SinkReply::Acknowledged) => next.pending()
                == SinkRequest::Nothing,
            _ => false,
        },
{
}

/// A time is long if and only if it is more than two minutes, so that a longer
/// time is long if a shorter one is.
pub proof fn law_long_is_more_than_two_minutes(secs: u64, nanos: u32)
    requires
        nanos < 1_000_000_000,
    ensures
        is_slow(secs, nanos) <==> secs > 120 || (secs == 120 && nanos > 0),
{
}

} // verus!
