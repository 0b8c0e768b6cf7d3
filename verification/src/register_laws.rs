//! What holds of every registration and removal of a task, whatever the
//! collaborators reply.
use crate::procedure::{is_run, law_run_is_bounded, Procedure};
use crate::register::{
    RegisterFailure, RegisterJob, RegisterOutcome, RegisterReply, RegisterRequest, RegisterState,
    UnregisterJob, UnregisterRequest, UnregisterState,
};
use crate::report::Report;
use crate::scan::{InitializeJob, InitializeRequest};
use crate::types::{Error, KeyRange, StreamTask};
use vstd::prelude::*;

verus! {

/// Whether `steps` are those of a registration of `task`, on these replies.
pub open spec fn is_registration_of(
    task: StreamTask,
    steps: Seq<RegisterJob>,
    replies: Seq<RegisterReply>,
) -> bool {
    &&& is_run(steps, replies)
    &&& steps[0] == (RegisterJob { task, state: RegisterState::LoadRanges })
}

/// A registration keeps to its task.
pub proof fn law_registration_keeps_to_its_task(
    task: StreamTask,
    steps: Seq<RegisterJob>,
    replies: Seq<RegisterReply>,
    i: int,
)
    requires
        is_registration_of(task, steps, replies),
        0 <= i < steps.len(),
    ensures
        steps[i].task == task,
    decreases i,
{
    if i > 0 {
        law_registration_keeps_to_its_task(task, steps, replies, i - 1);
        assert(steps[i - 1].leads_to(replies[i - 1], steps[i]));
    }
}

/// The first `n` ranges that come of the replies to the requests to wrap their
/// keys, where the first of these replies is at 1.
pub open spec fn wrapped_ranges(replies: Seq<RegisterReply>, n: nat) -> Seq<KeyRange> {
    Seq::new(
        n,
        |k: int|
            KeyRange {
                start_key: replies[1 + 2 * k]->Key_0,
                end_key: replies[2 + 2 * k]->Key_0,
            },
    )
}

/// While there are ranges that are not yet wrapped, the steps go through them
/// in their order: the start of a range, then its end.
proof fn lemma_wrapping(
    task: StreamTask,
    steps: Seq<RegisterJob>,
    replies: Seq<RegisterReply>,
    raw: Vec<KeyRange>,
    k: int,
)
    requires
        is_registration_of(task, steps, replies),
        replies.len() > 0,
        replies[0] == RegisterReply::Ranges(Ok(raw)),
        0 <= k <= raw@.len(),
        1 + 2 * k < steps.len(),
    ensures
        steps[1 + 2 * k].state.wraps_on(raw@, wrapped_ranges(replies, k as nat)),
        k < raw@.len() && 2 + 2 * k < steps.len() ==> {
            &&& steps[2 + 2 * k].state matches RegisterState::WrapEnd { raw: r, wrapped, start_key }
            &&& r@ == raw@
            &&& wrapped@ == wrapped_ranges(replies, k as nat)
            &&& replies[1 + 2 * k] == RegisterReply::Key(start_key)
        },
    decreases k,
{
    assert(steps[0].leads_to(replies[0], steps[1]) && steps[0].answered_by(replies[0]));
    if k == 0 {
        assert(wrapped_ranges(replies, 0) =~= seq![]);
    } else {
        lemma_wrapping(task, steps, replies, raw, k - 1);
        let j = 2 * k;
        assert(steps[j].leads_to(replies[j], steps[j + 1]) && steps[j].answered_by(replies[j]));
        assert(wrapped_ranges(replies, k as nat) =~= wrapped_ranges(replies, (k - 1) as nat).push(
            KeyRange { start_key: replies[j - 1]->Key_0, end_key: replies[j]->Key_0 },
        ));
    }
    let j = 1 + 2 * k;
    if k < raw@.len() && j + 1 < steps.len() {
        assert(steps[j].leads_to(replies[j], steps[j + 1]) && steps[j].answered_by(replies[j]));
    }
}

/// Both keys of every range are wrapped, one after the other.
pub proof fn law_every_key_is_wrapped(
    task: StreamTask,
    steps: Seq<RegisterJob>,
    replies: Seq<RegisterReply>,
    raw: Vec<KeyRange>,
    k: int,
)
    requires
        is_registration_of(task, steps, replies),
        replies.len() > 0,
        replies[0] == RegisterReply::Ranges(Ok(raw)),
        0 <= k < raw@.len(),
    ensures
        1 + 2 * k < steps.len() ==> steps[1 + 2 * k].pending() == (RegisterRequest::WrapKey {
            key: &raw@[k].start_key,
        }),
        2 + 2 * k < steps.len() ==> steps[2 + 2 * k].pending() == (RegisterRequest::WrapKey {
            key: &raw@[k].end_key,
        }),
{
    if 1 + 2 * k < steps.len() {
        lemma_wrapping(task, steps, replies, raw, k);
    }
}

/// The router gets the task with all its ranges, in their order, each with both
/// keys wrapped.
pub proof fn law_router_gets_all_ranges(
    task: StreamTask,
    steps: Seq<RegisterJob>,
    replies: Seq<RegisterReply>,
    raw: Vec<KeyRange>,
)
    requires
        is_registration_of(task, steps, replies),
        replies.len() >= router_step(raw@),
        replies[0] == RegisterReply::Ranges(Ok(raw)),
    ensures
        ({
            &&& steps[router_step(raw@)].pending() matches RegisterRequest::RegisterTask {
                task: t,
                ranges,
            }
            &&& *t == task
            &&& ranges@ == wrapped_ranges(replies, raw@.len())
        }),
{
    lemma_wrapping(task, steps, replies, raw, raw@.len() as int);
    law_registration_keeps_to_its_task(task, steps, replies, router_step(raw@));
}

/// Which step of a registration of `raw` asks the router to take the task.
pub open spec fn router_step(raw: Seq<KeyRange>) -> int {
    1 + 2 * (raw.len() as int)
}

proof fn lemma_observing(
    task: StreamTask,
    steps: Seq<RegisterJob>,
    replies: Seq<RegisterReply>,
    raw: Vec<KeyRange>,
    k: int,
)
    requires
        is_registration_of(task, steps, replies),
        replies.len() > router_step(raw@),
        replies[0] == RegisterReply::Ranges(Ok(raw)),
        replies[router_step(raw@)] matches RegisterReply::Registered(Ok(_)),
        0 <= k <= raw@.len(),
        router_step(raw@) + 1 + 2 * k < steps.len(),
    ensures
        steps[router_step(raw@) + 1 + 2 * k].state.observes_on(
            wrapped_ranges(replies, raw@.len()),
            k,
        ),
        k < raw@.len() && router_step(raw@) + 2 + 2 * k < steps.len() ==> {
            &&& steps[router_step(raw@) + 2 + 2 * k].state matches RegisterState::Initialize {
                ranges,
                index,
            }
            &&& ranges@ == wrapped_ranges(replies, raw@.len())
            &&& index == k
        },
    decreases k,
{
    let at = router_step(raw@) + 1 + 2 * k;
    if k == 0 {
        lemma_wrapping(task, steps, replies, raw, raw@.len() as int);
    } else {
        lemma_observing(task, steps, replies, raw, k - 1);
    }
    assert(steps[at - 1].leads_to(replies[at - 1], steps[at]) && steps[at - 1].answered_by(
        replies[at - 1],
    ));
    if k < raw@.len() && at + 1 < steps.len() {
        assert(steps[at].leads_to(replies[at], steps[at + 1]) && steps[at].answered_by(
            replies[at],
        ));
    }
}

/// Once the router took the task, every range that it was given is observed
/// and then loaded, in order, whether it overlaps with another one or not.
pub proof fn law_every_registered_range_is_observed(
    task: StreamTask,
    steps: Seq<RegisterJob>,
    replies: Seq<RegisterReply>,
    raw: Vec<KeyRange>,
    k: int,
)
    requires
        is_registration_of(task, steps, replies),
        replies.len() > router_step(raw@),
        replies[0] == RegisterReply::Ranges(Ok(raw)),
        replies[router_step(raw@)] matches RegisterReply::Registered(Ok(_)),
        0 <= k < raw@.len(),
    ensures
        router_step(raw@) + 1 + 2 * k < steps.len() ==> steps[router_step(raw@) + 1 + 2 * k].pending()
            == (RegisterRequest::AddRange {
            range: &wrapped_ranges(replies, raw@.len())[k],
        }),
        router_step(raw@) + 2 + 2 * k < steps.len() ==> steps[router_step(raw@) + 2 + 2 * k].pending()
            == (RegisterRequest::SpawnInitialize {
            range: &wrapped_ranges(replies, raw@.len())[k],
        }),
{
    if router_step(raw@) + 1 + 2 * k < steps.len() {
        lemma_observing(task, steps, replies, raw, k);
    }
}

/// A registration of `n` ranges that the router took is done, and the task
/// registered, after `4 n + 2` replies and not before, so that by then every
/// range is observed.
pub proof fn law_registration_ends(
    task: StreamTask,
    steps: Seq<RegisterJob>,
    replies: Seq<RegisterReply>,
    raw: Vec<KeyRange>,
)
    requires
        is_registration_of(task, steps, replies),
        replies.len() > router_step(raw@),
        replies[0] == RegisterReply::Ranges(Ok(raw)),
        replies[router_step(raw@)] matches RegisterReply::Registered(Ok(_)),
    ensures
        replies.len() <= 4 * raw@.len() + 2,
        replies.len() == 4 * raw@.len() + 2 ==> steps.last().state == RegisterState::Done(
            RegisterOutcome::Registered,
        ),
        steps.last().is_done() ==> replies.len() == 4 * raw@.len() + 2,
{
    let end = 4 * raw@.len() + 2;
    if replies.len() >= end {
        lemma_observing(task, steps, replies, raw, raw@.len() as int);
        if replies.len() > end {
            assert(steps[end as int].answered_by(replies[end as int]));
        }
    } else {
        let k = (replies.len() - router_step(raw@) - 1) / 2;
        lemma_observing(task, steps, replies, raw, k);
    }
}

/// Loading a range that the router was given begins with just that range.
pub proof fn law_registered_range_is_loaded(
    task: StreamTask,
    steps: Seq<RegisterJob>,
    replies: Seq<RegisterReply>,
    raw: Vec<KeyRange>,
    k: int,
    job: InitializeJob,
)
    requires
        is_registration_of(task, steps, replies),
        replies.len() > router_step(raw@),
        replies[0] == RegisterReply::Ranges(Ok(raw)),
        replies[router_step(raw@)] matches RegisterReply::Registered(Ok(_)),
        0 <= k < raw@.len(),
        router_step(raw@) + 2 + 2 * k < steps.len(),
        steps[router_step(raw@) + 2 + 2 * k].pending().begins(job),
    ensures
        job.pending() matches InitializeRequest::InitializeRange { range } && range.same_as(
            wrapped_ranges(replies, raw@.len())[k],
        ),
{
    law_every_registered_range_is_observed(task, steps, replies, raw, k);
}

/// A task that the router refuses is reported with the router's error, and none
/// of its ranges is observed.
pub proof fn law_refused_task_is_not_observed(
    task: StreamTask,
    steps: Seq<RegisterJob>,
    replies: Seq<RegisterReply>,
    i: int,
    err: Error,
)
    requires
        is_registration_of(task, steps, replies),
        0 <= i < replies.len(),
        replies[i] == RegisterReply::Registered(Err(err)),
    ensures
        steps[i + 1].pending() == (RegisterRequest::Report {
            context: Report::RegisterRefused { task: &task.info.name },
            err: &err,
        }),
        replies.len() <= i + 2,
        i + 1 < replies.len() ==> steps[i + 2].state == RegisterState::Done(
            RegisterOutcome::Failed(RegisterFailure::Refused),
        ),
{
    law_registration_keeps_to_its_task(task, steps, replies, i + 1);
    assert(steps[i].leads_to(replies[i], steps[i + 1]) && steps[i].answered_by(replies[i]));
    if i + 1 < replies.len() {
        assert(steps[i + 1].leads_to(replies[i + 1], steps[i + 2]));
    }
    if i + 2 < replies.len() {
        assert(steps[i + 2].answered_by(replies[i + 2]));
    }
}

/// A task whose ranges are not found is reported, and the router does not get
/// it.
pub proof fn law_task_without_ranges_is_not_registered(
    task: StreamTask,
    steps: Seq<RegisterJob>,
    replies: Seq<RegisterReply>,
    err: Error,
)
    requires
        is_registration_of(task, steps, replies),
        replies.len() > 0,
        replies[0] == RegisterReply::Ranges(Err(err)),
    ensures
        steps[1].pending() == (RegisterRequest::Report {
            context: Report::RangesNotFound { task: &task.info.name },
            err: &err,
        }),
        replies.len() <= 2,
        replies.len() == 2 ==> steps[2].state == RegisterState::Done(
            RegisterOutcome::Failed(RegisterFailure::RangesNotFound),
        ),
{
    assert(steps[0].leads_to(replies[0], steps[1]));
    if 1 < replies.len() {
        assert(steps[1].leads_to(replies[1], steps[2]));
    }
    if 2 < replies.len() {
        assert(steps[2].answered_by(replies[2]));
    }
}

/// To take a task off is to drop it from the router, then all subscriptions,
/// then all observed ranges, and nothing else.
pub proof fn law_removal_clears_everything(task: String, steps: Seq<UnregisterJob>, replies: Seq<()>)
    requires
        is_run(steps, replies),
        steps[0] == (UnregisterJob { task, state: UnregisterState::UnregisterTask }),
        steps.last().is_done(),
    ensures
        replies.len() == 3,
        steps[0].pending() == (UnregisterRequest::UnregisterTask { task: &task }),
        steps[1].pending() == UnregisterRequest::ClearSubscriptions,
        steps[2].pending() == UnregisterRequest::ClearRanges,
{
    law_run_is_bounded(steps, replies);
    if replies.len() > 0 {
        assert(steps[0].leads_to(replies[0], steps[1]));
    }
    if replies.len() > 1 {
        assert(steps[1].leads_to(replies[1], steps[2]));
    }
}

/// Which replies a registration takes: those that answer what it asks for,
/// whatever they hold. It begins by asking for the ranges of its task.
pub proof fn law_registration_takes_any_answer(
    task: StreamTask,
    steps: Seq<RegisterJob>,
    replies: Seq<RegisterReply>,
    i: int,
    reply: RegisterReply,
)
    requires
        is_registration_of(task, steps, replies),
        0 <= i < steps.len(),
    ensures
        steps[0].pending() == (RegisterRequest::RangesOfTask { task_name: &task.info.name }),
        steps[i].is_done() <==> steps[i].pending() is Nothing,
        steps[i].answered_by(reply) == match steps[i].pending() {
            RegisterRequest::RangesOfTask { .. } => reply is Ranges,
            RegisterRequest::WrapKey { .. } => reply is Key,
            RegisterRequest::RegisterTask { .. } => reply is Registered,
            RegisterRequest::AddRange { .. } => reply is Added,
            RegisterRequest::SpawnInitialize { .. } => reply is Acknowledged,
            RegisterRequest::Report { .. } => reply is Acknowledged,
            RegisterRequest::Nothing => false,
        },
{
    if i > 0 {
        assert(steps[i - 1].leads_to(replies[i - 1], steps[i]));
        assert(steps[i - 1].answered_by(replies[i - 1]));
    }
}

/// What the removal of a task asks for after each reply, and that it takes any.
pub proof fn law_removal_goes_on(job: UnregisterJob, next: UnregisterJob)
    ensures
        (UnregisterJob { task: job.task, state: UnregisterState::UnregisterTask }).pending() == (
        UnregisterRequest::UnregisterTask { task: &job.task }),
        job.is_done() <==> job.pending() is Nothing,
        job.answered_by(()) <==> !job.is_done(),
        job.answered_by(()) && job.leads_to((), next) ==> {
            &&& next.task == job.task
            &&& match job.pending() {
                UnregisterRequest::UnregisterTask { task } => *task == job.task && next.pending()
                    == UnregisterRequest::ClearSubscriptions,
                UnregisterRequest::ClearSubscriptions => next.pending()
                    == UnregisterRequest::ClearRanges,
                UnregisterRequest::ClearRanges => next.pending() == UnregisterRequest::Nothing,
                UnregisterRequest::Nothing => false,
            }
        },
{
}

/// The request to load a range begins the loading of just that range, and no
/// other request begins any.
pub proof fn law_loading_is_begun(request: RegisterRequest, job: InitializeJob)
    ensures
        request.begins(job) <==> {
            &&& request matches RegisterRequest::SpawnInitialize { range }
            &&& job.pending() matches InitializeRequest::InitializeRange { range: loaded }
            &&& loaded.start_key@ == range.start_key@
            &&& loaded.end_key@ == range.end_key@
        },
{
}

} // verus!
