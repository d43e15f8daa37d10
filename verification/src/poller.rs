//! Long polling: the offset bookkeeping that decides which updates the next
//! `getUpdates` call asks for.
use vstd::prelude::*;

verus! {

/// The greatest update id of a batch, or 0 when the batch holds no positive id.
pub open spec fn batch_max(ids: Seq<i64>) -> int
    decreases ids.len(),
{
    if ids.len() == 0 {
        0
    } else {
        let rest = batch_max(ids.drop_last());
        if ids.last() > rest {
            ids.last() as int
        } else {
            rest
        }
    }
}

/// The offset that confirms a batch: one past its greatest id (and at least 1).
pub open spec fn next_offset(ids: Seq<i64>) -> int {
    batch_max(ids) + 1
}

/// The ids of a batch of updates, in order.
pub open spec fn ids_of<U>(batch: Seq<(i64, U)>) -> Seq<i64> {
    batch.map_values(|entry: (i64, U)| entry.0)
}

/// The updates of a batch, in order.
pub open spec fn updates_of<U>(batch: Seq<(i64, U)>) -> Seq<U> {
    batch.map_values(|entry: (i64, U)| entry.1)
}

/// What a long poller knows between two calls.
pub struct PollerState {
    pub offset: int,
    pub allowed_updates: Option<Seq<Seq<char>>>,
    /// A call has failed; the stream has ended with its error.
    pub finished: bool,
}

/// The arguments of one `getUpdates` call.
pub struct GetUpdatesRequest<'a> {
    pub offset: Option<i64>,
    pub limit: Option<i64>,
    pub timeout: Option<i64>,
    pub allowed_updates: Option<&'a Vec<String>>,
}

/// What one `getUpdates` call came back with: the updates it delivered, in
/// order, each with its id; or the error it failed with.
pub enum PollOutcome<U, E> {
    Received(Vec<(i64, U)>),
    Failed(E),
}

/// What the update stream does with an outcome.
pub enum PollAction<U, E> {
    /// Give these updates to the consumer, in this order, then poll again.
    Deliver(Vec<U>),
    /// Give this error to the consumer; the stream then ends.
    Finish(E),
}

/// The poller's state after taking in `outcome`.
pub open spec fn poll_step<U, E>(state: PollerState, outcome: PollOutcome<U, E>) -> PollerState {
    match outcome {
        PollOutcome::Received(batch) => PollerState {
            offset: next_offset(ids_of(batch@)),
            allowed_updates: state.allowed_updates,
            finished: false,
        },
        PollOutcome::Failed(_) => PollerState {
            offset: state.offset,
            allowed_updates: state.allowed_updates,
            finished: true,
        },
    }
}

/// The stream items that `outcome` gives: each update of a batch, in order,
/// or the error of a failed call.
pub open spec fn outcome_items<U, E>(outcome: PollOutcome<U, E>) -> Seq<Result<U, E>> {
    match outcome {
        PollOutcome::Received(batch) => updates_of(batch@).map_values(|u: U| Ok::<U, E>(u)),
        PollOutcome::Failed(e) => seq![Err::<U, E>(e)],
    }
}

/// The stream items that `action` gives.
pub open spec fn action_items<U, E>(action: PollAction<U, E>) -> Seq<Result<U, E>> {
    match action {
        PollAction::Deliver(updates) => updates@.map_values(|u: U| Ok::<U, E>(u)),
        PollAction::Finish(e) => seq![Err::<U, E>(e)],
    }
}

/// The state and the stream items after taking in `outcomes` from `start`.
pub open spec fn poll_run<U, E>(start: PollerState, outcomes: Seq<PollOutcome<U, E>>) -> (
    PollerState,
    Seq<Result<U, E>>,
)
    decreases outcomes.len(),
{
    if outcomes.len() == 0 {
        (start, Seq::empty())
    } else {
        let (state, items) = poll_run(start, outcomes.drop_last());
        (poll_step(state, outcomes.last()), items + outcome_items(outcomes.last()))
    }
}

/// Whether each outcome of the run can be taken in where it comes: the
/// stream has not finished, and a batch's ids stay below `i64::MAX`.
pub open spec fn poll_run_allowed<U, E>(start: PollerState, outcomes: Seq<PollOutcome<U, E>>) -> bool
    decreases outcomes.len(),
{
    outcomes.len() == 0 || {
        &&& poll_run_allowed(start, outcomes.drop_last())
        &&& !poll_run(start, outcomes.drop_last()).0.finished
        &&& (outcomes.last() matches PollOutcome::Received(batch) ==> batch_max(ids_of(batch@))
            < i64::MAX)
    }
}

/// Every update of a run of batches, in order.
pub open spec fn all_updates<U, E>(outcomes: Seq<PollOutcome<U, E>>) -> Seq<U>
    decreases outcomes.len(),
{
    if outcomes.len() == 0 {
        Seq::empty()
    } else {
        all_updates(outcomes.drop_last()) + match outcomes.last() {
            PollOutcome::Received(batch) => updates_of(batch@),
            PollOutcome::Failed(_) => Seq::empty(),
        }
    }
}

/// Helper for fetching updates via long polling.
pub struct LongPoller<B> {
    bot: B,
    offset: i64,
    allowed_updates: Option<Vec<String>>,
    finished: bool,
}

impl<B> View for LongPoller<B> {
    type V = PollerState;

    closed spec fn view(&self) -> PollerState {
        PollerState {
            offset: self.offset as int,
            allowed_updates: self.allowed_updates.deep_view(),
            finished: self.finished,
        }
    }
}

impl<B> LongPoller<B> {
    /// The client the poller was made with.
    pub closed spec fn spec_bot(&self) -> B {
        self.bot
    }

    /// A poller that starts at offset 0 and asks for `allowed_updates`.
    pub fn new(bot: &B, allowed_updates: Option<Vec<String>>) -> (poller: Self)
        where B: Clone,
        ensures
            poller@ == (PollerState {
                offset: 0,
                allowed_updates: allowed_updates.deep_view(),
                finished: false,
            }),
            cloned::<B>(*bot, poller.spec_bot()),
    {
        LongPoller { bot: bot.clone(), offset: 0, allowed_updates, finished: false }
    }

    /// The client the poller was made with.
    pub fn bot(&self) -> (bot: &B)
        ensures
            *bot == self.spec_bot(),
    {
        &self.bot
    }

    /// The offset that the next call sends.
    pub fn offset(&self) -> (offset: i64)
        ensures
            offset == self@.offset,
    {
        self.offset
    }

    /// The arguments of the next `getUpdates` call: the current offset, no
    /// limit, no timeout, and the update kinds the poller was made with.
    pub fn request(&self) -> (req: GetUpdatesRequest<'_>)
        ensures
            req.offset == Some(self@.offset as i64),
            req.limit.is_none(),
            req.timeout.is_none(),
            req.allowed_updates.is_some() == self@.allowed_updates.is_some(),
            req.allowed_updates matches Some(v) ==> self@.allowed_updates == Some(v.deep_view()),
    {
        let allowed = match &self.allowed_updates {
            Some(v) => Some(v),
            None => None,
        };
        GetUpdatesRequest { offset: Some(self.offset), limit: None, timeout: None, allowed_updates: allowed }
    }

    /// Whether a call has failed and the stream has ended.
    pub fn is_finished(&self) -> (done: bool)
        ensures
            done == self@.finished,
    {
        self.finished
    }

    /// Takes in the outcome of one call. A batch is delivered whole and in
    /// order, and moves the offset one past its greatest id (to 1 when it
    /// holds no positive id). A failure ends the stream with its error.
    pub fn on_outcome<U, E>(&mut self, outcome: PollOutcome<U, E>) -> (action: PollAction<U, E>)
        requires
            !old(self)@.finished,
            outcome matches PollOutcome::Received(batch) ==> batch_max(ids_of(batch@)) < i64::MAX,
        ensures
            final(self)@.allowed_updates == old(self)@.allowed_updates,
            final(self).spec_bot() == old(self).spec_bot(),
            final(self)@ == poll_step(old(self)@, outcome),
            action_items(action) == outcome_items(outcome),
            outcome matches PollOutcome::Received(batch) ==> {
                &&& final(self)@.offset >= 1
                &&& forall|i: int| 0 <= i < batch@.len() ==> #[trigger] batch@[i].0 < final(self)@.offset
                &&& (final(self)@.offset == 1 || exists|i: int|
                    0 <= i < batch@.len() && #[trigger] batch@[i].0 == final(self)@.offset - 1)
            },
            match outcome {
                PollOutcome::Received(batch) => {
                    &&& action matches PollAction::Deliver(updates) && updates@ == updates_of(batch@)
                    &&& final(self)@.offset == next_offset(ids_of(batch@))
                    &&& !final(self)@.finished
                },
                PollOutcome::Failed(e) => {
                    &&& action matches PollAction::Finish(x) && x == e
                    &&& final(self)@.offset == old(self)@.offset
                    &&& final(self)@.finished
                },
            },
    {
        match outcome {
            PollOutcome::Received(batch) => {
                let ghost entries = batch@;
                let mut max: i64 = 0;
                let mut updates: Vec<U> = Vec::new();
                for entry in it: batch.into_iter()
                    invariant
                        it.seq() == entries,
                        max == batch_max(ids_of(entries.take(it.index() as int))),
                        updates@ == updates_of(entries.take(it.index() as int)),
                        batch_max(ids_of(entries)) < i64::MAX,
                {
                    let ghost i = it.index() as int;
                    assert(ids_of(entries.take(i + 1)).drop_last() =~= ids_of(entries.take(i)));
                    assert(updates_of(entries.take(i + 1)) =~= updates_of(entries.take(i)).push(entry.1));
                    let (id, update) = entry;
                    if id > max {
                        max = id;
                    }
                    updates.push(update);
                }
                assert(entries.take(entries.len() as int) =~= entries);
                proof {
                    lemma_offset_confirms_entries(entries);
                }
                self.offset = max + 1;
                proof {
                    assert(action_items(PollAction::<U, E>::Deliver(updates)) =~= outcome_items(
                        PollOutcome::<U, E>::Received(batch),
                    ));
                }
                PollAction::Deliver(updates)
            },
            PollOutcome::Failed(e) => {
                self.finished = true;
                PollAction::Finish(e)
            },
        }
    }
}

/// A confirmed batch is never asked for again: the offset that a batch leads
/// to lies above every id in it, and is at least 1.
pub proof fn lemma_offset_passes_batch(ids: Seq<i64>)
    ensures
        next_offset(ids) >= 1,
        forall|i: int| 0 <= i < ids.len() ==> ids[i] < next_offset(ids),
    decreases ids.len(),
{
    if ids.len() > 0 {
        lemma_offset_passes_batch(ids.drop_last());
        assert forall|i: int| 0 <= i < ids.len() implies ids[i] < next_offset(ids) by {
            if i < ids.len() - 1 {
                assert(ids[i] == ids.drop_last()[i]);
            }
        }
    }
}

/// The offset never skips an update that was not delivered: it lands just
/// past the greatest id of the batch, or at 1 when no id is positive.
pub proof fn lemma_offset_is_tight(ids: Seq<i64>)
    ensures
        next_offset(ids) == 1 || exists|i: int| 0 <= i < ids.len() && ids[i] == next_offset(ids) - 1,
    decreases ids.len(),
{
    if ids.len() > 0 {
        lemma_offset_is_tight(ids.drop_last());
        let rest = ids.drop_last();
        if ids.last() <= batch_max(rest) && batch_max(rest) != 0 {
            let i = choose|i: int| 0 <= i < rest.len() && rest[i] == next_offset(rest) - 1;
            assert(ids[i] == rest[i]);
        } else if ids.last() > batch_max(rest) {
            assert(ids[ids.len() - 1] == next_offset(ids) - 1);
        }
    }
}

/// A batch is confirmed entry by entry: the offset it leads to lies above
/// the id of every update in it and is at least 1, and it is 1 or one past
/// the id of some update in it, so no update of the batch is fetched again
/// and none after it is skipped.
pub proof fn lemma_offset_confirms_entries<U>(batch: Seq<(i64, U)>)
    ensures
        next_offset(ids_of(batch)) >= 1,
        forall|i: int| 0 <= i < batch.len() ==> #[trigger] batch[i].0 < next_offset(ids_of(batch)),
        next_offset(ids_of(batch)) == 1 || exists|i: int|
            0 <= i < batch.len() && #[trigger] batch[i].0 == next_offset(ids_of(batch)) - 1,
{
    let ids = ids_of(batch);
    lemma_offset_passes_batch(ids);
    lemma_offset_is_tight(ids);
    assert(ids.len() == batch.len());
    assert forall|i: int| 0 <= i < batch.len() implies #[trigger] batch[i].0 < next_offset(ids) by {
        assert(ids[i] == batch[i].0);
    }
    if next_offset(ids) != 1 {
        let k = choose|k: int| 0 <= k < ids.len() && ids[k] == next_offset(ids) - 1;
        assert(batch[k].0 == ids[k]);
    }
}

/// While calls succeed, the poll stream delivers every update of every
/// batch exactly once, in the order received, and never ends; each batch can
/// be taken in where it comes.
pub proof fn lemma_batches_delivered_in_order<U, E>(
    start: PollerState,
    outcomes: Seq<PollOutcome<U, E>>,
)
    requires
        !start.finished,
        forall|i: int|
            0 <= i < outcomes.len() ==> (#[trigger] outcomes[i] matches PollOutcome::Received(batch)
                && batch_max(ids_of(batch@)) < i64::MAX),
    ensures
        poll_run_allowed(start, outcomes),
        poll_run(start, outcomes).1 == all_updates(outcomes).map_values(|u: U| Ok::<U, E>(u)),
        !poll_run(start, outcomes).0.finished,
        poll_run(start, outcomes).0.allowed_updates == start.allowed_updates,
    decreases outcomes.len(),
{
    if outcomes.len() > 0 {
        let prev = outcomes.drop_last();
        assert forall|i: int|
            0 <= i < prev.len() implies (#[trigger] prev[i] matches PollOutcome::Received(batch)
                && batch_max(ids_of(batch@)) < i64::MAX) by {
            assert(prev[i] == outcomes[i]);
        }
        lemma_batches_delivered_in_order(start, prev);
        let last = outcomes.last();
        assert(outcomes[outcomes.len() - 1] == last);
        let (state, items) = poll_run(start, prev);
        let ok = |u: U| Ok::<U, E>(u);
        match last {
            PollOutcome::Received(batch) => {
                assert(all_updates(outcomes) == all_updates(prev) + updates_of(batch@));
                assert(all_updates(outcomes).map_values(ok) =~= all_updates(prev).map_values(ok)
                    + updates_of(batch@).map_values(ok));
            },
            PollOutcome::Failed(_) => {},
        }
    }
}

/// The poll stream ends exactly after a failed call, and only then: in any
/// run that can be taken in, every outcome but the last is a batch, the
/// stream is finished exactly when the last outcome is a failure, and an
/// error item comes only as the last item, exactly when the stream is
/// finished.
pub proof fn lemma_stream_ends_only_after_failure<U, E>(
    start: PollerState,
    outcomes: Seq<PollOutcome<U, E>>,
)
    requires
        !start.finished,
        poll_run_allowed(start, outcomes),
    ensures
        poll_run(start, outcomes).0.finished <==> (outcomes.len() > 0 && outcomes.last() is Failed),
        forall|i: int| 0 <= i < outcomes.len() - 1 ==> #[trigger] outcomes[i] is Received,
        forall|j: int|
            0 <= j < poll_run(start, outcomes).1.len() && #[trigger] poll_run(start, outcomes).1[j] is Err
                ==> j == poll_run(start, outcomes).1.len() - 1 && poll_run(start, outcomes).0.finished,
        poll_run(start, outcomes).0.finished ==> poll_run(start, outcomes).1.len() > 0 && poll_run(
            start,
            outcomes,
        ).1.last() is Err,
    decreases outcomes.len(),
{
    if outcomes.len() > 0 {
        let prev = outcomes.drop_last();
        lemma_stream_ends_only_after_failure(start, prev);
        let (state, items) = poll_run(start, prev);
        let last = outcomes.last();
        let all = poll_run(start, outcomes).1;
        assert(all == items + outcome_items(last));
        assert forall|i: int| 0 <= i < outcomes.len() - 1 implies #[trigger] outcomes[i] is Received by {
            assert(outcomes[i] == prev[i]);
            if i == prev.len() - 1 {
                assert(!state.finished);
            }
        }
        assert forall|j: int|
            0 <= j < all.len() && #[trigger] all[j] is Err implies j == all.len() - 1
                && poll_run(start, outcomes).0.finished by {
            if j < items.len() {
                assert(all[j] == items[j]);
                assert(state.finished);
            } else {
                match last {
                    PollOutcome::Received(batch) => {
                        assert(all[j] == outcome_items(last)[j - items.len()]);
                    },
                    PollOutcome::Failed(_) => {},
                }
            }
        }
        match last {
            PollOutcome::Failed(e) => {
                assert(all.last() == outcome_items(last)[0]);
            },
            PollOutcome::Received(_) => {},
        }
    }
}

} // verus!
