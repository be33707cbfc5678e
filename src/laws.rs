use vstd::prelude::*;
use crate::watcher::{
    earliest, emitted, fits, next_state, version_of, ClientError, ErrorResponse, Event, WatcherError,
    Input, StateModel, WatchEvent, GONE,
};

verus! {

/// What the consumer sees, step by step, when the machine starts in `s` and
/// receives `inputs`; it stops at a fatal step.
pub open spec fn trace<K>(s: StateModel, inputs: Seq<Input<K>>) -> Seq<
    Option<Result<Event<K>, WatcherError>>,
>
    decreases inputs.len(),
{
    if inputs.len() == 0 {
        seq![]
    } else {
        match next_state(s, inputs[0]) {
            Some(t) => seq![emitted(s, inputs[0])] + trace(t, inputs.drop_first()),
            None => seq![],
        }
    }
}

/// The state after `inputs`, or `None` if a step was fatal.
pub open spec fn end_state<K>(s: StateModel, inputs: Seq<Input<K>>) -> Option<StateModel>
    decreases inputs.len(),
{
    if inputs.len() == 0 {
        Some(s)
    } else {
        match next_state(s, inputs[0]) {
            Some(t) => end_state(t, inputs.drop_first()),
            None => None,
        }
    }
}

/// Each input answers the operation that the state before it asks for.
pub open spec fn valid_run<K>(s: StateModel, inputs: Seq<Input<K>>) -> bool
    decreases inputs.len(),
{
    inputs.len() == 0 || (fits(s, inputs[0]) && match next_state(s, inputs[0]) {
        Some(t) => valid_run(t, inputs.drop_first()),
        None => true,
    })
}

/// A watch item that reports a change and carries its position.
pub open spec fn is_change<K>(ev: WatchEvent<K>) -> bool {
    match ev {
        WatchEvent::Added(o) | WatchEvent::Modified(o) | WatchEvent::Deleted(o) => version_of(
            o,
        ) is Some,
        _ => false,
    }
}

/// The event that a change item becomes.
pub open spec fn change_event<K>(ev: WatchEvent<K>) -> Event<K> {
    match ev {
        WatchEvent::Deleted(o) => Event::Deleted(o),
        WatchEvent::Added(o) | WatchEvent::Modified(o) => Event::Applied(o),
        _ => arbitrary(),
    }
}

/// The position that a change item carries.
pub open spec fn change_version<K>(ev: WatchEvent<K>) -> Seq<char> {
    match ev {
        WatchEvent::Added(o) | WatchEvent::Modified(o) | WatchEvent::Deleted(o) => version_of(
            o,
        ).unwrap(),
        _ => seq![],
    }
}

/// The inputs by which an open stream delivers `evs`.
pub open spec fn polled<K>(evs: Seq<WatchEvent<K>>) -> Seq<Input<K>> {
    evs.map_values(|e: WatchEvent<K>| Input::Polled(Some(Ok(e))))
}

/// From a state with no known position, whatever the List and Watch answers,
/// the first item the consumer sees that is not an error is a full listing,
/// never an applied or a deleted item.
pub proof fn lemma_first_event_is_reset<K>(v: Option<Seq<char>>, inputs: Seq<Input<K>>, k: int)
    requires
        valid_run(StateModel::Empty(v), inputs),
        0 <= k < trace(StateModel::Empty(v), inputs).len(),
        trace(StateModel::Empty(v), inputs)[k] matches Some(Ok(_)),
        forall|j: int|
            0 <= j < k ==> !(#[trigger] trace(StateModel::Empty(v), inputs)[j] matches Some(Ok(_))),
    ensures
        trace(StateModel::Empty(v), inputs)[k] matches Some(Ok(Event::Restarted(_))),
    decreases inputs.len(),
{
    let s = StateModel::Empty(v);
    let t = next_state(s, inputs[0]).unwrap();
    let rest = inputs.drop_first();
    assert(trace(s, inputs) == seq![emitted(s, inputs[0])] + trace(t, rest));
    if k > 0 {
        assert(trace(s, inputs)[0] == emitted(s, inputs[0]));
        assert(!(emitted(s, inputs[0]) matches Some(Ok(_))));
        let w = t->Empty_0;
        assert forall|j: int| 0 <= j < k - 1 implies !(#[trigger] trace(t, rest)[j] matches Some(Ok(_))) by {
            assert(trace(t, rest)[j] == trace(s, inputs)[j + 1]);
        }
        assert(trace(t, rest)[k - 1] == trace(s, inputs)[k]);
        lemma_first_event_is_reset(w, rest, k - 1);
    }
}

/// A run of change items on an open watch yields exactly one `Applied` or
/// `Deleted` event per item, in order, and leaves the tracked position at the
/// position of the last item.
pub proof fn lemma_changes_tracked<K>(p: Seq<char>, evs: Seq<WatchEvent<K>>)
    requires
        forall|i: int| 0 <= i < evs.len() ==> is_change(#[trigger] evs[i]),
    ensures
        valid_run(StateModel::Watching(p), polled(evs)),
        trace(StateModel::Watching(p), polled(evs)).len() == evs.len(),
        forall|i: int|
            0 <= i < evs.len() ==> trace(StateModel::Watching(p), polled(evs))[i] == Some(
                Ok::<Event<K>, WatcherError>(change_event(#[trigger] evs[i])),
            ),
        end_state(StateModel::Watching(p), polled(evs)) == Some(
            StateModel::Watching(if evs.len() == 0 { p } else { change_version(evs.last()) }),
        ),
    decreases evs.len(),
{
    let s = StateModel::Watching(p);
    if evs.len() > 0 {
        let rest = evs.drop_first();
        assert(polled(evs).drop_first() =~= polled(rest));
        assert(polled(evs)[0] == Input::<K>::Polled(Some(Ok(evs[0]))));
        assert(is_change(evs[0]));
        let q = change_version(evs[0]);
        assert(next_state(s, polled(evs)[0]) == Some(StateModel::Watching(q)));
        lemma_changes_tracked(q, rest);
        let tr = trace(s, polled(evs));
        assert(tr == seq![emitted(s, polled(evs)[0])] + trace(StateModel::Watching(q), polled(rest)));
        assert forall|i: int| 0 <= i < evs.len() implies tr[i] == Some(
            Ok::<Event<K>, WatcherError>(change_event(#[trigger] evs[i])),
        ) by {
            if i > 0 {
                assert(evs[i] == rest[i - 1]);
            }
        }
        if rest.len() > 0 {
            assert(rest.last() == evs.last());
        }
    }
}

/// A bookmark moves the tracked position and shows the consumer nothing.
pub proof fn lemma_bookmark_is_silent<K>(p: Seq<char>, v: String)
    ensures
        emitted(StateModel::Watching(p), Input::<K>::Polled(Some(Ok(WatchEvent::Bookmark(v)))))
            is None,
        next_state(StateModel::Watching(p), Input::<K>::Polled(Some(Ok(WatchEvent::Bookmark(v)))))
            == Some(StateModel::Watching(v@)),
{
}

/// A "position gone" answer to a List is reported once and makes the next List
/// a plain one, without a position.
pub proof fn lemma_list_gone_relists_plain<K>(v: Option<Seq<char>>, r: ErrorResponse)
    requires
        r.code == GONE,
    ensures
        emitted(StateModel::Empty(v), Input::<K>::Listed(Err(ClientError::Api(r)))) == Some(
            Err::<Event<K>, WatcherError>(WatcherError::InitialListFailed(ClientError::Api(r))),
        ),
        next_state(StateModel::Empty(v), Input::<K>::Listed(Err(ClientError::Api(r)))) == Some(
            StateModel::Empty(None),
        ),
{
}

/// A "position gone" error on a watch is reported once and is followed by a
/// relist from the earliest position: the stale position is never watched
/// from again.
pub proof fn lemma_watch_gone_relists<K>(p: Seq<char>, r: ErrorResponse)
    requires
        r.code == GONE,
    ensures
        emitted(StateModel::Watching(p), Input::<K>::Polled(Some(Ok(WatchEvent::Error(r)))))
            == Some(Err::<Event<K>, WatcherError>(WatcherError::WatchError(r))),
        next_state(StateModel::Watching(p), Input::<K>::Polled(Some(Ok(WatchEvent::Error(r)))))
            == Some(StateModel::Empty(Some(earliest()))),
{
}

/// Every other failure is reported once and keeps the position: a failed watch
/// start retries at the same position, a server error or a broken item on an
/// open watch keeps the watch and its position, and a failed List retries from
/// the earliest position.
pub proof fn lemma_transient_errors_keep_position<K>(
    p: Seq<char>,
    v: Option<Seq<char>>,
    e: ClientError,
    r: ErrorResponse,
)
    requires
        r.code != GONE,
    ensures
        next_state(StateModel::Listed(p), Input::<K>::WatchStarted(Err(e))) == Some(
            StateModel::Listed(p),
        ),
        emitted(StateModel::Listed(p), Input::<K>::WatchStarted(Err(e))) == Some(
            Err::<Event<K>, WatcherError>(WatcherError::WatchStartFailed(e)),
        ),
        next_state(StateModel::Watching(p), Input::<K>::Polled(Some(Err(e)))) == Some(
            StateModel::Watching(p),
        ),
        emitted(StateModel::Watching(p), Input::<K>::Polled(Some(Err(e)))) == Some(
            Err::<Event<K>, WatcherError>(WatcherError::WatchFailed(e)),
        ),
        next_state(StateModel::Watching(p), Input::<K>::Polled(Some(Ok(WatchEvent::Error(r)))))
            == Some(StateModel::Watching(p)),
        emitted(StateModel::Watching(p), Input::<K>::Polled(Some(Ok(WatchEvent::Error(r)))))
            == Some(Err::<Event<K>, WatcherError>(WatcherError::WatchError(r))),
        !(e matches ClientError::Api(g) && g.code == GONE) ==> next_state(
            StateModel::Empty(v),
            Input::<K>::Listed(Err(e)),
        ) == Some(StateModel::Empty(Some(earliest()))),
{
}

/// A watch that the server closes cleanly shows the consumer nothing; the next
/// operation is a new watch at the same position, not a List, and once that
/// watch opens the machine is watching at that position again.
pub proof fn lemma_clean_end_rewatches<K>(p: Seq<char>, i: Input<K>)
    ensures
        emitted(StateModel::Watching(p), Input::<K>::Polled(None)) is None,
        next_state(StateModel::Watching(p), Input::<K>::Polled(None)) == Some(
            StateModel::Listed(p),
        ),
        fits(StateModel::Listed(p), i) ==> i is WatchStarted,
        next_state(StateModel::Listed(p), Input::<K>::WatchStarted(Ok(()))) == Some(
            StateModel::Watching(p),
        ),
{
}

} // verus!
