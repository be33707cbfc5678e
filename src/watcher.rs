use vstd::prelude::*;

verus! {

/// The status that the server sends with a failed request or a watch error.
#[derive(Debug, Clone, PartialEq, Eq)]
pub struct ErrorResponse {
    pub status: String,
    pub message: String,
    pub reason: String,
    pub code: u16,
}

/// HTTP 410 Gone: the requested position has aged out of the server's history.
pub const GONE: u16 = 410;

/// Why a List or Watch request failed.
#[derive(Debug, Clone, PartialEq, Eq)]
pub enum ClientError {
    /// The server answered with an error status.
    Api(ErrorResponse),
    /// The request failed on its way (transport, decoding), described in words.
    Other(String),
}

/// A resource together with the position (`resourceVersion`) it carries.
#[derive(Debug, Clone, PartialEq, Eq)]
pub struct Object<K> {
    pub resource_version: Option<String>,
    pub data: K,
}

/// The answer of a List: the items and the position of the listing.
#[derive(Debug, Clone, PartialEq, Eq)]
pub struct ObjectList<K> {
    pub items: Vec<Object<K>>,
    pub resource_version: Option<String>,
}

/// One item of a watch stream.
#[derive(Debug, Clone, PartialEq, Eq)]
pub enum WatchEvent<K> {
    Added(Object<K>),
    Modified(Object<K>),
    Deleted(Object<K>),
    Bookmark(String),
    Error(ErrorResponse),
}

/// What the consumer of a subscription sees.
#[derive(Debug, Clone, PartialEq, Eq)]
pub enum Event<K> {
    /// A full listing: the whole current set of items.
    Restarted(Vec<Object<K>>),
    /// An item was created or changed.
    Applied(Object<K>),
    /// An item was removed.
    Deleted(Object<K>),
}

/// The recoverable failures, each surfaced once to the consumer.
#[derive(Debug, Clone, PartialEq, Eq)]
pub enum WatcherError {
    InitialListFailed(ClientError),
    WatchStartFailed(ClientError),
    WatchError(ErrorResponse),
    WatchFailed(ClientError),
}

/// A listing or a watch item came without a position: the collaborator broke
/// its contract, and the subscription cannot go on.
#[derive(Debug, Clone, PartialEq, Eq)]
pub struct MissingResourceVersion;

/// Where a subscription stands. The open watch connection itself is held by
/// whoever runs the machine, beside a `Watching` state.
#[derive(Debug, Clone, PartialEq, Eq)]
pub enum State {
    /// No valid position is known: list, at `init_resource_version` if given.
    Empty { init_resource_version: Option<String> },
    /// A listing has completed: open a watch at `resource_version`.
    InitListed { resource_version: String },
    /// A watch is open; `resource_version` is the last position observed on it.
    Watching { resource_version: String },
}

/// What came back from the operation that a state asks for.
pub enum Input<K> {
    /// The answer of the List (of `State::Empty`).
    Listed(Result<ObjectList<K>, ClientError>),
    /// The answer of opening the watch (of `State::InitListed`).
    WatchStarted(Result<(), ClientError>),
    /// The next item of the open stream, `None` where the server closed it
    /// (of `State::Watching`).
    Polled(Option<Result<WatchEvent<K>, ClientError>>),
}

/// The abstract state: positions as character sequences.
pub enum StateModel {
    Empty(Option<Seq<char>>),
    Listed(Seq<char>),
    Watching(Seq<char>),
}

impl View for State {
    type V = StateModel;

    open spec fn view(&self) -> StateModel {
        match self {
            State::Empty { init_resource_version } => StateModel::Empty(
                match init_resource_version {
                    Some(v) => Some(v@),
                    None => None,
                },
            ),
            State::InitListed { resource_version } => StateModel::Listed(resource_version@),
            State::Watching { resource_version } => StateModel::Watching(resource_version@),
        }
    }
}

/// The position from which a list retries when it cannot resume: the earliest.
pub open spec fn earliest() -> Seq<char> {
    seq!['0']
}

pub open spec fn is_gone(e: ClientError) -> bool {
    match e {
        ClientError::Api(r) => r.code == GONE,
        ClientError::Other(_) => false,
    }
}

pub open spec fn version_of<K>(o: Object<K>) -> Option<Seq<char>> {
    match o.resource_version {
        Some(v) => Some(v@),
        None => None,
    }
}

/// The state of a subscription that has done nothing yet.
pub open spec fn fresh() -> StateModel {
    StateModel::Empty(None)
}

/// The input answers the operation that the state asks for.
pub open spec fn fits<K>(s: StateModel, i: Input<K>) -> bool {
    match s {
        StateModel::Empty(_) => i is Listed,
        StateModel::Listed(_) => i is WatchStarted,
        StateModel::Watching(_) => i is Polled,
    }
}

/// The transition table: the next state, or `None` where a listing or a
/// changed item lacks its position (fatal).
pub open spec fn next_state<K>(s: StateModel, i: Input<K>) -> Option<StateModel> {
    match (s, i) {
        (StateModel::Empty(_), Input::Listed(Ok(list))) => match list.resource_version {
            Some(v) => Some(StateModel::Listed(v@)),
            None => None,
        },
        (StateModel::Empty(_), Input::Listed(Err(e))) => if is_gone(e) {
            Some(StateModel::Empty(None))
        } else {
            Some(StateModel::Empty(Some(earliest())))
        },
        (StateModel::Listed(p), Input::WatchStarted(Ok(()))) => Some(StateModel::Watching(p)),
        (StateModel::Listed(p), Input::WatchStarted(Err(_))) => Some(StateModel::Listed(p)),
        (StateModel::Watching(p), Input::Polled(Some(Ok(ev)))) => match ev {
            WatchEvent::Added(o) | WatchEvent::Modified(o) | WatchEvent::Deleted(o) => match
                version_of(o) {
                Some(v) => Some(StateModel::Watching(v)),
                None => None,
            },
            WatchEvent::Bookmark(v) => Some(StateModel::Watching(v@)),
            WatchEvent::Error(r) => if r.code == GONE {
                Some(StateModel::Empty(Some(earliest())))
            } else {
                Some(StateModel::Watching(p))
            },
        },
        (StateModel::Watching(p), Input::Polled(Some(Err(_)))) => Some(StateModel::Watching(p)),
        (StateModel::Watching(p), Input::Polled(None)) => Some(StateModel::Listed(p)),
        _ => Some(s),
    }
}

/// What the transition hands to the consumer, if anything.
pub open spec fn emitted<K>(s: StateModel, i: Input<K>) -> Option<Result<Event<K>, WatcherError>> {
    match (s, i) {
        (StateModel::Empty(_), Input::Listed(Ok(list))) => Some(Ok(Event::Restarted(list.items))),
        (StateModel::Empty(_), Input::Listed(Err(e))) => Some(Err(WatcherError::InitialListFailed(e))),
        (StateModel::Listed(_), Input::WatchStarted(Err(e))) => Some(
            Err(WatcherError::WatchStartFailed(e)),
        ),
        (StateModel::Watching(_), Input::Polled(Some(Ok(ev)))) => match ev {
            WatchEvent::Added(o) | WatchEvent::Modified(o) => Some(Ok(Event::Applied(o))),
            WatchEvent::Deleted(o) => Some(Ok(Event::Deleted(o))),
            WatchEvent::Bookmark(_) => None,
            WatchEvent::Error(r) => Some(Err(WatcherError::WatchError(r))),
        },
        (StateModel::Watching(_), Input::Polled(Some(Err(e)))) => Some(Err(WatcherError::WatchFailed(e))),
        _ => None,
    }
}

/// The state a subscription starts in.
pub fn initial_state() -> (r: State)
    ensures
        r@ == fresh(),
{
    State::Empty { init_resource_version: None }
}

fn earliest_version() -> (r: String)
    ensures
        r@ == earliest(),
{
    proof {
        reveal_strlit("0");
    }
    String::from_str("0")
}

/// One transition of the machine: from a state and the answer to the operation
/// it asked for, to what the consumer sees (if anything) and the next state.
pub fn step_trampolined<K>(state: State, input: Input<K>) -> (r: Result<
    (Option<Result<Event<K>, WatcherError>>, State),
    MissingResourceVersion,
>)
    requires
        fits(state@, input),
    ensures
        r is Err <==> next_state(state@, input) is None,
        r matches Ok((out, next)) ==> out == emitted(state@, input) && next_state(state@, input)
            == Some(next@),
{
    match state {
        State::Empty { init_resource_version: _ } => match input {
            Input::Listed(Ok(list)) => match list.resource_version {
                Some(resource_version) => Ok(
                    (Some(Ok(Event::Restarted(list.items))), State::InitListed { resource_version }),
                ),
                None => Err(MissingResourceVersion),
            },
            Input::Listed(Err(err)) => {
                let gone = match &err {
                    ClientError::Api(r) => r.code == GONE,
                    ClientError::Other(_) => false,
                };
                let next = if gone {
                    State::Empty { init_resource_version: None }
                } else {
                    State::Empty { init_resource_version: Some(earliest_version()) }
                };
                Ok((Some(Err(WatcherError::InitialListFailed(err))), next))
            },
            _ => {
                // an input for another state; `fits` rules it out
                proof {
                    assert(false);
                }
                Err(MissingResourceVersion)
            },
        },
        State::InitListed { resource_version } => match input {
            Input::WatchStarted(Ok(())) => Ok((None, State::Watching { resource_version })),
            Input::WatchStarted(Err(err)) => Ok(
                (Some(Err(WatcherError::WatchStartFailed(err))), State::InitListed { resource_version }),
            ),
            _ => {
                // an input for another state; `fits` rules it out
                proof {
                    assert(false);
                }
                Err(MissingResourceVersion)
            },
        },
        State::Watching { resource_version } => match input {
            Input::Polled(Some(Ok(ev))) => match ev {
                WatchEvent::Added(obj) | WatchEvent::Modified(obj) => match &obj.resource_version {
                    Some(v) => {
                        let next = State::Watching { resource_version: v.clone() };
                        Ok((Some(Ok(Event::Applied(obj))), next))
                    },
                    None => Err(MissingResourceVersion),
                },
                WatchEvent::Deleted(obj) => match &obj.resource_version {
                    Some(v) => {
                        let next = State::Watching { resource_version: v.clone() };
                        Ok((Some(Ok(Event::Deleted(obj))), next))
                    },
                    None => Err(MissingResourceVersion),
                },
                WatchEvent::Bookmark(v) => Ok((None, State::Watching { resource_version: v })),
                WatchEvent::Error(r) => {
                    let next = if r.code == GONE {
                        State::Empty { init_resource_version: Some(earliest_version()) }
                    } else {
                        State::Watching { resource_version }
                    };
                    Ok((Some(Err(WatcherError::WatchError(r))), next))
                },
            },
            Input::Polled(Some(Err(err))) => Ok(
                (Some(Err(WatcherError::WatchFailed(err))), State::Watching { resource_version }),
            ),
            Input::Polled(None) => Ok((None, State::InitListed { resource_version })),
            _ => {
                // an input for another state; `fits` rules it out
                proof {
                    assert(false);
                }
                Err(MissingResourceVersion)
            },
        },
    }
}

} // verus!
