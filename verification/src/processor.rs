//! Applying a command to the store.

use crate::command::{Command, CommandView};
use crate::error::{result_view, MyError, MyErrorView};
use crate::store::{lists, lookup, strings, Store};
use vstd::prelude::*;

verus! {

/// What a command that succeeded hands back.
#[derive(Clone, Debug, PartialEq, Eq)]
pub enum Reply {
    /// The value that `get` found.
    Value(String),
    /// `set` stored the value; `previous` is the value that the key had
    /// before, `None` where it was absent.
    Stored { previous: Option<String> },
    /// The value that `delete` took out.
    Removed(String),
    /// The keys that `list` found, each once.
    Keys(Vec<String>),
    /// `exit`: the command loop is to end.
    Exit,
}

/// The mathematical value of a [`Reply`].
pub enum ReplyView {
    Value(Seq<char>),
    Stored { previous: Option<Seq<char>> },
    Removed(Seq<char>),
    Keys(Seq<Seq<char>>),
    Exit,
}

impl View for Reply {
    type V = ReplyView;

    open spec fn view(&self) -> ReplyView {
        match self {
            Reply::Value(value) => ReplyView::Value(value@),
            Reply::Stored { previous } => ReplyView::Stored {
                previous: match previous {
                    Some(value) => Some(value@),
                    None => None,
                },
            },
            Reply::Removed(value) => ReplyView::Removed(value@),
            Reply::Keys(keys) => ReplyView::Keys(strings(keys@)),
            Reply::Exit => ReplyView::Exit,
        }
    }
}

/// The value that `m` holds under `key`, if any.
pub open spec fn value_at(m: Map<Seq<char>, Seq<char>>, key: Seq<char>) -> Option<Seq<char>> {
    if m.contains_key(key) {
        Some(m[key])
    } else {
        None
    }
}

/// Applying `command` to the mapping `before` leaves the mapping `after`
/// and gives `reply`. Everything is determined by `before` and `command`
/// but the order of the keys that `list` hands back.
pub open spec fn applies(
    before: Map<Seq<char>, Seq<char>>,
    command: CommandView,
    after: Map<Seq<char>, Seq<char>>,
    reply: Result<ReplyView, MyErrorView>,
) -> bool {
    match command {
        CommandView::Get { key } => {
            &&& after == before
            &&& reply == match lookup(before, key) {
                Ok(value) => Ok::<ReplyView, MyErrorView>(ReplyView::Value(value)),
                Err(error) => Err(error),
            }
        },
        CommandView::Put { key, value } => {
            &&& after == before.insert(key, value)
            &&& reply == Ok::<ReplyView, MyErrorView>(
                ReplyView::Stored { previous: value_at(before, key) },
            )
        },
        CommandView::Delete { key } => {
            &&& after == before.remove(key)
            &&& reply == match lookup(before, key) {
                Ok(value) => Ok::<ReplyView, MyErrorView>(ReplyView::Removed(value)),
                Err(error) => Err(error),
            }
        },
        CommandView::List => {
            &&& after == before
            &&& match reply {
                Ok(ReplyView::Keys(keys)) => lists(keys, before),
                _ => false,
            }
        },
        CommandView::Exit => {
            &&& after == before
            &&& reply == Ok::<ReplyView, MyErrorView>(ReplyView::Exit)
        },
    }
}

/// A command that fails leaves the mapping as it was.
pub proof fn lemma_failure_changes_nothing(
    before: Map<Seq<char>, Seq<char>>,
    command: CommandView,
    after: Map<Seq<char>, Seq<char>>,
    error: MyErrorView,
)
    requires
        applies(before, command, after, Err(error)),
    ensures
        after == before,
{
}

/// On the empty mapping, `get` and `delete` of any key report that key as
/// absent and leave the mapping empty.
pub proof fn lemma_absent_in_empty(
    key: Seq<char>,
    after: Map<Seq<char>, Seq<char>>,
    reply: Result<ReplyView, MyErrorView>,
)
    requires
        applies(Map::empty(), CommandView::Get { key }, after, reply) || applies(
            Map::empty(),
            CommandView::Delete { key },
            after,
            reply,
        ),
    ensures
        reply == Err::<ReplyView, MyErrorView>(MyErrorView::NotFound { key }),
        after == Map::<Seq<char>, Seq<char>>::empty(),
{
}

/// After `set` has stored a value under a key, `get` of that key gives the
/// value, whatever the mapping held before.
pub proof fn lemma_set_then_get(
    before: Map<Seq<char>, Seq<char>>,
    key: Seq<char>,
    value: Seq<char>,
    stored: Map<Seq<char>, Seq<char>>,
    first: Result<ReplyView, MyErrorView>,
    after: Map<Seq<char>, Seq<char>>,
    second: Result<ReplyView, MyErrorView>,
)
    requires
        applies(before, CommandView::Put { key, value }, stored, first),
        applies(stored, CommandView::Get { key }, after, second),
    ensures
        first is Ok,
        second == Ok::<ReplyView, MyErrorView>(ReplyView::Value(value)),
        after == stored,
{
}

/// Storing under one key twice leaves the later value, and the key once:
/// the second `set` hands the first value back, adds no key, and every
/// listing of the keys afterwards holds the key at exactly one place.
pub proof fn lemma_overwrite(
    before: Map<Seq<char>, Seq<char>>,
    key: Seq<char>,
    earlier: Seq<char>,
    later: Seq<char>,
    once: Map<Seq<char>, Seq<char>>,
    first: Result<ReplyView, MyErrorView>,
    twice: Map<Seq<char>, Seq<char>>,
    second: Result<ReplyView, MyErrorView>,
)
    requires
        applies(before, CommandView::Put { key, value: earlier }, once, first),
        applies(once, CommandView::Put { key, value: later }, twice, second),
    ensures
        twice == before.insert(key, later),
        lookup(twice, key) == Ok::<Seq<char>, MyErrorView>(later),
        second == Ok::<ReplyView, MyErrorView>(ReplyView::Stored { previous: Some(earlier) }),
        twice.dom() == once.dom(),
        forall|keys: Seq<Seq<char>>, i: int, j: int|
            lists(keys, twice) && 0 <= i < keys.len() && 0 <= j < keys.len() && keys[i] == key
                && keys[j] == key ==> i == j,
        forall|keys: Seq<Seq<char>>| lists(keys, twice) ==> keys.contains(key),
{
}

impl Store {
    /// Applies `command`. A command that fails leaves the store as it was;
    /// nothing is written to any file.
    pub fn apply(&mut self, command: Command) -> (reply: Result<Reply, MyError>)
        ensures
            applies(old(self)@, command@, final(self)@, result_view(reply)),
    {
        match command {
            Command::Get { key } => match self.get(key.as_str()) {
                Some(value) => Ok(Reply::Value(value.clone())),
                None => Err(MyError::NotFound { key }),
            },
            Command::Put { key, value } => {
                let previous = self.insert(key, value);
                Ok(Reply::Stored { previous })
            },
            Command::Delete { key } => match self.remove(key.as_str()) {
                Some(value) => Ok(Reply::Removed(value)),
                None => Err(MyError::NotFound { key }),
            },
            Command::List => Ok(Reply::Keys(self.keys())),
            Command::Exit => Ok(Reply::Exit),
        }
    }
}

} // verus!
