//! Snapshots: the whole store as one JSON object of strings, and back.
//!
//! Nothing here touches a file. `save` gives the bytes that are to be
//! written and `written` takes what writing them gave; `load` takes what
//! reading gave.

use crate::error::{result_view, IoFailure, IoFailureView, IoKind, MyError, MyErrorView};
use crate::store::{distinct_keys, pairs_map, pairs_of, Store};
use std::collections::HashMap;
use vstd::prelude::*;

verus! {

/// The mapping that `serde_json::from_slice` reads from `bytes` when it is
/// asked for a map from strings to strings; `None` where it reports an
/// error.
pub uninterp spec fn json_object(bytes: Seq<u8>) -> Option<Map<Seq<char>, Seq<char>>>;

/// `serde_json::from_slice` at the type `HashMap<String, String>`, the
/// entries of the map handed out as pairs in the order in which the map
/// yields them. The contract names the outcome `json_object`, and says that
/// the pairs describe the mapping that was read.
#[verifier::external_body]
fn from_json(bytes: &[u8]) -> (r: Result<Vec<(String, String)>, serde_json::Error>)
    ensures
        match r {
            Ok(pairs) => json_object(bytes@) == Some(pairs_map(pairs_of(pairs@))),
            Err(_) => json_object(bytes@) is None,
        },
{
    match serde_json::from_slice::<HashMap<String, String>>(bytes) {
        Ok(map) => Ok(map.into_iter().collect()),
        Err(error) => Err(error),
    }
}

/// `serde_json::to_vec` on a map from strings to strings that holds the
/// given pairs. In which order the entries are written is open, so the
/// contract says what holds of every text that comes back. It does come
/// back: the encoder fails only where its writer fails or a key is no
/// string, and here the writer is a vector and every key a string. And
/// `serde_json::from_slice` reads the same mapping from it: the encoder
/// writes one object whose members are the entries, keys and values as
/// escaped JSON strings, which is what the decoder undoes.
#[verifier::external_body]
fn to_json(pairs: &Vec<(String, String)>) -> (r: Result<Vec<u8>, serde_json::Error>)
    requires
        distinct_keys(pairs_of(pairs@)),
    ensures
        match r {
            Ok(bytes) => json_object(bytes@) == Some(pairs_map(pairs_of(pairs@))),
            Err(_) => false,
        },
{
    let map: HashMap<&String, &String> = pairs.iter().map(|pair| (&pair.0, &pair.1)).collect();
    serde_json::to_vec(&map)
}

/// `outcome` is what saving the mapping `store` gives: bytes from which
/// the same mapping is read back. Saving a store never fails.
pub open spec fn saves(
    store: Map<Seq<char>, Seq<char>>,
    outcome: Result<Seq<u8>, MyErrorView>,
) -> bool {
    match outcome {
        Ok(bytes) => json_object(bytes) == Some(store),
        Err(_) => false,
    }
}

/// `outcome` is what saving to `path` gives, where writing the bytes gave
/// `wrote`: nothing to report where they were written, and otherwise the
/// failure of the file system with the path.
pub open spec fn writes(
    path: Seq<char>,
    wrote: Result<(), IoFailureView>,
    outcome: Result<(), MyErrorView>,
) -> bool {
    outcome == match wrote {
        Ok(done) => Ok::<(), MyErrorView>(done),
        Err(failure) => Err(MyErrorView::Io { path, source: failure }),
    }
}

/// `outcome` is what loading from `path` gives, where reading the file gave
/// `read`: the empty mapping where there is no file, the mapping that the
/// bytes hold where there is one, and otherwise the report of what failed.
pub open spec fn loads(
    path: Seq<char>,
    read: Result<Seq<u8>, IoFailureView>,
    outcome: Result<Map<Seq<char>, Seq<char>>, MyErrorView>,
) -> bool {
    match read {
        Err(failure) => if failure.kind == IoKind::NotFound {
            outcome == Ok::<Map<Seq<char>, Seq<char>>, MyErrorView>(Map::empty())
        } else {
            outcome == Err::<Map<Seq<char>, Seq<char>>, MyErrorView>(
                MyErrorView::Io { path, source: failure },
            )
        },
        Ok(bytes) => match json_object(bytes) {
            Some(store) => outcome == Ok::<Map<Seq<char>, Seq<char>>, MyErrorView>(store),
            None => match outcome {
                Err(MyErrorView::Parse { path: place, .. }) => place == path,
                _ => false,
            },
        },
    }
}

/// What is reported where an encoding reads back as another mapping than
/// the one that was encoded.
pub open spec fn another_mapping() -> Seq<char> {
    "the encoded snapshot holds another mapping"@
}

/// Reads `bytes` as a snapshot and hands them on where they hold exactly
/// the mapping of `store`. Bytes that hold another mapping, or none, are
/// reported as a failure to encode.
pub fn checked(path: &str, store: &Store, bytes: Vec<u8>) -> (r: Result<Vec<u8>, MyError>)
    ensures
        r is Ok <==> json_object(bytes@) == Some(store@),
        match r {
            Ok(same) => same == bytes,
            Err(error) => match json_object(bytes@) {
                Some(_) => error@ == (MyErrorView::Serialize {
                    path: path@,
                    source: another_mapping(),
                }),
                None => match error@ {
                    MyErrorView::Serialize { path: place, .. } => place == path@,
                    _ => false,
                },
            },
        },
{
    match from_json(bytes.as_slice()) {
        Ok(pairs) => {
            if Store::from_pairs(pairs).same_as(store) {
                Ok(bytes)
            } else {
                Err(
                    MyError::Serialize {
                        path: path.to_owned(),
                        source: "the encoded snapshot holds another mapping".to_owned(),
                    },
                )
            }
        },
        Err(error) => Err(
            MyError::Serialize { path: path.to_owned(), source: error.to_string() },
        ),
    }
}

/// The bytes of a snapshot of `store`, to be written to `path` as a whole.
/// Every store has them. They are read back before they are handed out;
/// by the encoder's contract that reading always agrees.
pub fn save(path: &str, store: &Store) -> (r: Result<Vec<u8>, MyError>)
    ensures
        r is Ok,
        saves(store@, result_view(r)),
{
    match to_json(store.pairs()) {
        Ok(bytes) => checked(path, store, bytes),
        Err(error) => Err(MyError::Serialize { path: path.to_owned(), source: error.to_string() }),
    }
}

/// What saving to `path` comes to, where `wrote` is what writing the bytes
/// of the snapshot gave: a failure of the file system is reported as `Io`
/// with the path.
pub fn written(path: &str, wrote: Result<(), IoFailure>) -> (r: Result<(), MyError>)
    ensures
        writes(path@, result_view(wrote), result_view(r)),
{
    match wrote {
        Ok(done) => Ok(done),
        Err(failure) => Err(MyError::Io { path: path.to_owned(), source: failure }),
    }
}

/// The store that the snapshot at `path` holds, where `read` is what
/// reading the whole file gave. A file that does not exist is an empty
/// store. Bytes that hold no mapping give no store at all.
pub fn load(path: &str, read: Result<Vec<u8>, IoFailure>) -> (r: Result<Store, MyError>)
    ensures
        loads(path@, result_view(read), result_view(r)),
{
    match read {
        Err(failure) => match failure.kind {
            IoKind::NotFound => Ok(Store::new()),
            _ => Err(MyError::Io { path: path.to_owned(), source: failure }),
        },
        Ok(bytes) => match from_json(bytes.as_slice()) {
            Ok(pairs) => Ok(Store::from_pairs(pairs)),
            Err(error) => Err(
                MyError::Parse { path: path.to_owned(), source: error.to_string() },
            ),
        },
    }
}

/// First run: where there is no file, loading gives the empty store and no
/// error, whatever the path and whatever the system said.
pub proof fn lemma_first_run(
    path: Seq<char>,
    message: Seq<char>,
    loaded: Result<Map<Seq<char>, Seq<char>>, MyErrorView>,
)
    requires
        loads(path, Err(IoFailureView { kind: IoKind::NotFound, message }), loaded),
    ensures
        loaded == Ok::<Map<Seq<char>, Seq<char>>, MyErrorView>(Map::empty()),
{
}

/// Corrupt snapshot: bytes from which no mapping can be read give `Parse`
/// with the path, and so no store, not even a part of one.
pub proof fn lemma_corrupt_snapshot(
    path: Seq<char>,
    bytes: Seq<u8>,
    loaded: Result<Map<Seq<char>, Seq<char>>, MyErrorView>,
)
    requires
        json_object(bytes) is None,
        loads(path, Ok(bytes), loaded),
    ensures
        loaded is Err,
        loaded matches Err(MyErrorView::Parse { path: place, .. }) && place == path,
{
}

/// Round trip: every store is saved, and loading the bytes that saving
/// gave yields that store's mapping again, under whatever path.
pub proof fn lemma_save_then_load(
    store: Map<Seq<char>, Seq<char>>,
    saved: Result<Seq<u8>, MyErrorView>,
    loaded_at: Seq<char>,
    loaded: Result<Map<Seq<char>, Seq<char>>, MyErrorView>,
)
    requires
        saves(store, saved),
        saved matches Ok(bytes) ==> loads(loaded_at, Ok(bytes), loaded),
    ensures
        saved is Ok,
        loaded == Ok::<Map<Seq<char>, Seq<char>>, MyErrorView>(store),
{
}

/// Overwriting: a second save does not depend on the first. Whatever was
/// saved before, the bytes of a later save load as the later store alone.
pub proof fn lemma_save_again(
    earlier: Map<Seq<char>, Seq<char>>,
    first: Result<Seq<u8>, MyErrorView>,
    later: Map<Seq<char>, Seq<char>>,
    second: Result<Seq<u8>, MyErrorView>,
    path: Seq<char>,
    loaded: Result<Map<Seq<char>, Seq<char>>, MyErrorView>,
)
    requires
        saves(earlier, first),
        saves(later, second),
        second matches Ok(bytes) ==> loads(path, Ok(bytes), loaded),
    ensures
        second is Ok,
        loaded == Ok::<Map<Seq<char>, Seq<char>>, MyErrorView>(later),
{
}

} // verus!
