//! Reading the settings file back: what is kept of a file whose end is
//! damaged, and where a new settings file is written first.

use crate::error::{EngineError, EngineErrorView, ErrorKind};
use vstd::prelude::*;
use vstd::slice::*;
use vstd::string::*;

verus! {

/// Whether `serde_json` reads the bytes as one JSON value with nothing but
/// white space behind it.
pub uninterp spec fn json_parses(bytes: Seq<u8>) -> bool;

/// Calls `serde_json::from_slice` for a `serde_json::Value` and tells whether
/// it gave a value. The parser reads the bytes and nothing else, so what it
/// answers is a matter of the bytes alone; it gives up on input that nests
/// deeper than its limit rather than recursing without end.
#[verifier::external_body]
fn parses_as_json(bytes: &[u8]) -> (r: bool)
    ensures
        r == json_parses(bytes@),
{
    serde_json::from_slice::<serde_json::Value>(bytes).is_ok()
}

/// Whether the first `n` bytes are the longest beginning of `bytes` that
/// parses.
pub open spec fn longest_parsing_prefix(bytes: Seq<u8>, n: int) -> bool {
    &&& 0 <= n <= bytes.len()
    &&& json_parses(bytes.take(n))
    &&& forall|m: int| n < m <= bytes.len() ==> !json_parses(#[trigger] bytes.take(m))
}

/// Whether no beginning of `bytes` parses.
pub open spec fn nothing_parses(bytes: Seq<u8>) -> bool {
    forall|m: int| 0 <= m <= bytes.len() ==> !json_parses(#[trigger] bytes.take(m))
}

/// What the search for the longest beginning that parses makes of one
/// answer of the parser.
#[derive(Clone, Copy, Debug, PartialEq, Eq, Structural)]
pub enum Search {
    /// The beginning of this length parses: it is the one looked for.
    Found(usize),
    /// It does not: the beginning of this length is tried next.
    Shorter(usize),
    /// Not even the empty beginning parses: there is nothing to be found.
    Nothing,
}

/// What the search makes of the answer for the beginning of length `n`:
/// where it parses, it is found; where it does not, the beginning that is
/// one byte shorter is next, if there is one.
pub open spec fn search_step_of(n: usize, parses: bool) -> Search {
    if parses {
        Search::Found(n)
    } else if n == 0 {
        Search::Nothing
    } else {
        Search::Shorter((n - 1) as usize)
    }
}

/// What the search makes of the answer for the beginning of length `n`.
pub fn search_step(n: usize, parses: bool) -> (r: Search)
    ensures
        r == search_step_of(n, parses),
{
    if parses {
        Search::Found(n)
    } else if n == 0 {
        Search::Nothing
    } else {
        Search::Shorter(n - 1)
    }
}

/// The length of the longest beginning of `bytes` that parses as JSON, or
/// none if no beginning does. A settings file with garbage behind the
/// document is read back so: what lies behind the longest beginning that
/// parses is dropped.
pub fn recover_json_prefix(bytes: &[u8]) -> (r: Option<usize>)
    ensures
        match r {
            Some(n) => longest_parsing_prefix(bytes@, n as int),
            None => nothing_parses(bytes@),
        },
{
    let len = bytes.len();
    let mut n: usize = len;
    loop
        invariant
            n <= len,
            len == bytes@.len(),
            forall|m: int| n < m <= len ==> !json_parses(#[trigger] bytes@.take(m)),
        decreases n,
    {
        let head = slice_subrange(bytes, 0, n);
        assert(head@ =~= bytes@.take(n as int));
        match search_step(n, parses_as_json(head)) {
            Search::Found(k) => {
                return Some(k);
            },
            Search::Shorter(k) => {
                n = k;
            },
            Search::Nothing => {
                return None;
            },
        }
    }
}

/// The failure that stands for a settings file of which nothing can be read.
pub open spec fn corrupt_settings(path: Seq<char>) -> EngineErrorView {
    EngineErrorView { kind: ErrorKind::CorruptSettings, name: Seq::empty(), place: path }
}

/// What is read of the settings file at `path` with the content `bytes`:
/// the length of its longest beginning that parses as JSON. Where no
/// beginning parses, the file is corrupt.
pub fn readable_length(path: &str, bytes: &[u8]) -> (r: Result<usize, EngineError>)
    ensures
        match r {
            Ok(n) => longest_parsing_prefix(bytes@, n as int),
            Err(e) => nothing_parses(bytes@) && e@ == corrupt_settings(path@),
        },
{
    match recover_json_prefix(bytes) {
        Some(n) => Ok(n),
        None => {
            proof {
                reveal_strlit("");
                assert(""@ =~= Seq::<char>::empty());
            }
            Err(EngineError::new(ErrorKind::CorruptSettings, "", path))
        },
    }
}

/// A document that parses is never lost to what is written behind it: with
/// `tail` behind `doc`, some beginning parses.
pub proof fn lemma_document_is_found(doc: Seq<u8>, tail: Seq<u8>)
    requires
        json_parses(doc),
    ensures
        !nothing_parses(doc + tail),
{
    assert((doc + tail).take(doc.len() as int) =~= doc);
}

/// A document that parses is kept whole whatever is written behind it: with
/// `tail` behind `doc`, the longest beginning that parses is at least as long
/// as `doc`, and it is `doc` itself where no longer beginning parses.
pub proof fn lemma_document_survives_garbage(doc: Seq<u8>, tail: Seq<u8>, n: int)
    requires
        json_parses(doc),
        longest_parsing_prefix(doc + tail, n),
    ensures
        doc.len() <= n <= doc.len() + tail.len(),
        (forall|m: int|
            doc.len() < m <= doc.len() + tail.len() ==> !json_parses(
                #[trigger] (doc + tail).take(m),
            )) ==> (doc + tail).take(n) == doc,
{
    let all = doc + tail;
    assert(all.take(doc.len() as int) =~= doc);
}

/// The path at which a new settings file is written before it takes the
/// place of the old one: the path of the settings file with `.tmp` behind
/// it. Writing there first and renaming then keeps a reader from ever
/// seeing a file that is half written.
pub open spec fn staging_path_of(path: Seq<char>) -> Seq<char> {
    path + ".tmp"@
}

/// The path at which a new settings file is written before it takes the
/// place of the old one.
pub fn staging_path(path: &str) -> (r: String)
    ensures
        r@ == staging_path_of(path@),
{
    let mut p = path.to_owned();
    p.append(".tmp");
    p
}

} // verus!
