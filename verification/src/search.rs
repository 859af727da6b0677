//! The search provider that supplies suggestion candidates.
//!
//! The dispatcher never ranks or pages suggestions itself: it asks a
//! provider for a prefix search, walks its candidates, and discards the
//! session when editing resumes. The host supplies the provider; its
//! answers are data the dispatcher reacts to, so no behaviour is assumed
//! of it here.

use vstd::prelude::*;

verus! {

/// What a prefix search returned: the head (best) candidate if any, and
/// how much of the candidate set has been loaded so far.
#[derive(Debug)]
pub struct SearchReply {
    pub head_candidate: Option<String>,
    pub fully_loaded: bool,
    pub loaded_count: usize,
}

/// A failed lookup: a failure kind and its message. It is always recovered
/// locally, as a guide message.
#[derive(Debug)]
pub struct LookupError {
    pub kind: String,
    pub message: String,
}

/// The external suggestion source. `start_search` opens a session over a
/// prefix; `down_with_load` and `up` walk the candidates, loading more in
/// the background when needed; `get_current_item` reads the candidate the
/// session stands on; `leave_search` discards the session.
pub trait SearchProvider {
    fn start_search(&mut self, prefix: &str) -> Result<SearchReply, LookupError>;

    fn down_with_load(&mut self);

    fn up(&mut self);

    fn get_current_item(&self) -> String;

    fn leave_search(&mut self);
}

} // verus!
