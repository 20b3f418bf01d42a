use vstd::prelude::*;
use crate::detail::{describes_fields, get_url as detail_url, get_volume, volume_url};
use crate::isbn::Isbn;
use crate::search::{get_url as search_url_of, ok_body, search_isbn, search_outcome, search_url, Reply};
use crate::volume::Volume;

verus! {

/// Where the lookup service lives and the key that opens it.
pub struct ApiConfig {
    pub base_uri: String,
    pub api_key: String,
}

/// Resolves identifiers into volumes through the lookup service.
pub struct Client {
    config: ApiConfig,
}

impl Client {
    pub fn new(config: ApiConfig) -> (r: Client)
        ensures
            r.config() == config,
    {
        Client { config }
    }

    pub closed spec fn config(&self) -> ApiConfig {
        self.config
    }

    /// Starts resolving `isbn`: the lookup waits for the search reply, and the
    /// address returned is the search to send.
    pub fn search_book(&self, isbn: &Isbn) -> (r: (Lookup, String))
        ensures
            r.0 == Lookup::Searching(*isbn),
            r.1@ == search_url(self.config(), isbn@),
    {
        let url = search_url_of(isbn.value.as_str(), &self.config);
        (Lookup::Searching(isbn.clone()), url)
    }

    /// Moves a lookup on by the reply to its last request. Returns the next
    /// state, and the next address to send where there is one.
    pub fn step(&self, state: Lookup, reply: Option<Reply>) -> (r: (Lookup, Option<String>))
        ensures
            step_spec(self.config(), state, reply, r.0, r.1),
    {
        match state {
            Lookup::Searching(isbn) => match search_isbn(&reply) {
                Some(id) => {
                    let url = detail_url(id.as_str(), &self.config);
                    (Lookup::Fetching(isbn), Some(url))
                },
                None => (Lookup::Finished(None), None),
            },
            Lookup::Fetching(isbn) => match get_volume(&reply) {
                Some(v) => {
                    let mut v = v;
                    v.isbn = isbn;
                    (Lookup::Finished(Some(v)), None)
                },
                None => (Lookup::Finished(None), None),
            },
            Lookup::Finished(result) => (Lookup::Finished(result), None),
        }
    }
}

/// Where the resolution of one identifier stands.
pub enum Lookup {
    /// The search for the identifier was sent.
    Searching(Isbn),
    /// The search gave a result id; its details were asked for.
    Fetching(Isbn),
    /// Done: the book found, or `None` where a step failed.
    Finished(Option<Volume>),
}

/// One move of a lookup: from `state`, on `reply`, to `next`, sending `url` if any.
pub open spec fn step_spec(
    config: ApiConfig,
    state: Lookup,
    reply: Option<Reply>,
    next: Lookup,
    url: Option<String>,
) -> bool {
    match state {
        Lookup::Searching(isbn) => match search_outcome(reply) {
            Some(id) => {
                &&& next == Lookup::Fetching(isbn)
                &&& url is Some
                &&& url->Some_0@ == volume_url(config, id)
            },
            None => next == Lookup::Finished(None) && url is None,
        },
        Lookup::Fetching(isbn) => {
            &&& url is None
            &&& match ok_body(reply) {
                Some(d) => {
                    &&& next is Finished
                    &&& next->Finished_0 is Some
                    &&& next->Finished_0->Some_0.isbn == isbn
                    &&& describes_fields(next->Finished_0->Some_0, d)
                },
                None => next == Lookup::Finished(None),
            }
        },
        Lookup::Finished(result) => next == Lookup::Finished(result) && url is None,
    }
}

} // verus!
