use vstd::prelude::*;
use crate::isbn::Isbn;

verus! {

/// A book's metadata as kept in the catalog.
pub struct Volume {
    pub isbn: Isbn,
    pub title: String,
    pub description: String,
    pub publisher: String,
    pub published_date: String,
    pub image: String,
    pub language: String,
    pub authors: Vec<String>,
    pub pages: i64,
}

impl Volume {
    /// A volume with every text field empty, no authors and no pages.
    pub fn empty() -> (r: Volume)
        ensures
            r.is_empty_record(),
    {
        Volume {
            isbn: Isbn::default(),
            title: String::new(),
            description: String::new(),
            publisher: String::new(),
            published_date: String::new(),
            image: String::new(),
            language: String::new(),
            authors: Vec::new(),
            pages: 0,
        }
    }

    pub open spec fn is_empty_record(&self) -> bool {
        &&& self.isbn@ == Seq::<char>::empty()
        &&& self.title@ == Seq::<char>::empty()
        &&& self.description@ == Seq::<char>::empty()
        &&& self.publisher@ == Seq::<char>::empty()
        &&& self.published_date@ == Seq::<char>::empty()
        &&& self.image@ == Seq::<char>::empty()
        &&& self.language@ == Seq::<char>::empty()
        &&& self.authors@ == Seq::<String>::empty()
        &&& self.pages == 0
    }
}

} // verus!
