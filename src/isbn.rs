use vstd::prelude::*;

verus! {

/// The normalized form of a raw identifier: every hyphen removed.
pub open spec fn strip_hyphens(s: Seq<char>) -> Seq<char>
    decreases s.len(),
{
    if s.len() == 0 {
        Seq::empty()
    } else {
        let rest = strip_hyphens(s.drop_last());
        if s.last() == '-' {
            rest
        } else {
            rest.push(s.last())
        }
    }
}

/// A book identifier, kept in normalized form.
#[derive(Debug)]
pub struct Isbn {
    pub value: String,
}

impl View for Isbn {
    type V = Seq<char>;

    open spec fn view(&self) -> Seq<char> {
        self.value@
    }
}

impl Isbn {
    /// Builds an identifier from raw input, dropping the hyphens.
    pub fn new(raw: &str) -> (r: Isbn)
        ensures
            r@ == strip_hyphens(raw@),
    {
        let n = raw.unicode_len();
        let mut value = String::new();
        let mut i: usize = 0;
        while i < n
            invariant
                n == raw@.len(),
                i <= n,
                value@ == strip_hyphens(raw@.subrange(0, i as int)),
            decreases n - i,
        {
            let c = raw.get_char(i);
            if c != '-' {
                value.append(raw.substring_char(i, i + 1));
            }
            assert(raw@.subrange(0, i + 1).drop_last() =~= raw@.subrange(0, i as int));
            i += 1;
        }
        assert(raw@.subrange(0, n as int) =~= raw@);
        Isbn { value }
    }

    /// The identifier as a string.
    pub fn to_string(&self) -> (r: String)
        ensures
            r@ == self@,
    {
        self.value.clone()
    }
}

impl Clone for Isbn {
    fn clone(&self) -> (r: Isbn)
        ensures
            r == *self,
    {
        Isbn { value: self.value.clone() }
    }
}

impl PartialEq for Isbn {
    fn eq(&self, other: &Isbn) -> (r: bool) {
        self.value == other.value
    }
}

impl vstd::std_specs::cmp::PartialEqSpecImpl for Isbn {
    open spec fn obeys_eq_spec() -> bool {
        true
    }

    open spec fn eq_spec(&self, other: &Isbn) -> bool {
        self@ == other@
    }
}

impl Default for Isbn {
    fn default() -> (r: Isbn)
        ensures
            r@ == Seq::<char>::empty(),
    {
        Isbn { value: String::new() }
    }
}

} // verus!
