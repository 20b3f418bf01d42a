use vstd::prelude::*;
use crate::cli::Args;

verus! {

/// Settings of a run: the lookup service's address and key, and where the
/// catalog is kept.
pub struct Config {
    pub base_url: String,
    pub api_key: String,
    pub output: String,
}

impl Default for Config {
    fn default() -> (r: Config)
        ensures
            r.base_url@ == Seq::<char>::empty(),
            r.api_key@ == Seq::<char>::empty(),
            r.output@ == "library.json"@,
    {
        Config {
            base_url: String::new(),
            api_key: String::new(),
            output: String::from_str("library.json"),
        }
    }
}

impl Config {
    /// Takes the catalog location from the arguments.
    pub fn set_default(&mut self, arguments: &Args)
        ensures
            final(self).output@ == arguments.output_file@,
            final(self).base_url == old(self).base_url,
            final(self).api_key == old(self).api_key,
    {
        self.output = arguments.output_file.clone();
    }

    /// The lookup service needs both an address and a key.
    pub fn is_valid(&self) -> (r: bool)
        ensures
            r == (self.base_url@.len() > 0 && self.api_key@.len() > 0),
    {
        !self.base_url.as_str().is_empty() && !self.api_key.as_str().is_empty()
    }
}

} // verus!
