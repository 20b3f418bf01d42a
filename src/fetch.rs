use vstd::prelude::*;
use crate::client::{ApiConfig, Client};
use crate::config::Config;
use crate::isbn::Isbn;
use crate::library::{carries_ids, distinct_ids, failures, found, ids, in_catalog, new_isbns, unique_ids, AppendStats, Library, LibraryService};
use crate::storage::Storage;
use crate::volume::Volume;

verus! {

/// One fetch run: finds the requested books that the catalog lacks, adds them,
/// and has the catalog saved.
pub struct FetchCommand {
    service: LibraryService,
}

impl FetchCommand {
    /// Sets up a run from the settings, over the catalog loaded from the store.
    pub fn create(config: &Config, loaded: Library) -> (r: FetchCommand)
        ensures
            r.service().volumes() == loaded.volumes@,
            r.service().client().config().base_uri@ == config.base_url@,
            r.service().client().config().api_key@ == config.api_key@,
            r.service().storage().spec_path() == config.output@,
    {
        let client = create_client(config);
        let storage = create_storage(config);
        let service = LibraryService::new(client, storage, loaded);
        FetchCommand { service }
    }

    pub closed spec fn service(&self) -> LibraryService {
        self.service
    }

    /// The service that keeps the catalog.
    pub fn get_service(&self) -> (r: &LibraryService)
        ensures
            *r == self.service(),
    {
        &self.service
    }

    /// The identifiers of `list` to look up: those the catalog lacks.
    pub fn pending(&self, list: &[Isbn]) -> (r: Vec<Isbn>)
        ensures
            r@ == new_isbns(self.service().volumes(), list@),
    {
        self.service.identify_new_isbns(list)
    }

    /// Adds what the lookups of `pending(list)` found; `results` holds one
    /// outcome per pending identifier, in order, and each book found carries
    /// the identifier it was looked up for.
    pub fn record(&mut self, list: &[Isbn], results: Vec<Option<Volume>>) -> (r: AppendStats)
        requires
            results@.len() == new_isbns(old(self).service().volumes(), list@).len(),
            carries_ids(new_isbns(old(self).service().volumes(), list@), results@),
        ensures
            final(self).service().volumes() == old(self).service().volumes() + found(results@),
            forall|k: int|
                0 <= k < found(results@).len() ==> ids(list@).contains(
                    (#[trigger] found(results@)[k]).isbn@,
                ) && !in_catalog(old(self).service().volumes(), found(results@)[k].isbn@),
            unique_ids(old(self).service().volumes()) && distinct_ids(list@) ==> unique_ids(
                final(self).service().volumes(),
            ),
            final(self).service().client() == old(self).service().client(),
            final(self).service().storage() == old(self).service().storage(),
            r.input_list == list@.len(),
            r.new_volumes == found(results@).len(),
            r.new_volumes == results@.len() - failures(results@),
            r.new_volumes <= r.input_list,
    {
        self.service.append_volumes(list, results)
    }

    /// Ends the run once the catalog was written: its figures where the write
    /// went through, and an error where it failed. The catalog in memory keeps
    /// the added books either way.
    pub fn finish(&self, stats: AppendStats, written: Result<(), String>) -> (r: Result<
        AppendStats,
        &'static str,
    >)
        ensures
            written is Ok ==> r == Ok::<AppendStats, &'static str>(stats),
            written is Err ==> r == Err::<AppendStats, &'static str>("Impossible to write library"),
    {
        match self.service.save(written) {
            Ok(()) => Ok(stats),
            Err(e) => Err(e),
        }
    }
}

/// The lookup client, from the service address and key of the settings.
fn create_client(config: &Config) -> (r: Client)
    ensures
        r.config().base_uri@ == config.base_url@,
        r.config().api_key@ == config.api_key@,
{
    let api_config = ApiConfig { base_uri: config.base_url.clone(), api_key: config.api_key.clone() };
    Client::new(api_config)
}

/// The store, at the catalog location of the settings.
fn create_storage(config: &Config) -> (r: Storage)
    ensures
        r.spec_path() == config.output@,
{
    Storage::new(config.output.as_str())
}

} // verus!
