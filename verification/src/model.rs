//! Plain-value model of a workflow step and of the job the runner executes for it.
use vstd::prelude::*;

verus! {

/// A workflow step as the runner reads it from the DSL.
pub struct Step {
    /// The step's name.
    pub name: String,
    /// The step's type (`RunContainer`, `RunK8sJob`, ...).
    pub step_type: String,
    /// The step's spec as JSON text (`null` when there is none).
    pub spec_json: String,
    /// The step's parameters, in order.
    pub params: Vec<(String, String)>,
    /// The step's test reports, each as JSON text.
    pub reports_json: Vec<String>,
    /// The retry count, when the step sets a retry policy (read from its `retry` member).
    pub retry_count: Option<i32>,
    /// The step's other members (name, compact JSON text), in order, kept as they came.
    pub others: Vec<(String, String)>,
}

/// A step as plain values: name, type, spec text, parameters, report texts, retry count.
pub struct StepView {
    pub name: Seq<char>,
    pub step_type: Seq<char>,
    pub spec_json: Seq<char>,
    pub params: Seq<(Seq<char>, Seq<char>)>,
    pub reports: Seq<Seq<char>>,
    pub retry_count: Option<i32>,
    pub others: Seq<(Seq<char>, Seq<char>)>,
}

impl View for Step {
    type V = StepView;

    open spec fn view(&self) -> StepView {
        StepView {
            name: self.name@,
            step_type: self.step_type@,
            spec_json: self.spec_json@,
            params: crate::k8s_model::pairs_view(self.params@),
            reports: crate::k8s_model::strs_view(self.reports_json@),
            retry_count: self.retry_count,
            others: crate::k8s_model::pairs_view(self.others@),
        }
    }
}

/// One provisioning source of a storage mount.
pub struct ProvisionEntry {
    pub url: Option<String>,
    pub destination: Option<String>,
}

/// The URLs the orchestrator hands out for one storage.
pub struct StorageUrls {
    /// The whole entry as compact JSON text.
    pub raw_json: String,
    /// Whether the entry has a `put_url` key at all.
    pub has_put_url: bool,
    /// `put_url`, when it is a string.
    pub put_url: Option<String>,
    /// `get_url`, when it is a string.
    pub get_url: Option<String>,
    /// Whether `expected_hash` is a string.
    pub has_expected_hash: bool,
    /// `artifacts` as compact JSON text, when present.
    pub artifacts_json: Option<String>,
    /// The entries of `artifacts` (name, compact JSON text), when it is an object.
    pub artifact_entries: Option<Vec<(String, String)>>,
    /// `provision`, when it is an array.
    pub provision: Option<Vec<ProvisionEntry>>,
}

/// A named storage and its URLs.
pub struct StorageEntry {
    pub name: String,
    pub urls: StorageUrls,
}

/// Everything the runner knows about the job of one step.
pub struct JobMetadata {
    pub run_id: u128,
    pub step_id: u128,
    pub fencing_token: i64,
    pub step_dsl: Step,
    pub namespace: String,
    /// When the task arrived, in nanoseconds since the epoch.
    pub received_at_ns: i64,
    pub cluster_version: String,
    pub encryption_key: Option<String>,
    /// The storages of the run, in the orchestrator's order.
    pub storage: Option<Vec<StorageEntry>>,
    /// The test report upload URLs as JSON text.
    pub test_report_urls_json: Option<String>,
    /// Whether the step pulls its image with registry credentials.
    pub has_registry_auth: bool,
}

/// Looks up the URLs of a storage by name (the first entry with that name).
pub open spec fn storage_lookup(entries: Seq<StorageEntry>, name: Seq<char>) -> Option<StorageUrls>
    decreases entries.len(),
{
    if entries.len() == 0 {
        None
    } else if entries[0].name@ == name {
        Some(entries[0].urls)
    } else {
        storage_lookup(entries.drop_first(), name)
    }
}

/// Finds the storage entry named `name`.
pub fn find_storage<'a>(entries: &'a Vec<StorageEntry>, name: &String) -> (r: Option<&'a StorageUrls>)
    ensures
        match storage_lookup(entries@, name@) {
            Some(u) => r is Some && *r->0 == u,
            None => r is None,
        },
{
    let mut i: usize = 0;
    assert(entries@.skip(0) =~= entries@);
    while i < entries.len()
        invariant
            i <= entries@.len(),
            storage_lookup(entries@, name@) == storage_lookup(entries@.skip(i as int), name@),
        decreases entries@.len() - i,
    {
        assert(entries@.skip(i as int).drop_first() =~= entries@.skip(i + 1));
        if entries[i].name.eq(name) {
            return Some(&entries[i].urls);
        }
        i = i + 1;
    }
    assert(entries@.skip(i as int) =~= Seq::<StorageEntry>::empty());
    None
}

} // verus!
