//! The model catalog: which entries of a directory walk are models, and the
//! identifier each one is listed under.

use vstd::prelude::*;
use crate::path::{has_extension, is_normalized, lemma_relative_is_normalized, path_has_extension,
    relative_identifier, relative_to};

verus! {

/// The extension of the files that the viewer lists as models.
pub const MODEL_EXTENSION: &'static str = "gltf";

/// The directory that the identifiers are relative to.
pub const ASSET_ROOT: &'static str = "assets";

/// One loadable model, named by its identifier: a path relative to the asset
/// root with `/` as separator, possibly followed by `#` and the name of one
/// scene inside the file. The catalog never looks inside the identifier.
#[derive(Debug, Clone, PartialEq, Eq)]
pub struct ModelDescriptor {
    identifier: String,
}

impl View for ModelDescriptor {
    type V = Seq<char>;

    closed spec fn view(&self) -> Seq<char> {
        self.identifier@
    }
}

impl ModelDescriptor {
    /// A descriptor for the given identifier, taken as it is.
    pub fn new(identifier: String) -> (d: ModelDescriptor)
        ensures
            d@ == identifier@,
    {
        ModelDescriptor { identifier }
    }

    /// The identifier, as the loader takes it.
    pub fn identifier(&self) -> (s: &str)
        ensures
            s@ == self@,
    {
        self.identifier.as_str()
    }

    /// The text a selection list shows for this model: the identifier.
    pub fn label(&self) -> (s: &str)
        ensures
            s@ == self@,
    {
        self.identifier.as_str()
    }

    /// The descriptor of one named scene inside this model's file: the
    /// identifier, `#`, and the scene's name.
    pub fn with_sub_resource(&self, name: &str) -> (d: ModelDescriptor)
        ensures
            d@ == self@ + seq!['#'] + name@,
    {
        let mut identifier = self.identifier.clone();
        identifier.push('#');
        identifier.append(name);
        ModelDescriptor { identifier }
    }
}

/// What a directory walk reports for one entry.
#[derive(Debug, Clone, PartialEq, Eq)]
pub enum ScanEntry {
    /// An entry that could be read: its path as the walk wrote it, and
    /// whether it is a regular file.
    Found { path: String, is_file: bool },
    /// An entry that could not be read, with the walk's reason.
    Unreadable { reason: String },
}

/// An entry that the scan skipped because it could not be read.
#[derive(Debug, Clone, PartialEq, Eq)]
pub struct ScanEntryError {
    pub reason: String,
}

impl View for ScanEntryError {
    type V = Seq<char>;

    open spec fn view(&self) -> Seq<char> {
        self.reason@
    }
}

/// The entry is a regular file whose extension is `extension`.
pub open spec fn is_model_file(entry: ScanEntry, extension: Seq<char>) -> bool {
    match entry {
        ScanEntry::Found { path, is_file } => is_file && has_extension(path@, extension),
        ScanEntry::Unreadable { .. } => false,
    }
}

/// The path of a readable entry, as the walk wrote it.
pub open spec fn entry_path(entry: ScanEntry) -> Seq<char> {
    match entry {
        ScanEntry::Found { path, .. } => path@,
        ScanEntry::Unreadable { .. } => Seq::empty(),
    }
}

/// The identifier that the entry contributes to the catalog, if it
/// contributes one: a model file is listed under its path relative to the
/// root.
pub open spec fn entry_identifier(entry: ScanEntry, root: Seq<char>, extension: Seq<char>) -> Option<
    Seq<char>,
> {
    if is_model_file(entry, extension) {
        Some(relative_to(entry_path(entry), root))
    } else {
        None
    }
}

/// The reason the entry was skipped for, if it could not be read.
pub open spec fn entry_error(entry: ScanEntry) -> Option<Seq<char>> {
    match entry {
        ScanEntry::Found { .. } => None,
        ScanEntry::Unreadable { reason } => Some(reason@),
    }
}

/// The model files among `entries`, in walk order.
pub open spec fn model_files(entries: Seq<ScanEntry>, extension: Seq<char>) -> Seq<ScanEntry> {
    entries.filter(|e: ScanEntry| is_model_file(e, extension))
}

/// The identifiers of the model files among `entries`, in walk order.
pub open spec fn catalog_of(entries: Seq<ScanEntry>, root: Seq<char>, extension: Seq<char>) -> Seq<
    Seq<char>,
> {
    entries.filter_map(|e: ScanEntry| entry_identifier(e, root, extension))
}

/// The reasons of the unreadable entries among `entries`, in walk order.
pub open spec fn skipped_of(entries: Seq<ScanEntry>) -> Seq<Seq<char>> {
    entries.filter_map(|e: ScanEntry| entry_error(e))
}

proof fn lemma_filter_map_add<A, B>(a: Seq<A>, b: Seq<A>, f: spec_fn(A) -> Option<B>)
    ensures
        (a + b).filter_map(f) == a.filter_map(f) + b.filter_map(f),
    decreases b.len(),
{
    if b.len() == 0 {
        assert(a + b =~= a);
        assert(a.filter_map(f) + b.filter_map(f) =~= a.filter_map(f));
    } else {
        assert((a + b).drop_last() =~= a + b.drop_last());
        assert((a + b).last() == b.last());
        lemma_filter_map_add(a, b.drop_last(), f);
        match f(b.last()) {
            Some(x) => {
                assert((a + b).filter_map(f) =~= a.filter_map(f) + (b.drop_last().filter_map(f)
                    + seq![x]));
            },
            None => {},
        }
    }
}

/// The catalog is complete and exact: it lists the model files among the
/// entries, each once and in walk order, each under its path relative to the
/// root; so it is as long as there are model files, whatever else the walk
/// met. No identifier holds a `\`.
pub proof fn lemma_catalog_lists_each_model_file(
    entries: Seq<ScanEntry>,
    root: Seq<char>,
    extension: Seq<char>,
)
    ensures
        catalog_of(entries, root, extension) == model_files(entries, extension).map_values(
            |e: ScanEntry| relative_to(entry_path(e), root),
        ),
        catalog_of(entries, root, extension).len() == model_files(entries, extension).len(),
        forall|i: int|
            0 <= i < catalog_of(entries, root, extension).len() ==> is_normalized(
                #[trigger] catalog_of(entries, root, extension)[i],
            ),
    decreases entries.len(),
{
    reveal(Seq::filter);
    let listed = model_files(entries, extension).map_values(
        |e: ScanEntry| relative_to(entry_path(e), root),
    );
    if entries.len() > 0 {
        lemma_catalog_lists_each_model_file(entries.drop_last(), root, extension);
        assert(catalog_of(entries, root, extension) =~= listed);
    } else {
        assert(catalog_of(entries, root, extension) =~= listed);
    }
    assert forall|i: int| 0 <= i < listed.len() implies is_normalized(#[trigger] listed[i]) by {
        lemma_relative_is_normalized(entry_path(model_files(entries, extension)[i]), root);
    }
}

/// An unreadable entry costs no other entry its place: with it or without
/// it, wherever in the walk it stands, the catalog is the same.
pub proof fn lemma_unreadable_entry_changes_nothing(
    before: Seq<ScanEntry>,
    unreadable: ScanEntry,
    after: Seq<ScanEntry>,
    root: Seq<char>,
    extension: Seq<char>,
)
    requires
        unreadable is Unreadable,
    ensures
        catalog_of(before + seq![unreadable] + after, root, extension) == catalog_of(
            before + after,
            root,
            extension,
        ),
{
    let f = |e: ScanEntry| entry_identifier(e, root, extension);
    lemma_filter_map_add(before + seq![unreadable], after, f);
    lemma_filter_map_add(before, seq![unreadable], f);
    lemma_filter_map_add(before, after, f);
    Seq::lemma_filter_map_singleton(unreadable, f);
    assert(before.filter_map(f) + Seq::<Seq<char>>::empty() =~= before.filter_map(f));
}

/// What the scan makes of a single entry.
#[derive(Debug, Clone, PartialEq, Eq)]
pub enum EntryOutcome {
    /// A model file, with its descriptor.
    Model(ModelDescriptor),
    /// A directory, or a file that is no model: passed over in silence.
    Ignored,
    /// An unreadable entry: passed over, and reported.
    Skipped(ScanEntryError),
}

/// Judges one entry of the walk on its own. No entry makes the scan fail.
pub fn classify_entry(entry: &ScanEntry, root: &str, extension: &str) -> (outcome: EntryOutcome)
    ensures
        match outcome {
            EntryOutcome::Model(d) => entry_identifier(*entry, root@, extension@) == Some(d@),
            EntryOutcome::Ignored => entry_identifier(*entry, root@, extension@) is None
                && entry_error(*entry) is None,
            EntryOutcome::Skipped(e) => entry_error(*entry) == Some(e@),
        },
{
    match entry {
        ScanEntry::Found { path, is_file } => {
            if *is_file && path_has_extension(path.as_str(), extension) {
                EntryOutcome::Model(
                    ModelDescriptor { identifier: relative_identifier(path.as_str(), root) },
                )
            } else {
                EntryOutcome::Ignored
            }
        },
        ScanEntry::Unreadable { reason } => EntryOutcome::Skipped(
            ScanEntryError { reason: reason.clone() },
        ),
    }
}

/// The models found by one scan, in the order the walk met them.
#[derive(Debug, Clone, PartialEq, Eq)]
pub struct Catalog {
    descriptors: Vec<ModelDescriptor>,
}

impl View for Catalog {
    type V = Seq<Seq<char>>;

    closed spec fn view(&self) -> Seq<Seq<char>> {
        self.descriptors@.map_values(|d: ModelDescriptor| d@)
    }
}

/// A catalog together with the entries that could not be read.
#[derive(Debug, Clone, PartialEq, Eq)]
pub struct ScanReport {
    pub catalog: Catalog,
    pub skipped: Vec<ScanEntryError>,
}

impl Catalog {
    /// The catalog before any scan: no model.
    pub fn new() -> (c: Catalog)
        ensures
            c@ == Seq::<Seq<char>>::empty(),
    {
        let c = Catalog { descriptors: Vec::new() };
        assert(c@ =~= Seq::<Seq<char>>::empty());
        c
    }

    /// Builds the catalog from the entries of one walk. A regular file with
    /// the extension `extension` is listed under its path relative to
    /// `root`; every other readable entry is passed over; an unreadable entry
    /// is reported in `skipped` and costs no other entry its place.
    pub fn scan(entries: &Vec<ScanEntry>, root: &str, extension: &str) -> (report: ScanReport)
        ensures
            report.catalog@ == catalog_of(entries@, root@, extension@),
            report.catalog@.len() == model_files(entries@, extension@).len(),
            forall|i: int|
                0 <= i < report.catalog@.len() ==> is_normalized(#[trigger] report.catalog@[i]),
            report.skipped@.map_values(|e: ScanEntryError| e@) == skipped_of(entries@),
    {
        let mut descriptors: Vec<ModelDescriptor> = Vec::new();
        let mut skipped: Vec<ScanEntryError> = Vec::new();
        let mut i: usize = 0;
        while i < entries.len()
            invariant
                i <= entries.len(),
                descriptors@.map_values(|d: ModelDescriptor| d@) == catalog_of(
                    entries@.take(i as int),
                    root@,
                    extension@,
                ),
                skipped@.map_values(|e: ScanEntryError| e@) == skipped_of(entries@.take(i as int)),
            decreases entries.len() - i,
        {
            proof {
                entries@.lemma_filter_map_take_succ(
                    |e: ScanEntry| entry_identifier(e, root@, extension@),
                    i as int,
                );
                entries@.lemma_filter_map_take_succ(|e: ScanEntry| entry_error(e), i as int);
            }
            match classify_entry(&entries[i], root, extension) {
                EntryOutcome::Model(d) => {
                    descriptors.push(d);
                },
                EntryOutcome::Ignored => {},
                EntryOutcome::Skipped(e) => {
                    skipped.push(e);
                },
            }
            i += 1;
            assert(descriptors@.map_values(|d: ModelDescriptor| d@) =~= catalog_of(
                entries@.take(i as int),
                root@,
                extension@,
            ));
            assert(skipped@.map_values(|e: ScanEntryError| e@) =~= skipped_of(
                entries@.take(i as int),
            ));
        }
        assert(entries@.take(i as int) =~= entries@);
        proof {
            lemma_catalog_lists_each_model_file(entries@, root@, extension@);
        }
        ScanReport { catalog: Catalog { descriptors }, skipped }
    }

    /// How many models the catalog lists.
    pub fn len(&self) -> (n: usize)
        ensures
            n == self@.len(),
    {
        self.descriptors.len()
    }

    /// The descriptors, in walk order.
    pub fn descriptors(&self) -> (descriptors: &Vec<ModelDescriptor>)
        ensures
            descriptors@.len() == self@.len(),
            forall|i: int| 0 <= i < self@.len() ==> (#[trigger] descriptors@[i])@ == self@[i],
    {
        &self.descriptors
    }

    /// The descriptor at position `index` of the walk order, if there is one.
    pub fn get(&self, index: usize) -> (d: Option<&ModelDescriptor>)
        ensures
            index < self@.len() ==> d is Some && d->0@ == self@[index as int],
            index >= self@.len() ==> d is None,
    {
        if index < self.descriptors.len() {
            Some(&self.descriptors[index])
        } else {
            None
        }
    }
}

} // verus!
