//! Seeding the document with the sections it lacks, and reading a section
//! out of it under a chosen recovery policy.

use vstd::prelude::*;

use crate::document::{open_result, opened_fields, ConfigDocument, ReadOutcome};
use crate::names::SectionKey;
use crate::schema::{
    default_raw, default_raw_view, weights_raw, MainPanelLayout, ProjectConfig, ProjectConfigView,
    ShapeError, WindowConfig, WindowConfigView, WindowState,
};
use crate::value::{lemma_index_of, lemma_lookup_push, lookup, mapping, RawView};

verus! {

/// What to do where a section is missing or does not have its shape.
#[derive(Clone, Copy, Debug, PartialEq, Eq, Structural)]
pub enum RecoveryPolicy {
    /// Fail, and say why.
    Strict,
    /// Go on with the section's default, and hand the reason back to be reported.
    Lenient,
}

/// Why a section could not be read from the document.
#[derive(Clone, Copy, Debug, PartialEq, Eq, Structural)]
pub enum SectionError {
    /// The document has no value under the section's key.
    Missing(SectionKey),
    /// The value under the section's key does not have the section's shape.
    Invalid(SectionKey, ShapeError),
}

/// A section that was read, whole, together with what was passed over to
/// have it: the reason for which the default stands in its place, if it does.
#[derive(Debug, PartialEq, Eq)]
pub struct Loaded<T> {
    pub section: T,
    pub fallback: Option<SectionError>,
}

impl<T: View> View for Loaded<T> {
    type V = Loaded<T::V>;

    open spec fn view(&self) -> Loaded<T::V> {
        Loaded { section: self.section@, fallback: self.fallback }
    }
}

/// What reading a section comes to, from what was found under its key
/// (nothing, a value of the right shape, or the reason it has not that
/// shape), the policy and the section's default.
pub open spec fn settled<T>(
    key: SectionKey,
    found: Option<Result<T, ShapeError>>,
    policy: RecoveryPolicy,
    fallback: T,
) -> Result<Loaded<T>, SectionError> {
    let reason = match found {
        Some(Ok(_)) => None,
        Some(Err(cause)) => Some(SectionError::Invalid(key, cause)),
        None => Some(SectionError::Missing(key)),
    };
    match found {
        Some(Ok(section)) => Ok(Loaded { section, fallback: None }),
        _ => match policy {
            RecoveryPolicy::Strict => Err(reason->Some_0),
            RecoveryPolicy::Lenient => Ok(Loaded { section: fallback, fallback: reason }),
        },
    }
}

/// Decides what reading a section comes to: see `settled`.
pub fn settle<T>(
    key: SectionKey,
    found: Option<Result<T, ShapeError>>,
    policy: RecoveryPolicy,
    fallback: T,
) -> (r: Result<Loaded<T>, SectionError>)
    ensures
        r == settled(key, found, policy, fallback),
{
    let reason = match found {
        Some(Ok(section)) => {
            return Ok(Loaded { section, fallback: None });
        },
        Some(Err(cause)) => SectionError::Invalid(key, cause),
        None => SectionError::Missing(key),
    };
    match policy {
        RecoveryPolicy::Strict => Err(reason),
        RecoveryPolicy::Lenient => Ok(Loaded { section: fallback, fallback: Some(reason) }),
    }
}

/// What is found under the key of the project section.
pub open spec fn found_project(doc: Seq<(Seq<char>, RawView)>) -> Option<
    Result<ProjectConfigView, ShapeError>,
> {
    match lookup(doc, SectionKey::ProjectConfig.label()) {
        Some(raw) => Some(ProjectConfig::parse(raw)),
        None => None,
    }
}

/// What is found under the key of the window template.
pub open spec fn found_window_config(doc: Seq<(Seq<char>, RawView)>) -> Option<
    Result<WindowConfigView, ShapeError>,
> {
    match lookup(doc, SectionKey::WindowConfig.label()) {
        Some(raw) => Some(WindowConfig::parse(raw)),
        None => None,
    }
}

/// What is found under the key of the window state.
pub open spec fn found_window_state(doc: Seq<(Seq<char>, RawView)>) -> Option<
    Result<WindowState, ShapeError>,
> {
    match lookup(doc, SectionKey::WindowState.label()) {
        Some(raw) => Some(WindowState::parse(raw)),
        None => None,
    }
}

/// The document with the section's default under `key`, where it had
/// nothing under that key; else the document as it is.
pub open spec fn seed(doc: Seq<(Seq<char>, RawView)>, key: SectionKey) -> Seq<(Seq<char>, RawView)> {
    if lookup(doc, key.label()) is Some {
        doc
    } else {
        doc.push((key.label(), default_raw_view(key)))
    }
}

/// The document with every section that it lacked seeded, the project
/// section first, then the window template, then the window state.
pub open spec fn seed_all(doc: Seq<(Seq<char>, RawView)>) -> Seq<(Seq<char>, RawView)> {
    seed(
        seed(seed(doc, SectionKey::ProjectConfig), SectionKey::WindowConfig),
        SectionKey::WindowState,
    )
}

/// Which sections a run of seeding wrote into the document.
#[derive(Clone, Copy, Debug, PartialEq, Eq, Structural)]
pub struct SeedReport {
    pub project_config: bool,
    pub window_config: bool,
    pub window_state: bool,
}

impl SeedReport {
    /// Whether the document changed, so that it has to be saved: once, after
    /// all sections were visited.
    pub open spec fn changed(self) -> bool {
        self.project_config || self.window_config || self.window_state
    }

    /// Whether the document changed, so that it has to be saved: once, after
    /// all sections were visited.
    pub fn save_required(&self) -> (yes: bool)
        ensures
            yes == self.changed(),
    {
        self.project_config || self.window_config || self.window_state
    }
}

/// Seeds one section. Says whether it wrote.
fn seed_section(doc: &mut ConfigDocument, key: SectionKey) -> (wrote: bool)
    ensures
        final(doc)@ == seed(old(doc)@, key),
        final(doc).wf(),
        wrote == (lookup(old(doc)@, key.label()) is None),
{
    if doc.has(key.name()) {
        false
    } else {
        doc.set(key.name(), default_raw(key));
        true
    }
}

/// The entry point of the configuration store.
pub struct StoreManager;

impl StoreManager {
    /// Makes the document complete: each of the three sections that it lacks
    /// is set to its default; a section that is there is left as it is,
    /// whatever it holds. The report says which were written; the document
    /// has to be saved, once, exactly where it says that any was.
    pub fn initialize_store(doc: &mut ConfigDocument) -> (report: SeedReport)
        ensures
            final(doc)@ == seed_all(old(doc)@),
            final(doc).wf(),
            report.project_config == (lookup(old(doc)@, SectionKey::ProjectConfig.label()) is None),
            report.window_config == (lookup(old(doc)@, SectionKey::WindowConfig.label()) is None),
            report.window_state == (lookup(old(doc)@, SectionKey::WindowState.label()) is None),
            !report.changed() ==> final(doc)@ == old(doc)@,
            final(doc).mapping() == default_mapping().union_prefer_right(old(doc).mapping()),
    {
        proof {
            lemma_seed_all_mapping(doc@);
        }
        proof {
            lemma_seed_others(doc@, SectionKey::ProjectConfig, SectionKey::WindowConfig);
            lemma_seed_others(doc@, SectionKey::ProjectConfig, SectionKey::WindowState);
            lemma_seed_others(
                seed(doc@, SectionKey::ProjectConfig),
                SectionKey::WindowConfig,
                SectionKey::WindowState,
            );
        }
        let project_config = seed_section(doc, SectionKey::ProjectConfig);
        let window_config = seed_section(doc, SectionKey::WindowConfig);
        let window_state = seed_section(doc, SectionKey::WindowState);
        SeedReport { project_config, window_config, window_state }
    }

    /// Reads the project section.
    pub fn load_project_config(doc: &ConfigDocument, policy: RecoveryPolicy) -> (r: Result<
        Loaded<ProjectConfig>,
        SectionError,
    >)
        ensures
            match r {
                Ok(loaded) => settled(
                    SectionKey::ProjectConfig,
                    found_project(doc@),
                    policy,
                    ProjectConfig::default_view(),
                ) == Ok::<Loaded<ProjectConfigView>, SectionError>(loaded@),
                Err(e) => settled(
                    SectionKey::ProjectConfig,
                    found_project(doc@),
                    policy,
                    ProjectConfig::default_view(),
                ) == Err::<Loaded<ProjectConfigView>, SectionError>(e),
            },
    {
        let found = match doc.get(SectionKey::ProjectConfig.name()) {
            Some(raw) => Some(ProjectConfig::from_raw(raw)),
            None => None,
        };
        settle(SectionKey::ProjectConfig, found, policy, ProjectConfig::default())
    }

    /// Reads the window template.
    pub fn load_window_config(doc: &ConfigDocument, policy: RecoveryPolicy) -> (r: Result<
        Loaded<WindowConfig>,
        SectionError,
    >)
        ensures
            match r {
                Ok(loaded) => settled(
                    SectionKey::WindowConfig,
                    found_window_config(doc@),
                    policy,
                    WindowConfig::default_view(),
                ) == Ok::<Loaded<WindowConfigView>, SectionError>(loaded@),
                Err(e) => settled(
                    SectionKey::WindowConfig,
                    found_window_config(doc@),
                    policy,
                    WindowConfig::default_view(),
                ) == Err::<Loaded<WindowConfigView>, SectionError>(e),
            },
    {
        let found = match doc.get(SectionKey::WindowConfig.name()) {
            Some(raw) => Some(WindowConfig::from_raw(raw)),
            None => None,
        };
        settle(SectionKey::WindowConfig, found, policy, WindowConfig::default())
    }

    /// Reads the window state.
    pub fn load_window_state(doc: &ConfigDocument, policy: RecoveryPolicy) -> (r: Result<
        Loaded<WindowState>,
        SectionError,
    >)
        ensures
            r == settled(
                SectionKey::WindowState,
                found_window_state(doc@),
                policy,
                WindowState::default_view(),
            ),
    {
        let found = match doc.get(SectionKey::WindowState.name()) {
            Some(raw) => Some(WindowState::from_raw(raw)),
            None => None,
        };
        settle(SectionKey::WindowState, found, policy, WindowState::default())
    }
}

/// Seeding one section leaves what is found under the key of another as it was.
pub proof fn lemma_seed_others(doc: Seq<(Seq<char>, RawView)>, seeded: SectionKey, other: SectionKey)
    requires
        seeded != other,
    ensures
        lookup(seed(doc, seeded), other.label()) == lookup(doc, other.label()),
{
    SectionKey::lemma_labels_distinct();
    lemma_lookup_push(doc, seeded.label(), default_raw_view(seeded), other.label());
}

/// After seeding, each section is there: with what it held, where it was
/// there before, and with its default, where it was not.
pub proof fn lemma_seed_all_complete(doc: Seq<(Seq<char>, RawView)>, key: SectionKey)
    ensures
        lookup(seed_all(doc), key.label()) == (if lookup(doc, key.label()) is Some {
            lookup(doc, key.label())
        } else {
            Some(default_raw_view(key))
        }),
{
    let first = seed(doc, SectionKey::ProjectConfig);
    let second = seed(first, SectionKey::WindowConfig);
    lemma_seed_keeps(doc, SectionKey::ProjectConfig, key.label());
    lemma_seed_keeps(first, SectionKey::WindowConfig, key.label());
    lemma_seed_keeps(second, SectionKey::WindowState, key.label());
    SectionKey::lemma_labels_distinct();
}

/// Seeding one section leaves every entry in its place and adds at most one
/// after them; what was found under a name is found as before, and under
/// the seeded key something is found.
pub proof fn lemma_seed_keeps(doc: Seq<(Seq<char>, RawView)>, key: SectionKey, name: Seq<char>)
    ensures
        doc.len() <= seed(doc, key).len(),
        seed(doc, key).subrange(0, doc.len() as int) == doc,
        lookup(doc, name) is Some ==> lookup(seed(doc, key), name) == lookup(doc, name),
        lookup(seed(doc, key), name) == (if lookup(doc, name) is Some {
            lookup(doc, name)
        } else if name == key.label() {
            Some(default_raw_view(key))
        } else {
            None
        }),
{
    lemma_lookup_push(doc, key.label(), default_raw_view(key), name);
    assert(seed(doc, key).subrange(0, doc.len() as int) =~= doc);
}

/// Seeding leaves every entry that was there in its place and unchanged,
/// and what was found under a name is found as before.
pub proof fn lemma_seed_all_keeps(doc: Seq<(Seq<char>, RawView)>, name: Seq<char>)
    ensures
        doc.len() <= seed_all(doc).len(),
        seed_all(doc).subrange(0, doc.len() as int) == doc,
        lookup(doc, name) is Some ==> lookup(seed_all(doc), name) == lookup(doc, name),
{
    let first = seed(doc, SectionKey::ProjectConfig);
    let second = seed(first, SectionKey::WindowConfig);
    lemma_seed_keeps(doc, SectionKey::ProjectConfig, name);
    lemma_seed_keeps(first, SectionKey::WindowConfig, name);
    lemma_seed_keeps(second, SectionKey::WindowState, name);
    assert(seed_all(doc).subrange(0, doc.len() as int) =~= doc);
}

/// The three sections with their defaults, as a mapping from key to value.
pub open spec fn default_mapping() -> Map<Seq<char>, RawView> {
    Map::new(
        |name: Seq<char>| SectionKey::of_label(name) is Some,
        |name: Seq<char>| default_raw_view(SectionKey::of_label(name)->Some_0),
    )
}

/// Read as a mapping, the seeded document is the defaults overlaid with
/// what the document held: every key that was there keeps its value, and
/// every section that was not there has its default.
pub proof fn lemma_seed_all_mapping(doc: Seq<(Seq<char>, RawView)>)
    ensures
        mapping(seed_all(doc)) == default_mapping().union_prefer_right(mapping(doc)),
{
    let first = seed(doc, SectionKey::ProjectConfig);
    let second = seed(first, SectionKey::WindowConfig);
    SectionKey::lemma_labels_distinct();
    assert forall|name: Seq<char>|
        lookup(seed_all(doc), name) == (if lookup(doc, name) is Some {
            lookup(doc, name)
        } else if SectionKey::of_label(name) is Some {
            Some(default_raw_view(SectionKey::of_label(name)->Some_0))
        } else {
            None
        }) by {
        lemma_seed_keeps(doc, SectionKey::ProjectConfig, name);
        lemma_seed_keeps(first, SectionKey::WindowConfig, name);
        lemma_seed_keeps(second, SectionKey::WindowState, name);
    }
    assert(mapping(seed_all(doc)) =~= default_mapping().union_prefer_right(mapping(doc)));
}

/// Seeding a document a second time changes nothing: it gives what seeding
/// it once gave.
pub proof fn lemma_seed_all_idempotent(doc: Seq<(Seq<char>, RawView)>)
    ensures
        seed_all(seed_all(doc)) == seed_all(doc),
{
    lemma_seed_all_complete(doc, SectionKey::ProjectConfig);
    lemma_seed_all_complete(doc, SectionKey::WindowConfig);
    lemma_seed_all_complete(doc, SectionKey::WindowState);
}

/// Where the project section and the window template are there and the
/// window state is not, seeding adds the window state with its default, after
/// the entries that were there, and nothing else.
pub proof fn lemma_seed_all_adds_only_window_state(doc: Seq<(Seq<char>, RawView)>)
    requires
        lookup(doc, SectionKey::ProjectConfig.label()) is Some,
        lookup(doc, SectionKey::WindowConfig.label()) is Some,
        lookup(doc, SectionKey::WindowState.label()) is None,
    ensures
        seed_all(doc) == doc.push(
            (SectionKey::WindowState.label(), default_raw_view(SectionKey::WindowState)),
        ),
{
}

/// Seeding an empty document gives exactly the three sections with their
/// defaults, in order.
pub proof fn lemma_fresh_install()
    ensures
        seed_all(Seq::empty()) == seq![
            (
                "project_config"@,
                RawView::Record(
                    seq![
                        ("name"@, RawView::Text(""@)),
                        ("filepath"@, RawView::Text(""@)),
                        ("remarks"@, RawView::Text(""@)),
                    ],
                ),
            ),
            (
                "window_config"@,
                RawView::Record(
                    seq![
                        ("title"@, RawView::Text("BaseProject"@)),
                        ("min_width"@, RawView::Integer(800)),
                        ("min_height"@, RawView::Integer(600)),
                        ("max_width"@, RawView::Integer(1920)),
                        ("max_height"@, RawView::Integer(1080)),
                    ],
                ),
            ),
            (
                "window_state"@,
                RawView::Record(
                    seq![
                        ("width"@, RawView::Integer(1200)),
                        ("height"@, RawView::Integer(800)),
                        ("x"@, RawView::Integer(100)),
                        ("y"@, RawView::Integer(100)),
                        ("fullscreen"@, RawView::Bool(false)),
                        ("theme"@, RawView::Text("auto"@)),
                        (
                            "main_panel_layout"@,
                            RawView::Record(
                                seq![
                                    (
                                        "horizontal"@,
                                        RawView::List(
                                            seq![
                                                RawView::Integer(15),
                                                RawView::Integer(70),
                                                RawView::Integer(15),
                                            ],
                                        ),
                                    ),
                                    (
                                        "vertical"@,
                                        RawView::List(
                                            seq![RawView::Integer(85), RawView::Integer(15)],
                                        ),
                                    ),
                                ],
                            ),
                        ),
                    ],
                ),
            ),
        ],
{
    reveal_strlit("");
    let empty = Seq::<(Seq<char>, RawView)>::empty();
    lemma_seed_others(empty, SectionKey::ProjectConfig, SectionKey::WindowConfig);
    lemma_seed_others(empty, SectionKey::ProjectConfig, SectionKey::WindowState);
    lemma_seed_others(
        seed(empty, SectionKey::ProjectConfig),
        SectionKey::WindowConfig,
        SectionKey::WindowState,
    );
    let layout = MainPanelLayout::default_view();
    assert(""@ =~= Seq::<char>::empty());
    assert(weights_raw(layout.horizontal@)->List_0 =~= seq![
        RawView::Integer(15),
        RawView::Integer(70),
        RawView::Integer(15),
    ]);
    assert(weights_raw(layout.vertical@)->List_0 =~= seq![
        RawView::Integer(85),
        RawView::Integer(15),
    ]);
}

/// Under the lenient policy reading never fails. Under the strict policy it
/// succeeds exactly where a value of the right shape was found, and fails
/// with the section's key, and the cause where there is one.
pub proof fn lemma_policies<T>(
    key: SectionKey,
    found: Option<Result<T, ShapeError>>,
    fallback: T,
)
    ensures
        settled(key, found, RecoveryPolicy::Lenient, fallback) is Ok,
        settled(key, found, RecoveryPolicy::Strict, fallback) is Ok <==> found matches Some(Ok(_)),
        found is None ==> settled(key, found, RecoveryPolicy::Strict, fallback) == Err::<
            Loaded<T>,
            SectionError,
        >(SectionError::Missing(key)),
        found is None ==> settled(key, found, RecoveryPolicy::Lenient, fallback) == Ok::<
            Loaded<T>,
            SectionError,
        >(Loaded { section: fallback, fallback: Some(SectionError::Missing(key)) }),
        found matches Some(Err(cause)) ==> settled(key, found, RecoveryPolicy::Strict, fallback)
            == Err::<Loaded<T>, SectionError>(SectionError::Invalid(key, cause)),
        found matches Some(Err(cause)) ==> settled(key, found, RecoveryPolicy::Lenient, fallback)
            == Ok::<Loaded<T>, SectionError>(
            Loaded { section: fallback, fallback: Some(SectionError::Invalid(key, cause)) },
        ),
{
}

/// Of a document without a window state, the strict policy says that the
/// section is missing and the lenient policy gives the section's default.
pub proof fn lemma_missing_window_state(doc: Seq<(Seq<char>, RawView)>)
    requires
        lookup(doc, SectionKey::WindowState.label()) is None,
    ensures
        settled(
            SectionKey::WindowState,
            found_window_state(doc),
            RecoveryPolicy::Strict,
            WindowState::default_view(),
        ) == Err::<Loaded<WindowState>, SectionError>(
            SectionError::Missing(SectionKey::WindowState),
        ),
        settled(
            SectionKey::WindowState,
            found_window_state(doc),
            RecoveryPolicy::Lenient,
            WindowState::default_view(),
        ) == Ok::<Loaded<WindowState>, SectionError>(
            Loaded {
                section: WindowState::default_view(),
                fallback: Some(SectionError::Missing(SectionKey::WindowState)),
            },
        ),
{
}

/// In a document that was seeded from nothing, each section is read as its
/// default under either policy, and nothing is passed over.
pub proof fn lemma_seeded_defaults_load(policy: RecoveryPolicy)
    ensures
        settled(
            SectionKey::ProjectConfig,
            found_project(seed_all(Seq::empty())),
            policy,
            ProjectConfig::default_view(),
        ) == Ok::<Loaded<ProjectConfigView>, SectionError>(
            Loaded { section: ProjectConfig::default_view(), fallback: None },
        ),
        settled(
            SectionKey::WindowConfig,
            found_window_config(seed_all(Seq::empty())),
            policy,
            WindowConfig::default_view(),
        ) == Ok::<Loaded<WindowConfigView>, SectionError>(
            Loaded { section: WindowConfig::default_view(), fallback: None },
        ),
        settled(
            SectionKey::WindowState,
            found_window_state(seed_all(Seq::empty())),
            policy,
            WindowState::default_view(),
        ) == Ok::<Loaded<WindowState>, SectionError>(
            Loaded { section: WindowState::default_view(), fallback: None },
        ),
{
    let empty = Seq::<(Seq<char>, RawView)>::empty();
    lemma_index_of(empty, SectionKey::ProjectConfig.label());
    lemma_index_of(empty, SectionKey::WindowConfig.label());
    lemma_index_of(empty, SectionKey::WindowState.label());
    lemma_seed_all_complete(empty, SectionKey::ProjectConfig);
    lemma_seed_all_complete(empty, SectionKey::WindowConfig);
    lemma_seed_all_complete(empty, SectionKey::WindowState);
    ProjectConfig::lemma_round_trip(ProjectConfig::default_view());
    WindowConfig::lemma_round_trip(WindowConfig::default_view());
    WindowState::lemma_round_trip(WindowState::default_view());
}

/// A file that cannot be read or does not hold a document opens an empty
/// document; read leniently, with or without seeding, each section of it is
/// the section's default.
pub proof fn lemma_corrupt_document_recovers(outcome: ReadOutcome)
    requires
        open_result(outcome) is Err,
    ensures
        opened_fields(outcome) == Seq::<(Seq<char>, RawView)>::empty(),
        settled(
            SectionKey::ProjectConfig,
            found_project(opened_fields(outcome)),
            RecoveryPolicy::Lenient,
            ProjectConfig::default_view(),
        ) matches Ok(loaded) && loaded.section == ProjectConfig::default_view(),
        settled(
            SectionKey::WindowConfig,
            found_window_config(opened_fields(outcome)),
            RecoveryPolicy::Lenient,
            WindowConfig::default_view(),
        ) matches Ok(loaded) && loaded.section == WindowConfig::default_view(),
        settled(
            SectionKey::WindowState,
            found_window_state(opened_fields(outcome)),
            RecoveryPolicy::Lenient,
            WindowState::default_view(),
        ) matches Ok(loaded) && loaded.section == WindowState::default_view(),
        settled(
            SectionKey::ProjectConfig,
            found_project(seed_all(opened_fields(outcome))),
            RecoveryPolicy::Lenient,
            ProjectConfig::default_view(),
        ) matches Ok(loaded) && loaded.section == ProjectConfig::default_view(),
        settled(
            SectionKey::WindowConfig,
            found_window_config(seed_all(opened_fields(outcome))),
            RecoveryPolicy::Lenient,
            WindowConfig::default_view(),
        ) matches Ok(loaded) && loaded.section == WindowConfig::default_view(),
        settled(
            SectionKey::WindowState,
            found_window_state(seed_all(opened_fields(outcome))),
            RecoveryPolicy::Lenient,
            WindowState::default_view(),
        ) matches Ok(loaded) && loaded.section == WindowState::default_view(),
{
    let empty = Seq::<(Seq<char>, RawView)>::empty();
    lemma_index_of(empty, SectionKey::ProjectConfig.label());
    lemma_index_of(empty, SectionKey::WindowConfig.label());
    lemma_index_of(empty, SectionKey::WindowState.label());
    lemma_seeded_defaults_load(RecoveryPolicy::Lenient);
}

} // verus!
