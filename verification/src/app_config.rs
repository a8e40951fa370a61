//! The whole configuration at once: the three sections as the application
//! reads them at start-up, a default standing in for each that is missing or
//! out of shape.

use vstd::prelude::*;

use crate::document::ConfigDocument;
use crate::names::SectionKey;
use crate::schema::{
    Project, ProjectConfig, ProjectConfigView, WindowConfig, WindowConfigView, WindowState,
};
use crate::store_manager::{
    found_project, found_window_config, found_window_state, settled, Loaded, RecoveryPolicy,
    SectionError, StoreManager,
};
use crate::value::RawView;

verus! {

/// The three sections of the configuration.
#[derive(Debug, PartialEq, Eq)]
pub struct AppConfig {
    pub projects: Project,
    pub window_state: WindowState,
    pub window_config: WindowConfig,
}

/// An `AppConfig` with its texts as sequences of characters.
pub struct AppConfigView {
    pub projects: ProjectConfigView,
    pub window_state: WindowState,
    pub window_config: WindowConfigView,
}

impl View for AppConfig {
    type V = AppConfigView;

    open spec fn view(&self) -> AppConfigView {
        AppConfigView {
            projects: self.projects@,
            window_state: self.window_state,
            window_config: self.window_config@,
        }
    }
}

impl AppConfig {
    /// The configuration of a fresh document.
    pub open spec fn default_view() -> AppConfigView {
        AppConfigView {
            projects: ProjectConfig::default_view(),
            window_state: WindowState::default_view(),
            window_config: WindowConfig::default_view(),
        }
    }
}

impl Default for AppConfig {
    fn default() -> (config: AppConfig)
        ensures
            config@ == AppConfig::default_view(),
    {
        AppConfig {
            projects: ProjectConfig::default(),
            window_state: WindowState::default(),
            window_config: WindowConfig::default(),
        }
    }
}

impl Clone for AppConfig {
    fn clone(&self) -> (copy: AppConfig)
        ensures
            copy@ == self@,
    {
        AppConfig {
            projects: self.projects.clone(),
            window_state: self.window_state,
            window_config: self.window_config.clone(),
        }
    }
}

/// What a lenient reading has: the section that was read, or the default
/// with the reason.
pub open spec fn lenient<T>(r: Result<Loaded<T>, SectionError>, fallback: T) -> Loaded<T> {
    match r {
        Ok(loaded) => loaded,
        Err(e) => Loaded { section: fallback, fallback: Some(e) },
    }
}

/// The project section of a document, read leniently.
pub open spec fn lenient_project(doc: Seq<(Seq<char>, RawView)>) -> Loaded<ProjectConfigView> {
    lenient(
        settled(
            SectionKey::ProjectConfig,
            found_project(doc),
            RecoveryPolicy::Lenient,
            ProjectConfig::default_view(),
        ),
        ProjectConfig::default_view(),
    )
}

/// The window template of a document, read leniently.
pub open spec fn lenient_window_config(doc: Seq<(Seq<char>, RawView)>) -> Loaded<WindowConfigView> {
    lenient(
        settled(
            SectionKey::WindowConfig,
            found_window_config(doc),
            RecoveryPolicy::Lenient,
            WindowConfig::default_view(),
        ),
        WindowConfig::default_view(),
    )
}

/// The window state of a document, read leniently.
pub open spec fn lenient_window_state(doc: Seq<(Seq<char>, RawView)>) -> Loaded<WindowState> {
    lenient(
        settled(
            SectionKey::WindowState,
            found_window_state(doc),
            RecoveryPolicy::Lenient,
            WindowState::default_view(),
        ),
        WindowState::default_view(),
    )
}

/// The reason, where there is one, as a sequence of at most one.
pub open spec fn reasons(fallback: Option<SectionError>) -> Seq<SectionError> {
    match fallback {
        Some(e) => seq![e],
        None => Seq::empty(),
    }
}

/// The configuration that a document gives, each section read leniently.
pub open spec fn app_config_of(doc: Seq<(Seq<char>, RawView)>) -> AppConfigView {
    AppConfigView {
        projects: lenient_project(doc).section,
        window_state: lenient_window_state(doc).section,
        window_config: lenient_window_config(doc).section,
    }
}

/// The reasons for which defaults stand in a configuration, in the order
/// project section, window template, window state.
pub open spec fn fallbacks_of(doc: Seq<(Seq<char>, RawView)>) -> Seq<SectionError> {
    reasons(lenient_project(doc).fallback) + reasons(lenient_window_config(doc).fallback) + reasons(
        lenient_window_state(doc).fallback,
    )
}

/// Reads the three sections out of the document. This never fails: a
/// section that is missing or out of shape is given as its default, and the
/// reason is handed back, for the caller to report.
pub fn get_app_config(doc: &ConfigDocument) -> (r: (AppConfig, Vec<SectionError>))
    ensures
        r.0@ == app_config_of(doc@),
        r.1@ == fallbacks_of(doc@),
{
    let mut fallbacks: Vec<SectionError> = Vec::new();
    let projects = match StoreManager::load_project_config(doc, RecoveryPolicy::Lenient) {
        Ok(loaded) => loaded,
        Err(e) => Loaded { section: ProjectConfig::default(), fallback: Some(e) },
    };
    if let Some(e) = projects.fallback {
        fallbacks.push(e);
    }
    let window_config = match StoreManager::load_window_config(doc, RecoveryPolicy::Lenient) {
        Ok(loaded) => loaded,
        Err(e) => Loaded { section: WindowConfig::default(), fallback: Some(e) },
    };
    if let Some(e) = window_config.fallback {
        fallbacks.push(e);
    }
    let window_state = match StoreManager::load_window_state(doc, RecoveryPolicy::Lenient) {
        Ok(loaded) => loaded,
        Err(e) => Loaded { section: WindowState::default(), fallback: Some(e) },
    };
    if let Some(e) = window_state.fallback {
        fallbacks.push(e);
    }
    assert(fallbacks@ =~= fallbacks_of(doc@));
    (
        AppConfig {
            projects: projects.section,
            window_state: window_state.section,
            window_config: window_config.section,
        },
        fallbacks,
    )
}

/// The configuration of a document that was seeded from nothing is the
/// default configuration, and no default stands in for anything.
pub proof fn lemma_fresh_configuration()
    ensures
        app_config_of(crate::store_manager::seed_all(Seq::empty())) == AppConfig::default_view(),
        fallbacks_of(crate::store_manager::seed_all(Seq::empty())) == Seq::<SectionError>::empty(),
{
    crate::store_manager::lemma_seeded_defaults_load(RecoveryPolicy::Lenient);
}

} // verus!
