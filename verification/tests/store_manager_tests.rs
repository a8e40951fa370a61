use baseproject_config::document::{ConfigDocument, ReadOutcome};
use baseproject_config::names::{Field, SectionKey, ThemeSetting};
use baseproject_config::schema::{
    MainPanelLayout, ProjectConfig, ShapeError, WindowConfig, WindowState,
};
use baseproject_config::store_manager::{
    settle, Loaded, RecoveryPolicy, SectionError, SeedReport, StoreManager,
};
use baseproject_config::value::{Member, RawValue};

fn numbers(values: &[u64]) -> RawValue {
    RawValue::List(values.iter().map(|n| RawValue::Unsigned(*n)).collect())
}

fn canonical_document() -> RawValue {
    RawValue::Record(vec![
        Member::new(
            "project_config",
            RawValue::Record(vec![
                Member::new("name", RawValue::text("")),
                Member::new("filepath", RawValue::text("")),
                Member::new("remarks", RawValue::text("")),
            ]),
        ),
        Member::new(
            "window_config",
            RawValue::Record(vec![
                Member::new("title", RawValue::text("BaseProject")),
                Member::new("min_width", RawValue::Unsigned(800)),
                Member::new("min_height", RawValue::Unsigned(600)),
                Member::new("max_width", RawValue::Unsigned(1920)),
                Member::new("max_height", RawValue::Unsigned(1080)),
            ]),
        ),
        Member::new(
            "window_state",
            RawValue::Record(vec![
                Member::new("width", RawValue::Unsigned(1200)),
                Member::new("height", RawValue::Unsigned(800)),
                Member::new("x", RawValue::Signed(100)),
                Member::new("y", RawValue::Signed(100)),
                Member::new("fullscreen", RawValue::Bool(false)),
                Member::new("theme", RawValue::text("auto")),
                Member::new(
                    "main_panel_layout",
                    RawValue::Record(vec![
                        Member::new("horizontal", numbers(&[15, 70, 15])),
                        Member::new("vertical", numbers(&[85, 15])),
                    ]),
                ),
            ]),
        ),
    ])
}

fn custom_project() -> ProjectConfig {
    ProjectConfig {
        name: "demo".to_string(),
        filepath: "/tmp/demo".to_string(),
        remarks: "note".to_string(),
    }
}

fn custom_window_config() -> WindowConfig {
    WindowConfig {
        title: "Mine".to_string(),
        min_width: 1024,
        min_height: 768,
        max_width: 7680,
        max_height: 4320,
    }
}

#[test]
fn fresh_install_gives_the_canonical_document() {
    let mut doc = ConfigDocument::open(ReadOutcome::Absent).unwrap();
    let report = StoreManager::initialize_store(&mut doc);
    assert_eq!(
        report,
        SeedReport { project_config: true, window_config: true, window_state: true }
    );
    assert!(report.save_required());
    assert_eq!(doc.to_root(), canonical_document());
}

#[test]
fn seeding_twice_is_seeding_once() {
    let mut doc = ConfigDocument::new();
    StoreManager::initialize_store(&mut doc);
    let once = doc.to_root();
    let report = StoreManager::initialize_store(&mut doc);
    assert_eq!(
        report,
        SeedReport { project_config: false, window_config: false, window_state: false }
    );
    assert!(!report.save_required());
    assert_eq!(doc.to_root(), once);
}

#[test]
fn seeding_twice_is_seeding_once_on_a_partial_document() {
    let mut doc = ConfigDocument::new();
    doc.set("window_config", custom_window_config().to_raw());
    doc.set("unrelated", RawValue::Null);
    StoreManager::initialize_store(&mut doc);
    let once = doc.to_root();
    let report = StoreManager::initialize_store(&mut doc);
    assert!(!report.save_required());
    assert_eq!(doc.to_root(), once);
}

#[test]
fn seeding_adds_only_what_is_missing() {
    let mut doc = ConfigDocument::new();
    doc.set("project_config", custom_project().to_raw());
    doc.set("window_config", custom_window_config().to_raw());
    let report = StoreManager::initialize_store(&mut doc);
    assert_eq!(
        report,
        SeedReport { project_config: false, window_config: false, window_state: true }
    );
    assert!(report.save_required());
    assert_eq!(
        doc.to_root(),
        RawValue::Record(vec![
            Member::new("project_config", custom_project().to_raw()),
            Member::new("window_config", custom_window_config().to_raw()),
            Member::new("window_state", WindowState::default().to_raw()),
        ])
    );
}

#[test]
fn seeding_leaves_a_present_key_alone_whatever_it_holds() {
    let mut doc = ConfigDocument::new();
    doc.set("window_state", RawValue::text("garbage"));
    let report = StoreManager::initialize_store(&mut doc);
    assert_eq!(
        report,
        SeedReport { project_config: true, window_config: true, window_state: false }
    );
    assert_eq!(doc.get("window_state"), Some(&RawValue::text("garbage")));
    assert_eq!(doc.len(), 3);
}

#[test]
fn seeding_keeps_keys_it_does_not_know() {
    let mut doc = ConfigDocument::new();
    doc.set("plugin", RawValue::Unsigned(9));
    StoreManager::initialize_store(&mut doc);
    assert_eq!(doc.get("plugin"), Some(&RawValue::Unsigned(9)));
    assert_eq!(doc.len(), 4);
    assert_eq!(doc.entries()[0], Member::new("plugin", RawValue::Unsigned(9)));
}

#[test]
fn missing_window_state_strict_fails_lenient_gives_default() {
    let mut doc = ConfigDocument::new();
    doc.set("project_config", custom_project().to_raw());
    doc.set("window_config", custom_window_config().to_raw());
    assert_eq!(
        StoreManager::load_window_state(&doc, RecoveryPolicy::Strict),
        Err(SectionError::Missing(SectionKey::WindowState))
    );
    assert_eq!(
        StoreManager::load_window_state(&doc, RecoveryPolicy::Lenient),
        Ok(Loaded {
            section: WindowState::default(),
            fallback: Some(SectionError::Missing(SectionKey::WindowState)),
        })
    );
}

#[test]
fn missing_project_and_window_config_under_both_policies() {
    let doc = ConfigDocument::new();
    assert_eq!(
        StoreManager::load_project_config(&doc, RecoveryPolicy::Strict),
        Err(SectionError::Missing(SectionKey::ProjectConfig))
    );
    assert_eq!(
        StoreManager::load_window_config(&doc, RecoveryPolicy::Strict),
        Err(SectionError::Missing(SectionKey::WindowConfig))
    );
    assert_eq!(
        StoreManager::load_project_config(&doc, RecoveryPolicy::Lenient),
        Ok(Loaded {
            section: ProjectConfig::default(),
            fallback: Some(SectionError::Missing(SectionKey::ProjectConfig)),
        })
    );
    assert_eq!(
        StoreManager::load_window_config(&doc, RecoveryPolicy::Lenient),
        Ok(Loaded {
            section: WindowConfig::default(),
            fallback: Some(SectionError::Missing(SectionKey::WindowConfig)),
        })
    );
}

#[test]
fn stored_sections_are_read_whole() {
    let state = WindowState {
        width: 1600,
        height: 900,
        x: -20,
        y: 40,
        fullscreen: true,
        theme: ThemeSetting::Light,
        main_panel_layout: MainPanelLayout { horizontal: [20, 60, 20], vertical: [70, 30] },
    };
    let mut doc = ConfigDocument::new();
    doc.set("project_config", custom_project().to_raw());
    doc.set("window_config", custom_window_config().to_raw());
    doc.set("window_state", state.to_raw());
    for policy in [RecoveryPolicy::Strict, RecoveryPolicy::Lenient] {
        assert_eq!(
            StoreManager::load_project_config(&doc, policy),
            Ok(Loaded { section: custom_project(), fallback: None })
        );
        assert_eq!(
            StoreManager::load_window_config(&doc, policy),
            Ok(Loaded { section: custom_window_config(), fallback: None })
        );
        assert_eq!(
            StoreManager::load_window_state(&doc, policy),
            Ok(Loaded { section: state, fallback: None })
        );
    }
}

#[test]
fn a_section_out_of_shape_strict_fails_with_the_cause() {
    let mut doc = ConfigDocument::new();
    doc.set(
        "window_config",
        RawValue::Record(vec![Member::new("title", RawValue::text("t"))]),
    );
    doc.set("project_config", RawValue::Unsigned(3));
    doc.set("window_state", RawValue::Record(vec![Member::new("width", RawValue::text("wide"))]));
    assert_eq!(
        StoreManager::load_window_config(&doc, RecoveryPolicy::Strict),
        Err(SectionError::Invalid(
            SectionKey::WindowConfig,
            ShapeError::MissingField(Field::MinWidth)
        ))
    );
    assert_eq!(
        StoreManager::load_project_config(&doc, RecoveryPolicy::Strict),
        Err(SectionError::Invalid(SectionKey::ProjectConfig, ShapeError::NotARecord))
    );
    assert_eq!(
        StoreManager::load_window_state(&doc, RecoveryPolicy::Strict),
        Err(SectionError::Invalid(
            SectionKey::WindowState,
            ShapeError::InvalidField(Field::Width)
        ))
    );
}

#[test]
fn a_section_out_of_shape_lenient_gives_the_default_and_the_cause() {
    let mut doc = ConfigDocument::new();
    doc.set(
        "window_config",
        RawValue::Record(vec![Member::new("title", RawValue::text("t"))]),
    );
    assert_eq!(
        StoreManager::load_window_config(&doc, RecoveryPolicy::Lenient),
        Ok(Loaded {
            section: WindowConfig::default(),
            fallback: Some(SectionError::Invalid(
                SectionKey::WindowConfig,
                ShapeError::MissingField(Field::MinWidth)
            )),
        })
    );
}

#[test]
fn a_partly_valid_section_is_never_partly_read() {
    let mut doc = ConfigDocument::new();
    let mut state = match WindowState::default().to_raw() {
        RawValue::Record(members) => members,
        _ => Vec::new(),
    };
    state[0] = Member::new("width", RawValue::Unsigned(3000));
    state[4] = Member::new("fullscreen", RawValue::text("yes"));
    doc.set("window_state", RawValue::Record(state));
    let loaded = StoreManager::load_window_state(&doc, RecoveryPolicy::Lenient).unwrap();
    assert_eq!(loaded.section, WindowState::default());
    assert_eq!(loaded.section.width, 1200);
}

#[test]
fn settle_covers_every_case() {
    let key = SectionKey::WindowConfig;
    let cause = ShapeError::InvalidField(Field::Title);
    assert_eq!(
        settle(key, Some(Ok(5u32)), RecoveryPolicy::Strict, 9u32),
        Ok(Loaded { section: 5, fallback: None })
    );
    assert_eq!(
        settle(key, Some(Ok(5u32)), RecoveryPolicy::Lenient, 9u32),
        Ok(Loaded { section: 5, fallback: None })
    );
    assert_eq!(
        settle(key, Some(Err(cause)), RecoveryPolicy::Strict, 9u32),
        Err(SectionError::Invalid(key, cause))
    );
    assert_eq!(
        settle(key, Some(Err(cause)), RecoveryPolicy::Lenient, 9u32),
        Ok(Loaded { section: 9, fallback: Some(SectionError::Invalid(key, cause)) })
    );
    assert_eq!(
        settle(key, None, RecoveryPolicy::Strict, 9u32),
        Err(SectionError::Missing(key))
    );
    assert_eq!(
        settle(key, None, RecoveryPolicy::Lenient, 9u32),
        Ok(Loaded { section: 9, fallback: Some(SectionError::Missing(key)) })
    );
}

#[test]
fn an_unparseable_file_recovers_to_the_defaults() {
    let opened = ConfigDocument::open_or_fresh(ReadOutcome::Unparseable);
    let mut doc = opened.document;
    assert_eq!(
        StoreManager::load_project_config(&doc, RecoveryPolicy::Lenient).map(|l| l.section),
        Ok(ProjectConfig::default())
    );
    assert_eq!(
        StoreManager::load_window_config(&doc, RecoveryPolicy::Lenient).map(|l| l.section),
        Ok(WindowConfig::default())
    );
    assert_eq!(
        StoreManager::load_window_state(&doc, RecoveryPolicy::Lenient).map(|l| l.section),
        Ok(WindowState::default())
    );
    let report = StoreManager::initialize_store(&mut doc);
    assert!(report.save_required());
    assert_eq!(doc.to_root(), canonical_document());
    assert_eq!(
        StoreManager::load_window_state(&doc, RecoveryPolicy::Strict),
        Ok(Loaded { section: WindowState::default(), fallback: None })
    );
}
