use baseproject_config::names::{Field, SectionKey, ThemeSetting};
use baseproject_config::schema::{
    default_raw, MainPanelLayout, Project, ProjectConfig, ShapeError, WindowConfig, WindowState,
};
use baseproject_config::value::{Member, RawValue};

fn numbers(values: &[u64]) -> RawValue {
    RawValue::List(values.iter().map(|n| RawValue::Unsigned(*n)).collect())
}

fn layout_raw(horizontal: &[u64], vertical: &[u64]) -> RawValue {
    RawValue::Record(vec![
        Member::new("horizontal", numbers(horizontal)),
        Member::new("vertical", numbers(vertical)),
    ])
}

fn window_state_members() -> Vec<Member> {
    vec![
        Member::new("width", RawValue::Unsigned(1200)),
        Member::new("height", RawValue::Unsigned(800)),
        Member::new("x", RawValue::Signed(100)),
        Member::new("y", RawValue::Signed(100)),
        Member::new("fullscreen", RawValue::Bool(false)),
        Member::new("theme", RawValue::text("auto")),
        Member::new("main_panel_layout", layout_raw(&[15, 70, 15], &[85, 15])),
    ]
}

fn replaced(mut members: Vec<Member>, name: &str, value: RawValue) -> RawValue {
    for m in members.iter_mut() {
        if m.name == name {
            m.value = value.clone();
        }
    }
    RawValue::Record(members)
}

fn without(members: Vec<Member>, name: &str) -> RawValue {
    RawValue::Record(members.into_iter().filter(|m| m.name != name).collect())
}

#[test]
fn project_config_default_is_three_empty_texts() {
    let p = ProjectConfig::default();
    assert_eq!(p.name, "");
    assert_eq!(p.filepath, "");
    assert_eq!(p.remarks, "");
}

#[test]
fn project_is_the_project_section() {
    let p: Project = ProjectConfig::default();
    assert_eq!(p, ProjectConfig::default());
}

#[test]
fn window_config_default_values() {
    let c = WindowConfig::default();
    assert_eq!(c.title, "BaseProject");
    assert_eq!(c.min_width, 800);
    assert_eq!(c.min_height, 600);
    assert_eq!(c.max_width, 1920);
    assert_eq!(c.max_height, 1080);
}

#[test]
fn window_state_default_values() {
    let s = WindowState::default();
    assert_eq!(s.width, 1200);
    assert_eq!(s.height, 800);
    assert_eq!(s.x, 100);
    assert_eq!(s.y, 100);
    assert!(!s.fullscreen);
    assert_eq!(s.theme, ThemeSetting::Auto);
    assert_eq!(s.main_panel_layout.horizontal, [15, 70, 15]);
    assert_eq!(s.main_panel_layout.vertical, [85, 15]);
}

#[test]
fn main_panel_layout_default_values() {
    assert_eq!(
        MainPanelLayout::default(),
        MainPanelLayout { horizontal: [15, 70, 15], vertical: [85, 15] }
    );
}

#[test]
fn default_raw_of_project_config_is_the_canonical_record() {
    assert_eq!(
        default_raw(SectionKey::ProjectConfig),
        RawValue::Record(vec![
            Member::new("name", RawValue::text("")),
            Member::new("filepath", RawValue::text("")),
            Member::new("remarks", RawValue::text("")),
        ])
    );
}

#[test]
fn default_raw_of_window_config_is_the_canonical_record() {
    assert_eq!(
        default_raw(SectionKey::WindowConfig),
        RawValue::Record(vec![
            Member::new("title", RawValue::text("BaseProject")),
            Member::new("min_width", RawValue::Unsigned(800)),
            Member::new("min_height", RawValue::Unsigned(600)),
            Member::new("max_width", RawValue::Unsigned(1920)),
            Member::new("max_height", RawValue::Unsigned(1080)),
        ])
    );
}

#[test]
fn default_raw_of_window_state_is_the_canonical_record() {
    assert_eq!(default_raw(SectionKey::WindowState), RawValue::Record(window_state_members()));
}

#[test]
fn project_config_round_trip() {
    let p = ProjectConfig {
        name: "demo".to_string(),
        filepath: "/home/user/demo.bp".to_string(),
        remarks: "三番目".to_string(),
    };
    assert_eq!(ProjectConfig::from_raw(&p.to_raw()), Ok(p));
}

#[test]
fn window_config_round_trip() {
    let c = WindowConfig {
        title: "Other".to_string(),
        min_width: 0,
        min_height: 1,
        max_width: u32::MAX,
        max_height: 4320,
    };
    assert_eq!(WindowConfig::from_raw(&c.to_raw()), Ok(c));
}

#[test]
fn window_state_round_trip() {
    let s = WindowState {
        width: 1920,
        height: 1080,
        x: -200,
        y: i32::MIN,
        fullscreen: true,
        theme: ThemeSetting::Dark,
        main_panel_layout: MainPanelLayout { horizontal: [1, 2, 3], vertical: [0, u32::MAX] },
    };
    assert_eq!(WindowState::from_raw(&s.to_raw()), Ok(s));
}

#[test]
fn window_state_to_raw_is_exact() {
    let s = WindowState {
        width: 640,
        height: 480,
        x: -1,
        y: 7,
        fullscreen: true,
        theme: ThemeSetting::Light,
        main_panel_layout: MainPanelLayout { horizontal: [1, 2, 3], vertical: [4, 5] },
    };
    assert_eq!(
        s.to_raw(),
        RawValue::Record(vec![
            Member::new("width", RawValue::Unsigned(640)),
            Member::new("height", RawValue::Unsigned(480)),
            Member::new("x", RawValue::Signed(-1)),
            Member::new("y", RawValue::Signed(7)),
            Member::new("fullscreen", RawValue::Bool(true)),
            Member::new("theme", RawValue::text("light")),
            Member::new("main_panel_layout", layout_raw(&[1, 2, 3], &[4, 5])),
        ])
    );
}

#[test]
fn main_panel_layout_round_trip() {
    let l = MainPanelLayout { horizontal: [30, 40, 30], vertical: [50, 50] };
    assert_eq!(l.to_raw(), layout_raw(&[30, 40, 30], &[50, 50]));
    assert_eq!(MainPanelLayout::from_raw(&l.to_raw()), Ok(l));
}

#[test]
fn defaults_read_back_from_their_raw_values() {
    assert_eq!(
        ProjectConfig::from_raw(&default_raw(SectionKey::ProjectConfig)),
        Ok(ProjectConfig::default())
    );
    assert_eq!(
        WindowConfig::from_raw(&default_raw(SectionKey::WindowConfig)),
        Ok(WindowConfig::default())
    );
    assert_eq!(
        WindowState::from_raw(&default_raw(SectionKey::WindowState)),
        Ok(WindowState::default())
    );
}

#[test]
fn what_is_no_record_is_rejected() {
    assert_eq!(ProjectConfig::from_raw(&RawValue::Null), Err(ShapeError::NotARecord));
    assert_eq!(WindowConfig::from_raw(&RawValue::text("x")), Err(ShapeError::NotARecord));
    assert_eq!(WindowState::from_raw(&RawValue::List(Vec::new())), Err(ShapeError::NotARecord));
    assert_eq!(MainPanelLayout::from_raw(&RawValue::Unsigned(3)), Err(ShapeError::NotARecord));
}

#[test]
fn first_missing_field_is_named() {
    assert_eq!(
        ProjectConfig::from_raw(&RawValue::Record(Vec::new())),
        Err(ShapeError::MissingField(Field::Name))
    );
    let only_name = RawValue::Record(vec![Member::new("name", RawValue::text("n"))]);
    assert_eq!(
        ProjectConfig::from_raw(&only_name),
        Err(ShapeError::MissingField(Field::Filepath))
    );
    let no_remarks = RawValue::Record(vec![
        Member::new("name", RawValue::text("n")),
        Member::new("filepath", RawValue::text("f")),
    ]);
    assert_eq!(
        ProjectConfig::from_raw(&no_remarks),
        Err(ShapeError::MissingField(Field::Remarks))
    );
}

#[test]
fn wrong_kind_of_value_is_named() {
    let raw = RawValue::Record(vec![
        Member::new("name", RawValue::text("n")),
        Member::new("filepath", RawValue::Unsigned(1)),
        Member::new("remarks", RawValue::text("r")),
    ]);
    assert_eq!(ProjectConfig::from_raw(&raw), Err(ShapeError::InvalidField(Field::Filepath)));
}

#[test]
fn a_wrong_field_before_a_missing_one_comes_first() {
    let raw = RawValue::Record(vec![Member::new("name", RawValue::Null)]);
    assert_eq!(ProjectConfig::from_raw(&raw), Err(ShapeError::InvalidField(Field::Name)));
}

#[test]
fn window_config_number_out_of_range_is_invalid() {
    let members = |min_width: RawValue| {
        RawValue::Record(vec![
            Member::new("title", RawValue::text("t")),
            Member::new("min_width", min_width),
            Member::new("min_height", RawValue::Unsigned(600)),
            Member::new("max_width", RawValue::Unsigned(1920)),
            Member::new("max_height", RawValue::Unsigned(1080)),
        ])
    };
    assert_eq!(
        WindowConfig::from_raw(&members(RawValue::Unsigned(4294967296))),
        Err(ShapeError::InvalidField(Field::MinWidth))
    );
    assert_eq!(
        WindowConfig::from_raw(&members(RawValue::Signed(-800))),
        Err(ShapeError::InvalidField(Field::MinWidth))
    );
    assert_eq!(
        WindowConfig::from_raw(&members(RawValue::Float(800.0f64.to_bits()))),
        Err(ShapeError::InvalidField(Field::MinWidth))
    );
    assert_eq!(
        WindowConfig::from_raw(&members(RawValue::Signed(800))).map(|c| c.min_width),
        Ok(800)
    );
}

#[test]
fn window_config_missing_fields_in_order() {
    let raw = RawValue::Record(vec![
        Member::new("title", RawValue::text("t")),
        Member::new("min_width", RawValue::Unsigned(1)),
        Member::new("max_height", RawValue::Unsigned(1)),
    ]);
    assert_eq!(WindowConfig::from_raw(&raw), Err(ShapeError::MissingField(Field::MinHeight)));
}

#[test]
fn entries_that_a_section_does_not_know_are_passed_over() {
    let raw = RawValue::Record(vec![
        Member::new("extra", RawValue::Null),
        Member::new("remarks", RawValue::text("r")),
        Member::new("name", RawValue::text("n")),
        Member::new("filepath", RawValue::text("f")),
    ]);
    assert_eq!(
        ProjectConfig::from_raw(&raw),
        Ok(ProjectConfig {
            name: "n".to_string(),
            filepath: "f".to_string(),
            remarks: "r".to_string()
        })
    );
}

#[test]
fn window_state_fractional_width_is_invalid() {
    let raw = replaced(window_state_members(), "width", RawValue::Float(1920.5f64.to_bits()));
    assert_eq!(WindowState::from_raw(&raw), Err(ShapeError::InvalidField(Field::Width)));
}

#[test]
fn window_state_position_out_of_range_is_invalid() {
    let raw = replaced(window_state_members(), "x", RawValue::Unsigned(2147483648));
    assert_eq!(WindowState::from_raw(&raw), Err(ShapeError::InvalidField(Field::X)));
    let raw = replaced(window_state_members(), "y", RawValue::Signed(-2147483649));
    assert_eq!(WindowState::from_raw(&raw), Err(ShapeError::InvalidField(Field::Y)));
}

#[test]
fn window_state_fullscreen_must_be_a_truth_value() {
    let raw = replaced(window_state_members(), "fullscreen", RawValue::Unsigned(0));
    assert_eq!(WindowState::from_raw(&raw), Err(ShapeError::InvalidField(Field::Fullscreen)));
}

#[test]
fn window_state_theme_spellings() {
    let raw = replaced(window_state_members(), "theme", RawValue::text("Dark"));
    assert_eq!(WindowState::from_raw(&raw).map(|s| s.theme), Ok(ThemeSetting::Dark));
    let raw = replaced(window_state_members(), "theme", RawValue::text("light"));
    assert_eq!(WindowState::from_raw(&raw).map(|s| s.theme), Ok(ThemeSetting::Light));
    let raw = replaced(window_state_members(), "theme", RawValue::text("solarized"));
    assert_eq!(WindowState::from_raw(&raw), Err(ShapeError::InvalidField(Field::Theme)));
    let raw = replaced(window_state_members(), "theme", RawValue::Bool(true));
    assert_eq!(WindowState::from_raw(&raw), Err(ShapeError::InvalidField(Field::Theme)));
    let raw = without(window_state_members(), "theme");
    assert_eq!(WindowState::from_raw(&raw), Err(ShapeError::MissingField(Field::Theme)));
}

#[test]
fn window_state_layout_errors() {
    let raw = without(window_state_members(), "main_panel_layout");
    assert_eq!(
        WindowState::from_raw(&raw),
        Err(ShapeError::MissingField(Field::MainPanelLayout))
    );
    let raw = replaced(window_state_members(), "main_panel_layout", RawValue::Null);
    assert_eq!(
        WindowState::from_raw(&raw),
        Err(ShapeError::InvalidField(Field::MainPanelLayout))
    );
    let raw = replaced(
        window_state_members(),
        "main_panel_layout",
        layout_raw(&[15, 70], &[85, 15]),
    );
    assert_eq!(WindowState::from_raw(&raw), Err(ShapeError::InvalidField(Field::Horizontal)));
    let raw = replaced(
        window_state_members(),
        "main_panel_layout",
        layout_raw(&[15, 70, 15], &[85, 15, 0]),
    );
    assert_eq!(WindowState::from_raw(&raw), Err(ShapeError::InvalidField(Field::Vertical)));
    let raw = replaced(
        window_state_members(),
        "main_panel_layout",
        RawValue::Record(vec![Member::new("horizontal", numbers(&[1, 2, 3]))]),
    );
    assert_eq!(WindowState::from_raw(&raw), Err(ShapeError::MissingField(Field::Vertical)));
}

#[test]
fn layout_weights_must_be_numbers_in_range() {
    let raw = RawValue::Record(vec![
        Member::new(
            "horizontal",
            RawValue::List(vec![
                RawValue::Unsigned(1),
                RawValue::text("2"),
                RawValue::Unsigned(3),
            ]),
        ),
        Member::new("vertical", numbers(&[1, 2])),
    ]);
    assert_eq!(MainPanelLayout::from_raw(&raw), Err(ShapeError::InvalidField(Field::Horizontal)));
    let raw = layout_raw(&[1, 2, 3], &[1, 4294967296]);
    assert_eq!(MainPanelLayout::from_raw(&raw), Err(ShapeError::InvalidField(Field::Vertical)));
    let raw = RawValue::Record(vec![
        Member::new("horizontal", RawValue::Unsigned(3)),
        Member::new("vertical", numbers(&[1, 2])),
    ]);
    assert_eq!(MainPanelLayout::from_raw(&raw), Err(ShapeError::InvalidField(Field::Horizontal)));
}

#[test]
fn clones_are_equal() {
    let p = ProjectConfig {
        name: "a".to_string(),
        filepath: "b".to_string(),
        remarks: "c".to_string(),
    };
    assert_eq!(p.clone(), p);
    let c = WindowConfig::default();
    assert_eq!(c.clone(), c);
}
