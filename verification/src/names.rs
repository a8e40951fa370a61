//! The fixed vocabulary of the configuration document: the keys of its
//! sections, the names of their fields and the spellings of a theme.

use vstd::prelude::*;

use crate::value::text_eq;

verus! {

/// What tells the names of this vocabulary apart: the length and the first
/// two characters.
pub open spec fn mark(s: Seq<char>) -> (nat, char, char) {
    (
        s.len(),
        if s.len() > 0 {
            s[0]
        } else {
            ' '
        },
        if s.len() > 1 {
            s[1]
        } else {
            ' '
        },
    )
}

/// The key of a section of the document.
#[derive(Clone, Copy, Debug, PartialEq, Eq, Structural)]
pub enum SectionKey {
    ProjectConfig,
    WindowConfig,
    WindowState,
}

impl SectionKey {
    /// The name under which the section is stored.
    pub open spec fn label(self) -> Seq<char> {
        match self {
            SectionKey::ProjectConfig => "project_config"@,
            SectionKey::WindowConfig => "window_config"@,
            SectionKey::WindowState => "window_state"@,
        }
    }

    /// The section that is stored under `name`, if it is one of the three.
    pub open spec fn of_label(name: Seq<char>) -> Option<SectionKey> {
        if name == SectionKey::ProjectConfig.label() {
            Some(SectionKey::ProjectConfig)
        } else if name == SectionKey::WindowConfig.label() {
            Some(SectionKey::WindowConfig)
        } else if name == SectionKey::WindowState.label() {
            Some(SectionKey::WindowState)
        } else {
            None
        }
    }

    /// The name under which the section is stored.
    pub fn name(self) -> (s: &'static str)
        ensures
            s@ == self.label(),
    {
        match self {
            SectionKey::ProjectConfig => "project_config",
            SectionKey::WindowConfig => "window_config",
            SectionKey::WindowState => "window_state",
        }
    }

    /// The section that is stored under `name`, if it is one of the three.
    pub fn from_name(name: &str) -> (key: Option<SectionKey>)
        ensures
            key == SectionKey::of_label(name@),
    {
        if text_eq(name, "project_config") {
            Some(SectionKey::ProjectConfig)
        } else if text_eq(name, "window_config") {
            Some(SectionKey::WindowConfig)
        } else if text_eq(name, "window_state") {
            Some(SectionKey::WindowState)
        } else {
            None
        }
    }

    /// The three keys in the order in which the document is seeded.
    pub fn all() -> (keys: [SectionKey; 3])
        ensures
            keys == SectionKey::in_order(),
    {
        [SectionKey::ProjectConfig, SectionKey::WindowConfig, SectionKey::WindowState]
    }

    /// The three keys in the order in which the document is seeded.
    pub open spec fn in_order() -> [SectionKey; 3] {
        [SectionKey::ProjectConfig, SectionKey::WindowConfig, SectionKey::WindowState]
    }

    /// Two keys with the same name are the same key, and each key is the one
    /// found under its own name.
    pub proof fn lemma_labels_distinct()
        ensures
            forall|a: SectionKey, b: SectionKey| a.label() == b.label() ==> a == b,
            forall|a: SectionKey| SectionKey::of_label(#[trigger] a.label()) == Some(a),
    {
        reveal_strlit("project_config");
        reveal_strlit("window_config");
        reveal_strlit("window_state");
        assert(SectionKey::ProjectConfig.label().len() == 14);
        assert(SectionKey::WindowConfig.label().len() == 13);
        assert(SectionKey::WindowState.label().len() == 12);
    }
}

/// The name of a field of a section.
#[derive(Clone, Copy, Debug, PartialEq, Eq, Structural)]
pub enum Field {
    Name,
    Filepath,
    Remarks,
    Title,
    MinWidth,
    MinHeight,
    MaxWidth,
    MaxHeight,
    Width,
    Height,
    X,
    Y,
    Fullscreen,
    Theme,
    MainPanelLayout,
    Horizontal,
    Vertical,
}

impl Field {
    /// The name under which the field is stored in its record.
    pub open spec fn label(self) -> Seq<char> {
        match self {
            Field::Name => "name"@,
            Field::Filepath => "filepath"@,
            Field::Remarks => "remarks"@,
            Field::Title => "title"@,
            Field::MinWidth => "min_width"@,
            Field::MinHeight => "min_height"@,
            Field::MaxWidth => "max_width"@,
            Field::MaxHeight => "max_height"@,
            Field::Width => "width"@,
            Field::Height => "height"@,
            Field::X => "x"@,
            Field::Y => "y"@,
            Field::Fullscreen => "fullscreen"@,
            Field::Theme => "theme"@,
            Field::MainPanelLayout => "main_panel_layout"@,
            Field::Horizontal => "horizontal"@,
            Field::Vertical => "vertical"@,
        }
    }

    /// The name under which the field is stored in its record.
    pub fn name(self) -> (s: &'static str)
        ensures
            s@ == self.label(),
    {
        match self {
            Field::Name => "name",
            Field::Filepath => "filepath",
            Field::Remarks => "remarks",
            Field::Title => "title",
            Field::MinWidth => "min_width",
            Field::MinHeight => "min_height",
            Field::MaxWidth => "max_width",
            Field::MaxHeight => "max_height",
            Field::Width => "width",
            Field::Height => "height",
            Field::X => "x",
            Field::Y => "y",
            Field::Fullscreen => "fullscreen",
            Field::Theme => "theme",
            Field::MainPanelLayout => "main_panel_layout",
            Field::Horizontal => "horizontal",
            Field::Vertical => "vertical",
        }
    }

    /// The length and first two characters of each field name.
    pub open spec fn label_mark(self) -> (nat, char, char) {
        match self {
            Field::Name => (4, 'n', 'a'),
            Field::Filepath => (8, 'f', 'i'),
            Field::Remarks => (7, 'r', 'e'),
            Field::Title => (5, 't', 'i'),
            Field::MinWidth => (9, 'm', 'i'),
            Field::MinHeight => (10, 'm', 'i'),
            Field::MaxWidth => (9, 'm', 'a'),
            Field::MaxHeight => (10, 'm', 'a'),
            Field::Width => (5, 'w', 'i'),
            Field::Height => (6, 'h', 'e'),
            Field::X => (1, 'x', ' '),
            Field::Y => (1, 'y', ' '),
            Field::Fullscreen => (10, 'f', 'u'),
            Field::Theme => (5, 't', 'h'),
            Field::MainPanelLayout => (17, 'm', 'a'),
            Field::Horizontal => (10, 'h', 'o'),
            Field::Vertical => (8, 'v', 'e'),
        }
    }

    /// Each field name has the mark listed for it.
    pub proof fn lemma_label_mark(self)
        ensures
            mark(self.label()) == self.label_mark(),
    {
        reveal_strlit("name");
        reveal_strlit("filepath");
        reveal_strlit("remarks");
        reveal_strlit("title");
        reveal_strlit("min_width");
        reveal_strlit("min_height");
        reveal_strlit("max_width");
        reveal_strlit("max_height");
        reveal_strlit("width");
        reveal_strlit("height");
        reveal_strlit("x");
        reveal_strlit("y");
        reveal_strlit("fullscreen");
        reveal_strlit("theme");
        reveal_strlit("main_panel_layout");
        reveal_strlit("horizontal");
        reveal_strlit("vertical");
    }

    /// Two fields with the same name are the same field.
    pub proof fn lemma_labels_distinct()
        ensures
            forall|a: Field, b: Field| a.label() == b.label() ==> a == b,
    {
        assert forall|a: Field, b: Field| a.label() == b.label() implies a == b by {
            a.lemma_label_mark();
            b.lemma_label_mark();
        }
    }
}

/// The theme that the user asked for.
#[derive(Clone, Copy, Debug, PartialEq, Eq, Structural)]
pub enum ThemeSetting {
    Light,
    Dark,
    Auto,
}

impl ThemeSetting {
    /// The spelling under which the setting is stored.
    pub open spec fn label(self) -> Seq<char> {
        match self {
            ThemeSetting::Light => "light"@,
            ThemeSetting::Dark => "dark"@,
            ThemeSetting::Auto => "auto"@,
        }
    }

    /// The setting that `text` spells: the stored spelling, or the same with
    /// a capital first letter.
    pub open spec fn of_text(text: Seq<char>) -> Option<ThemeSetting> {
        if text == "light"@ || text == "Light"@ {
            Some(ThemeSetting::Light)
        } else if text == "dark"@ || text == "Dark"@ {
            Some(ThemeSetting::Dark)
        } else if text == "auto"@ || text == "Auto"@ {
            Some(ThemeSetting::Auto)
        } else {
            None
        }
    }

    /// The spelling under which the setting is stored.
    pub fn name(self) -> (s: &'static str)
        ensures
            s@ == self.label(),
    {
        match self {
            ThemeSetting::Light => "light",
            ThemeSetting::Dark => "dark",
            ThemeSetting::Auto => "auto",
        }
    }

    /// The setting that `text` spells, if it spells one.
    pub fn from_text(text: &str) -> (setting: Option<ThemeSetting>)
        ensures
            setting == ThemeSetting::of_text(text@),
    {
        if text_eq(text, "light") || text_eq(text, "Light") {
            Some(ThemeSetting::Light)
        } else if text_eq(text, "dark") || text_eq(text, "Dark") {
            Some(ThemeSetting::Dark)
        } else if text_eq(text, "auto") || text_eq(text, "Auto") {
            Some(ThemeSetting::Auto)
        } else {
            None
        }
    }

    /// Each setting is read back from its stored spelling.
    pub proof fn lemma_label_read_back(self)
        ensures
            ThemeSetting::of_text(self.label()) == Some(self),
    {
        reveal_strlit("light");
        reveal_strlit("Light");
        reveal_strlit("dark");
        reveal_strlit("Dark");
        reveal_strlit("auto");
        reveal_strlit("Auto");
        assert("light"@[0] == 'l' && "Light"@[0] == 'L');
        assert("dark"@[0] == 'd' && "Dark"@[0] == 'D');
        assert("auto"@[0] == 'a' && "Auto"@[0] == 'A');
    }
}

} // verus!
