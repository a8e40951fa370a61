//! The shapes of the three sections, the values they start with, and the
//! passage between a section and the raw value that stores it.

use vstd::prelude::*;
use vstd::string::StringExecFns;

use crate::names::{Field, SectionKey, ThemeSetting};
use crate::value::{
    append_member, lemma_index_of_first, list_view, members_view, Member, RawValue, RawView,
};

verus! {

/// Why a stored value does not have the shape of its section.
#[derive(Clone, Copy, Debug, PartialEq, Eq, Structural)]
pub enum ShapeError {
    /// The value is not a record at all.
    NotARecord,
    /// The record has no entry of this name.
    MissingField(Field),
    /// The entry of this name holds a value of the wrong kind or out of range.
    InvalidField(Field),
}

/// The text stored under `field`.
pub open spec fn text_field(record: RawView, field: Field) -> Result<Seq<char>, ShapeError> {
    match record.member(field.label()) {
        None => Err(ShapeError::MissingField(field)),
        Some(v) => match v.as_text() {
            Some(s) => Ok(s),
            None => Err(ShapeError::InvalidField(field)),
        },
    }
}

/// The unsigned 32-bit number stored under `field`.
pub open spec fn u32_field(record: RawView, field: Field) -> Result<u32, ShapeError> {
    match record.member(field.label()) {
        None => Err(ShapeError::MissingField(field)),
        Some(v) => match v.as_u32() {
            Some(n) => Ok(n),
            None => Err(ShapeError::InvalidField(field)),
        },
    }
}

/// The signed 32-bit number stored under `field`.
pub open spec fn i32_field(record: RawView, field: Field) -> Result<i32, ShapeError> {
    match record.member(field.label()) {
        None => Err(ShapeError::MissingField(field)),
        Some(v) => match v.as_i32() {
            Some(n) => Ok(n),
            None => Err(ShapeError::InvalidField(field)),
        },
    }
}

/// The truth value stored under `field`.
pub open spec fn bool_field(record: RawView, field: Field) -> Result<bool, ShapeError> {
    match record.member(field.label()) {
        None => Err(ShapeError::MissingField(field)),
        Some(v) => match v.as_bool() {
            Some(b) => Ok(b),
            None => Err(ShapeError::InvalidField(field)),
        },
    }
}

/// The theme setting spelled by the text stored under `field`.
pub open spec fn theme_field(record: RawView, field: Field) -> Result<ThemeSetting, ShapeError> {
    match text_field(record, field) {
        Err(e) => Err(e),
        Ok(s) => match ThemeSetting::of_text(s) {
            Some(t) => Ok(t),
            None => Err(ShapeError::InvalidField(field)),
        },
    }
}

/// Every value of `items` is an unsigned 32-bit number.
pub open spec fn all_u32(items: Seq<RawView>) -> bool {
    forall|i: int| 0 <= i < items.len() ==> (#[trigger] items[i]).as_u32() is Some
}

/// The list of exactly `count` unsigned 32-bit numbers stored under `field`.
pub open spec fn weights_field(record: RawView, field: Field, count: nat) -> Result<
    Seq<u32>,
    ShapeError,
> {
    match record.member(field.label()) {
        None => Err(ShapeError::MissingField(field)),
        Some(v) => match v.as_list() {
            Some(items) => if items.len() == count && all_u32(items) {
                Ok(Seq::new(count, |i: int| items[i].as_u32().unwrap()))
            } else {
                Err(ShapeError::InvalidField(field))
            },
            None => Err(ShapeError::InvalidField(field)),
        },
    }
}

/// A list value holding the given numbers.
pub open spec fn weights_raw(numbers: Seq<u32>) -> RawView {
    RawView::List(Seq::new(numbers.len(), |i: int| RawView::Integer(numbers[i] as int)))
}

fn read_text(record: &RawValue, field: Field) -> (r: Result<String, ShapeError>)
    ensures
        match r {
            Ok(s) => text_field(record@, field) == Ok::<Seq<char>, ShapeError>(s@),
            Err(e) => text_field(record@, field) == Err::<Seq<char>, ShapeError>(e),
        },
{
    match record.member(field.name()) {
        None => Err(ShapeError::MissingField(field)),
        Some(v) => match v.as_text() {
            Some(s) => Ok(String::from_str(s)),
            None => Err(ShapeError::InvalidField(field)),
        },
    }
}

fn read_u32(record: &RawValue, field: Field) -> (r: Result<u32, ShapeError>)
    ensures
        r == u32_field(record@, field),
{
    match record.member(field.name()) {
        None => Err(ShapeError::MissingField(field)),
        Some(v) => match v.as_u32() {
            Some(n) => Ok(n),
            None => Err(ShapeError::InvalidField(field)),
        },
    }
}

fn read_i32(record: &RawValue, field: Field) -> (r: Result<i32, ShapeError>)
    ensures
        r == i32_field(record@, field),
{
    match record.member(field.name()) {
        None => Err(ShapeError::MissingField(field)),
        Some(v) => match v.as_i32() {
            Some(n) => Ok(n),
            None => Err(ShapeError::InvalidField(field)),
        },
    }
}

fn read_bool(record: &RawValue, field: Field) -> (r: Result<bool, ShapeError>)
    ensures
        r == bool_field(record@, field),
{
    match record.member(field.name()) {
        None => Err(ShapeError::MissingField(field)),
        Some(v) => match v.as_bool() {
            Some(b) => Ok(b),
            None => Err(ShapeError::InvalidField(field)),
        },
    }
}

fn read_theme(record: &RawValue, field: Field) -> (r: Result<ThemeSetting, ShapeError>)
    ensures
        r == theme_field(record@, field),
{
    match record.member(field.name()) {
        None => Err(ShapeError::MissingField(field)),
        Some(v) => match v.as_text() {
            Some(s) => match ThemeSetting::from_text(s) {
                Some(t) => Ok(t),
                None => Err(ShapeError::InvalidField(field)),
            },
            None => Err(ShapeError::InvalidField(field)),
        },
    }
}

fn read_weights(record: &RawValue, field: Field, count: usize) -> (r: Result<
    Vec<u32>,
    ShapeError,
>)
    ensures
        match r {
            Ok(numbers) => weights_field(record@, field, count as nat) == Ok::<
                Seq<u32>,
                ShapeError,
            >(numbers@),
            Err(e) => weights_field(record@, field, count as nat) == Err::<Seq<u32>, ShapeError>(
                e,
            ),
        },
{
    match record.member(field.name()) {
        None => Err(ShapeError::MissingField(field)),
        Some(v) => match v.as_list() {
            None => Err(ShapeError::InvalidField(field)),
            Some(items) => {
                let ghost views = list_view(items@);
                if items.len() != count {
                    return Err(ShapeError::InvalidField(field));
                }
                let mut numbers: Vec<u32> = Vec::new();
                let mut i: usize = 0;
                while i < count
                    invariant
                        i <= count,
                        items.len() == count,
                        views == list_view(items@),
                        record@.member(field.label()) == Some(v@),
                        v@.as_list() == Some(views),
                        numbers.len() == i,
                        forall|k: int|
                            0 <= k < i ==> (#[trigger] views[k]).as_u32() == Some(numbers@[k]),
                    decreases count - i,
                {
                    match items[i].as_u32() {
                        Some(n) => {
                            numbers.push(n);
                        },
                        None => {
                            assert(views[i as int].as_u32() is None);
                            return Err(ShapeError::InvalidField(field));
                        },
                    }
                    i += 1;
                }
                assert(all_u32(views));
                assert(numbers@ =~= Seq::new(count as nat, |i: int| views[i].as_u32().unwrap()));
                Ok(numbers)
            },
        },
    }
}

fn write_weights(numbers: &[u32]) -> (raw: RawValue)
    ensures
        raw@ == weights_raw(numbers@),
{
    let mut items: Vec<RawValue> = Vec::new();
    let mut i: usize = 0;
    while i < numbers.len()
        invariant
            i <= numbers.len(),
            items.len() == i,
            forall|k: int| 0 <= k < i ==> (#[trigger] items@[k])@ == RawView::Integer(
                numbers@[k] as int,
            ),
        decreases numbers.len() - i,
    {
        items.push(RawValue::Unsigned(numbers[i] as u64));
        i += 1;
    }
    let raw = RawValue::List(items);
    assert(raw@->List_0 =~= weights_raw(numbers@)->List_0);
    raw
}

/// What is known of the project that is open.
#[derive(Debug, PartialEq, Eq)]
pub struct ProjectConfig {
    pub name: String,
    pub filepath: String,
    pub remarks: String,
}

/// The project section under the name that the whole configuration uses for it.
pub type Project = ProjectConfig;

/// A `ProjectConfig` with its texts as sequences of characters.
pub struct ProjectConfigView {
    pub name: Seq<char>,
    pub filepath: Seq<char>,
    pub remarks: Seq<char>,
}

impl View for ProjectConfig {
    type V = ProjectConfigView;

    open spec fn view(&self) -> ProjectConfigView {
        ProjectConfigView { name: self.name@, filepath: self.filepath@, remarks: self.remarks@ }
    }
}

impl ProjectConfig {
    /// The section of a fresh document: three empty texts.
    pub open spec fn default_view() -> ProjectConfigView {
        ProjectConfigView { name: Seq::empty(), filepath: Seq::empty(), remarks: Seq::empty() }
    }

    /// The raw value that stores the section.
    pub open spec fn raw_of(v: ProjectConfigView) -> RawView {
        RawView::Record(
            seq![
                (Field::Name.label(), RawView::Text(v.name)),
                (Field::Filepath.label(), RawView::Text(v.filepath)),
                (Field::Remarks.label(), RawView::Text(v.remarks)),
            ],
        )
    }

    /// The section that a raw value stores, or the first thing that is wrong
    /// with it, the fields taken in the order of the declaration.
    pub open spec fn parse(raw: RawView) -> Result<ProjectConfigView, ShapeError> {
        let name = text_field(raw, Field::Name);
        let filepath = text_field(raw, Field::Filepath);
        let remarks = text_field(raw, Field::Remarks);
        if !(raw is Record) {
            Err(ShapeError::NotARecord)
        } else if name is Err {
            Err(name->Err_0)
        } else if filepath is Err {
            Err(filepath->Err_0)
        } else if remarks is Err {
            Err(remarks->Err_0)
        } else {
            Ok(ProjectConfigView { name: name->Ok_0, filepath: filepath->Ok_0, remarks: remarks->Ok_0 })
        }
    }

    /// The raw value that stores this section.
    pub fn to_raw(&self) -> (raw: RawValue)
        ensures
            raw@ == ProjectConfig::raw_of(self@),
    {
        let mut members: Vec<Member> = Vec::new();
        append_member(&mut members, Field::Name.name(), RawValue::Text(self.name.clone()));
        append_member(&mut members, Field::Filepath.name(), RawValue::Text(self.filepath.clone()));
        append_member(&mut members, Field::Remarks.name(), RawValue::Text(self.remarks.clone()));
        assert(members_view(members@) =~= ProjectConfig::raw_of(self@)->Record_0);
        RawValue::Record(members)
    }

    /// Reads the section from a raw value. Entries that the section does not
    /// know are passed over.
    pub fn from_raw(raw: &RawValue) -> (r: Result<ProjectConfig, ShapeError>)
        ensures
            match r {
                Ok(section) => ProjectConfig::parse(raw@) == Ok::<ProjectConfigView, ShapeError>(
                    section@,
                ),
                Err(e) => ProjectConfig::parse(raw@) == Err::<ProjectConfigView, ShapeError>(e),
            },
    {
        if !raw.is_record() {
            return Err(ShapeError::NotARecord);
        }
        let name = match read_text(raw, Field::Name) {
            Ok(s) => s,
            Err(e) => {
                return Err(e);
            },
        };
        let filepath = match read_text(raw, Field::Filepath) {
            Ok(s) => s,
            Err(e) => {
                return Err(e);
            },
        };
        let remarks = match read_text(raw, Field::Remarks) {
            Ok(s) => s,
            Err(e) => {
                return Err(e);
            },
        };
        Ok(ProjectConfig { name, filepath, remarks })
    }

    /// A section that was written is read back as it was.
    pub proof fn lemma_round_trip(v: ProjectConfigView)
        ensures
            ProjectConfig::parse(ProjectConfig::raw_of(v)) == Ok::<ProjectConfigView, ShapeError>(
                v,
            ),
    {
        Field::lemma_labels_distinct();
        let fields = ProjectConfig::raw_of(v)->Record_0;
        lemma_index_of_first(fields, Field::Name.label(), 0);
        lemma_index_of_first(fields, Field::Filepath.label(), 1);
        lemma_index_of_first(fields, Field::Remarks.label(), 2);
    }
}

impl Clone for ProjectConfig {
    fn clone(&self) -> (copy: ProjectConfig)
        ensures
            copy@ == self@,
    {
        ProjectConfig {
            name: self.name.clone(),
            filepath: self.filepath.clone(),
            remarks: self.remarks.clone(),
        }
    }
}

impl Default for ProjectConfig {
    fn default() -> (section: ProjectConfig)
        ensures
            section@ == ProjectConfig::default_view(),
    {
        ProjectConfig { name: String::new(), filepath: String::new(), remarks: String::new() }
    }
}

/// The template that a window is created from.
#[derive(Debug, PartialEq, Eq)]
pub struct WindowConfig {
    pub title: String,
    pub min_width: u32,
    pub min_height: u32,
    pub max_width: u32,
    pub max_height: u32,
}

/// A `WindowConfig` with its title as a sequence of characters.
pub struct WindowConfigView {
    pub title: Seq<char>,
    pub min_width: u32,
    pub min_height: u32,
    pub max_width: u32,
    pub max_height: u32,
}

impl View for WindowConfig {
    type V = WindowConfigView;

    open spec fn view(&self) -> WindowConfigView {
        WindowConfigView {
            title: self.title@,
            min_width: self.min_width,
            min_height: self.min_height,
            max_width: self.max_width,
            max_height: self.max_height,
        }
    }
}

impl WindowConfig {
    /// The section of a fresh document.
    pub open spec fn default_view() -> WindowConfigView {
        WindowConfigView {
            title: "BaseProject"@,
            min_width: 800,
            min_height: 600,
            max_width: 1920,
            max_height: 1080,
        }
    }

    /// The raw value that stores the section.
    pub open spec fn raw_of(v: WindowConfigView) -> RawView {
        RawView::Record(
            seq![
                (Field::Title.label(), RawView::Text(v.title)),
                (Field::MinWidth.label(), RawView::Integer(v.min_width as int)),
                (Field::MinHeight.label(), RawView::Integer(v.min_height as int)),
                (Field::MaxWidth.label(), RawView::Integer(v.max_width as int)),
                (Field::MaxHeight.label(), RawView::Integer(v.max_height as int)),
            ],
        )
    }

    /// The section that a raw value stores, or the first thing that is wrong
    /// with it, the fields taken in the order of the declaration.
    pub open spec fn parse(raw: RawView) -> Result<WindowConfigView, ShapeError> {
        let title = text_field(raw, Field::Title);
        let min_width = u32_field(raw, Field::MinWidth);
        let min_height = u32_field(raw, Field::MinHeight);
        let max_width = u32_field(raw, Field::MaxWidth);
        let max_height = u32_field(raw, Field::MaxHeight);
        if !(raw is Record) {
            Err(ShapeError::NotARecord)
        } else if title is Err {
            Err(title->Err_0)
        } else if min_width is Err {
            Err(min_width->Err_0)
        } else if min_height is Err {
            Err(min_height->Err_0)
        } else if max_width is Err {
            Err(max_width->Err_0)
        } else if max_height is Err {
            Err(max_height->Err_0)
        } else {
            Ok(
                WindowConfigView {
                    title: title->Ok_0,
                    min_width: min_width->Ok_0,
                    min_height: min_height->Ok_0,
                    max_width: max_width->Ok_0,
                    max_height: max_height->Ok_0,
                },
            )
        }
    }

    /// The raw value that stores this section.
    pub fn to_raw(&self) -> (raw: RawValue)
        ensures
            raw@ == WindowConfig::raw_of(self@),
    {
        let mut members: Vec<Member> = Vec::new();
        append_member(&mut members, Field::Title.name(), RawValue::Text(self.title.clone()));
        append_member(&mut members, Field::MinWidth.name(), RawValue::Unsigned(self.min_width as u64));
        append_member(
            &mut members,
            Field::MinHeight.name(),
            RawValue::Unsigned(self.min_height as u64),
        );
        append_member(&mut members, Field::MaxWidth.name(), RawValue::Unsigned(self.max_width as u64));
        append_member(
            &mut members,
            Field::MaxHeight.name(),
            RawValue::Unsigned(self.max_height as u64),
        );
        assert(members_view(members@) =~= WindowConfig::raw_of(self@)->Record_0);
        RawValue::Record(members)
    }

    /// Reads the section from a raw value. Entries that the section does not
    /// know are passed over.
    pub fn from_raw(raw: &RawValue) -> (r: Result<WindowConfig, ShapeError>)
        ensures
            match r {
                Ok(section) => WindowConfig::parse(raw@) == Ok::<WindowConfigView, ShapeError>(
                    section@,
                ),
                Err(e) => WindowConfig::parse(raw@) == Err::<WindowConfigView, ShapeError>(e),
            },
    {
        if !raw.is_record() {
            return Err(ShapeError::NotARecord);
        }
        let title = match read_text(raw, Field::Title) {
            Ok(s) => s,
            Err(e) => {
                return Err(e);
            },
        };
        let min_width = match read_u32(raw, Field::MinWidth) {
            Ok(n) => n,
            Err(e) => {
                return Err(e);
            },
        };
        let min_height = match read_u32(raw, Field::MinHeight) {
            Ok(n) => n,
            Err(e) => {
                return Err(e);
            },
        };
        let max_width = match read_u32(raw, Field::MaxWidth) {
            Ok(n) => n,
            Err(e) => {
                return Err(e);
            },
        };
        let max_height = match read_u32(raw, Field::MaxHeight) {
            Ok(n) => n,
            Err(e) => {
                return Err(e);
            },
        };
        Ok(WindowConfig { title, min_width, min_height, max_width, max_height })
    }

    /// A section that was written is read back as it was.
    pub proof fn lemma_round_trip(v: WindowConfigView)
        ensures
            WindowConfig::parse(WindowConfig::raw_of(v)) == Ok::<WindowConfigView, ShapeError>(v),
    {
        Field::lemma_labels_distinct();
        let fields = WindowConfig::raw_of(v)->Record_0;
        lemma_index_of_first(fields, Field::Title.label(), 0);
        lemma_index_of_first(fields, Field::MinWidth.label(), 1);
        lemma_index_of_first(fields, Field::MinHeight.label(), 2);
        lemma_index_of_first(fields, Field::MaxWidth.label(), 3);
        lemma_index_of_first(fields, Field::MaxHeight.label(), 4);
    }
}

impl Clone for WindowConfig {
    fn clone(&self) -> (copy: WindowConfig)
        ensures
            copy@ == self@,
    {
        WindowConfig {
            title: self.title.clone(),
            min_width: self.min_width,
            min_height: self.min_height,
            max_width: self.max_width,
            max_height: self.max_height,
        }
    }
}

impl Default for WindowConfig {
    fn default() -> (section: WindowConfig)
        ensures
            section@ == WindowConfig::default_view(),
    {
        WindowConfig {
            title: String::from_str("BaseProject"),
            min_width: 800,
            min_height: 600,
            max_width: 1920,
            max_height: 1080,
        }
    }
}

/// The weights by which the panels of the main window share its width and
/// its height. They are proportions: nothing is asked of their sum.
#[derive(Clone, Copy, Debug, PartialEq, Eq)]
pub struct MainPanelLayout {
    pub horizontal: [u32; 3],
    pub vertical: [u32; 2],
}

impl MainPanelLayout {
    /// The layout of a fresh document.
    pub open spec fn default_view() -> MainPanelLayout {
        MainPanelLayout { horizontal: [15, 70, 15], vertical: [85, 15] }
    }

    /// The raw value that stores the layout.
    pub open spec fn raw_of(v: MainPanelLayout) -> RawView {
        RawView::Record(
            seq![
                (Field::Horizontal.label(), weights_raw(v.horizontal@)),
                (Field::Vertical.label(), weights_raw(v.vertical@)),
            ],
        )
    }

    /// The layout that a raw value stores, or the first thing that is wrong
    /// with it.
    pub open spec fn parse(raw: RawView) -> Result<MainPanelLayout, ShapeError> {
        let horizontal = weights_field(raw, Field::Horizontal, 3);
        let vertical = weights_field(raw, Field::Vertical, 2);
        if !(raw is Record) {
            Err(ShapeError::NotARecord)
        } else if horizontal is Err {
            Err(horizontal->Err_0)
        } else if vertical is Err {
            Err(vertical->Err_0)
        } else {
            let h = horizontal->Ok_0;
            let v = vertical->Ok_0;
            Ok(MainPanelLayout { horizontal: [h[0], h[1], h[2]], vertical: [v[0], v[1]] })
        }
    }

    /// The raw value that stores this layout.
    pub fn to_raw(&self) -> (raw: RawValue)
        ensures
            raw@ == MainPanelLayout::raw_of(*self),
    {
        let mut members: Vec<Member> = Vec::new();
        append_member(
            &mut members,
            Field::Horizontal.name(),
            write_weights(self.horizontal.as_slice()),
        );
        append_member(&mut members, Field::Vertical.name(), write_weights(self.vertical.as_slice()));
        assert(members_view(members@) =~= MainPanelLayout::raw_of(*self)->Record_0);
        RawValue::Record(members)
    }

    /// Reads the layout from a raw value.
    pub fn from_raw(raw: &RawValue) -> (r: Result<MainPanelLayout, ShapeError>)
        ensures
            r == MainPanelLayout::parse(raw@),
    {
        if !raw.is_record() {
            return Err(ShapeError::NotARecord);
        }
        let h = match read_weights(raw, Field::Horizontal, 3) {
            Ok(numbers) => numbers,
            Err(e) => {
                return Err(e);
            },
        };
        let v = match read_weights(raw, Field::Vertical, 2) {
            Ok(numbers) => numbers,
            Err(e) => {
                return Err(e);
            },
        };
        Ok(MainPanelLayout { horizontal: [h[0], h[1], h[2]], vertical: [v[0], v[1]] })
    }

    /// A layout that was written is read back as it was.
    pub proof fn lemma_round_trip(v: MainPanelLayout)
        ensures
            MainPanelLayout::parse(MainPanelLayout::raw_of(v)) == Ok::<MainPanelLayout, ShapeError>(
                v,
            ),
    {
        Field::lemma_labels_distinct();
        let fields = MainPanelLayout::raw_of(v)->Record_0;
        lemma_index_of_first(fields, Field::Horizontal.label(), 0);
        lemma_index_of_first(fields, Field::Vertical.label(), 1);
        let hs = weights_raw(v.horizontal@)->List_0;
        let vs = weights_raw(v.vertical@)->List_0;
        assert(all_u32(hs));
        assert(all_u32(vs));
        let h = weights_field(MainPanelLayout::raw_of(v), Field::Horizontal, 3)->Ok_0;
        let w = weights_field(MainPanelLayout::raw_of(v), Field::Vertical, 2)->Ok_0;
        assert([h[0], h[1], h[2]] =~= v.horizontal);
        assert([w[0], w[1]] =~= v.vertical);
    }
}

impl Default for MainPanelLayout {
    fn default() -> (layout: MainPanelLayout)
        ensures
            layout == MainPanelLayout::default_view(),
    {
        MainPanelLayout { horizontal: [15, 70, 15], vertical: [85, 15] }
    }
}

/// The layout stored under `main_panel_layout`.
pub open spec fn layout_field(record: RawView) -> Result<MainPanelLayout, ShapeError> {
    match record.member(Field::MainPanelLayout.label()) {
        None => Err(ShapeError::MissingField(Field::MainPanelLayout)),
        Some(v) => if v is Record {
            MainPanelLayout::parse(v)
        } else {
            Err(ShapeError::InvalidField(Field::MainPanelLayout))
        },
    }
}

/// Where the window was, how large, and how it looked when it was last seen.
#[derive(Clone, Copy, Debug, PartialEq, Eq)]
pub struct WindowState {
    pub width: u32,
    pub height: u32,
    pub x: i32,
    pub y: i32,
    pub fullscreen: bool,
    pub theme: ThemeSetting,
    pub main_panel_layout: MainPanelLayout,
}

impl View for WindowState {
    type V = WindowState;

    open spec fn view(&self) -> WindowState {
        *self
    }
}

impl WindowState {
    /// The section of a fresh document.
    pub open spec fn default_view() -> WindowState {
        WindowState {
            width: 1200,
            height: 800,
            x: 100,
            y: 100,
            fullscreen: false,
            theme: ThemeSetting::Auto,
            main_panel_layout: MainPanelLayout::default_view(),
        }
    }

    /// The raw value that stores the section.
    pub open spec fn raw_of(v: WindowState) -> RawView {
        RawView::Record(
            seq![
                (Field::Width.label(), RawView::Integer(v.width as int)),
                (Field::Height.label(), RawView::Integer(v.height as int)),
                (Field::X.label(), RawView::Integer(v.x as int)),
                (Field::Y.label(), RawView::Integer(v.y as int)),
                (Field::Fullscreen.label(), RawView::Bool(v.fullscreen)),
                (Field::Theme.label(), RawView::Text(v.theme.label())),
                (Field::MainPanelLayout.label(), MainPanelLayout::raw_of(v.main_panel_layout)),
            ],
        )
    }

    /// The section that a raw value stores, or the first thing that is wrong
    /// with it, the fields taken in the order of the declaration.
    pub open spec fn parse(raw: RawView) -> Result<WindowState, ShapeError> {
        let width = u32_field(raw, Field::Width);
        let height = u32_field(raw, Field::Height);
        let x = i32_field(raw, Field::X);
        let y = i32_field(raw, Field::Y);
        let fullscreen = bool_field(raw, Field::Fullscreen);
        let theme = theme_field(raw, Field::Theme);
        let layout = layout_field(raw);
        if !(raw is Record) {
            Err(ShapeError::NotARecord)
        } else if width is Err {
            Err(width->Err_0)
        } else if height is Err {
            Err(height->Err_0)
        } else if x is Err {
            Err(x->Err_0)
        } else if y is Err {
            Err(y->Err_0)
        } else if fullscreen is Err {
            Err(fullscreen->Err_0)
        } else if theme is Err {
            Err(theme->Err_0)
        } else if layout is Err {
            Err(layout->Err_0)
        } else {
            Ok(
                WindowState {
                    width: width->Ok_0,
                    height: height->Ok_0,
                    x: x->Ok_0,
                    y: y->Ok_0,
                    fullscreen: fullscreen->Ok_0,
                    theme: theme->Ok_0,
                    main_panel_layout: layout->Ok_0,
                },
            )
        }
    }

    /// The raw value that stores this section.
    pub fn to_raw(&self) -> (raw: RawValue)
        ensures
            raw@ == WindowState::raw_of(*self),
    {
        let mut members: Vec<Member> = Vec::new();
        append_member(&mut members, Field::Width.name(), RawValue::Unsigned(self.width as u64));
        append_member(&mut members, Field::Height.name(), RawValue::Unsigned(self.height as u64));
        append_member(&mut members, Field::X.name(), RawValue::Signed(self.x as i64));
        append_member(&mut members, Field::Y.name(), RawValue::Signed(self.y as i64));
        append_member(&mut members, Field::Fullscreen.name(), RawValue::Bool(self.fullscreen));
        append_member(&mut members, Field::Theme.name(), RawValue::text(self.theme.name()));
        append_member(&mut members, Field::MainPanelLayout.name(), self.main_panel_layout.to_raw());
        assert(members_view(members@) =~= WindowState::raw_of(*self)->Record_0);
        RawValue::Record(members)
    }

    /// Reads the section from a raw value. Entries that the section does not
    /// know are passed over.
    pub fn from_raw(raw: &RawValue) -> (r: Result<WindowState, ShapeError>)
        ensures
            r == WindowState::parse(raw@),
    {
        if !raw.is_record() {
            return Err(ShapeError::NotARecord);
        }
        let width = match read_u32(raw, Field::Width) {
            Ok(n) => n,
            Err(e) => {
                return Err(e);
            },
        };
        let height = match read_u32(raw, Field::Height) {
            Ok(n) => n,
            Err(e) => {
                return Err(e);
            },
        };
        let x = match read_i32(raw, Field::X) {
            Ok(n) => n,
            Err(e) => {
                return Err(e);
            },
        };
        let y = match read_i32(raw, Field::Y) {
            Ok(n) => n,
            Err(e) => {
                return Err(e);
            },
        };
        let fullscreen = match read_bool(raw, Field::Fullscreen) {
            Ok(b) => b,
            Err(e) => {
                return Err(e);
            },
        };
        let theme = match read_theme(raw, Field::Theme) {
            Ok(t) => t,
            Err(e) => {
                return Err(e);
            },
        };
        let main_panel_layout = match raw.member(Field::MainPanelLayout.name()) {
            None => {
                return Err(ShapeError::MissingField(Field::MainPanelLayout));
            },
            Some(v) => {
                if !v.is_record() {
                    return Err(ShapeError::InvalidField(Field::MainPanelLayout));
                }
                match MainPanelLayout::from_raw(v) {
                    Ok(layout) => layout,
                    Err(e) => {
                        return Err(e);
                    },
                }
            },
        };
        Ok(WindowState { width, height, x, y, fullscreen, theme, main_panel_layout })
    }

    /// A section that was written is read back as it was.
    pub proof fn lemma_round_trip(v: WindowState)
        ensures
            WindowState::parse(WindowState::raw_of(v)) == Ok::<WindowState, ShapeError>(v),
    {
        Field::lemma_labels_distinct();
        v.theme.lemma_label_read_back();
        MainPanelLayout::lemma_round_trip(v.main_panel_layout);
        let fields = WindowState::raw_of(v)->Record_0;
        lemma_index_of_first(fields, Field::Width.label(), 0);
        lemma_index_of_first(fields, Field::Height.label(), 1);
        lemma_index_of_first(fields, Field::X.label(), 2);
        lemma_index_of_first(fields, Field::Y.label(), 3);
        lemma_index_of_first(fields, Field::Fullscreen.label(), 4);
        lemma_index_of_first(fields, Field::Theme.label(), 5);
        lemma_index_of_first(fields, Field::MainPanelLayout.label(), 6);
    }
}

impl Default for WindowState {
    fn default() -> (section: WindowState)
        ensures
            section == WindowState::default_view(),
    {
        WindowState {
            width: 1200,
            height: 800,
            x: 100,
            y: 100,
            fullscreen: false,
            theme: ThemeSetting::Auto,
            main_panel_layout: MainPanelLayout::default(),
        }
    }
}

/// The raw value that a section starts with.
pub open spec fn default_raw_view(key: SectionKey) -> RawView {
    match key {
        SectionKey::ProjectConfig => ProjectConfig::raw_of(ProjectConfig::default_view()),
        SectionKey::WindowConfig => WindowConfig::raw_of(WindowConfig::default_view()),
        SectionKey::WindowState => WindowState::raw_of(WindowState::default_view()),
    }
}

/// The raw value that a section starts with.
pub fn default_raw(key: SectionKey) -> (raw: RawValue)
    ensures
        raw@ == default_raw_view(key),
{
    match key {
        SectionKey::ProjectConfig => ProjectConfig::default().to_raw(),
        SectionKey::WindowConfig => WindowConfig::default().to_raw(),
        SectionKey::WindowState => WindowState::default().to_raw(),
    }
}

} // verus!
