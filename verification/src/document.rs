//! The configuration document as it is held in memory: a mapping from
//! section key to raw value, loaded and saved as a whole.

use vstd::prelude::*;

use crate::value::{
    clone_members, distinct_names, find_member, lemma_lookup_upsert, lemma_upsert_distinct,
    lemma_upsert_mapping, lookup, mapping, members_view, text_eq, upsert, Member, RawValue, RawView,
};

verus! {

/// The name of the file that holds the document.
pub fn config_file_name() -> (name: &'static str)
    ensures
        name@ == "BaseProject.config"@,
{
    "BaseProject.config"
}

/// The name of the directory, under the user's configuration directory, that
/// holds the file.
pub fn config_dir_name() -> (name: &'static str)
    ensures
        name@ == "baseproject"@,
{
    "baseproject"
}

/// What came of reading the backing file.
#[derive(Debug)]
pub enum ReadOutcome {
    /// There is no file yet.
    Absent,
    /// The directory that should hold the file could not be made or entered.
    DirectoryUnavailable,
    /// The file is there but could not be read.
    Unreadable,
    /// The file was read and is not a structured value.
    Unparseable,
    /// The file was read and holds this value.
    Parsed(RawValue),
}

/// Why a document could not be opened.
#[derive(Clone, Copy, Debug, PartialEq, Eq, Structural)]
pub enum OpenError {
    /// The directory that should hold the file could not be made or entered.
    DirectoryUnavailable,
    /// The file could not be read.
    Unreadable,
    /// The file does not hold a structured value.
    Unparseable,
    /// The file holds a value that is not a record.
    NotARecord,
    /// The file holds a record in which a key occurs twice.
    DuplicateKey,
}

impl OpenError {
    /// Whether the failure lies in reaching the file rather than in what it holds.
    pub open spec fn is_io(self) -> bool {
        self is DirectoryUnavailable || self is Unreadable
    }

    /// Whether the failure lies in reaching the file rather than in what it holds.
    pub fn io(self) -> (yes: bool)
        ensures
            yes == self.is_io(),
    {
        match self {
            OpenError::DirectoryUnavailable => true,
            OpenError::Unreadable => true,
            _ => false,
        }
    }
}

/// The document in memory. No key occurs twice.
#[derive(Debug, PartialEq, Eq)]
pub struct ConfigDocument {
    entries: Vec<Member>,
}

/// A document that was opened whatever the file was like.
#[derive(Debug)]
pub struct Opened {
    /// The document: what the file held, or nothing.
    pub document: ConfigDocument,
    /// Whether saving can reach the disk.
    pub persistent: bool,
    /// Why the document starts empty although a file should have been read.
    pub diagnostic: Option<OpenError>,
}

impl View for ConfigDocument {
    type V = Seq<(Seq<char>, RawView)>;

    /// The entries in stored order, each as its key and the view of its value.
    closed spec fn view(&self) -> Seq<(Seq<char>, RawView)> {
        members_view(self.entries@)
    }
}

impl Clone for ConfigDocument {
    fn clone(&self) -> (copy: ConfigDocument)
        ensures
            copy@ == self@,
            copy.wf(),
    {
        proof {
            use_type_invariant(self);
        }
        ConfigDocument { entries: clone_members(&self.entries) }
    }
}

/// The document that an outcome of reading opens, or why it opens none.
pub open spec fn open_result(outcome: ReadOutcome) -> Result<Seq<(Seq<char>, RawView)>, OpenError> {
    match outcome {
        ReadOutcome::Absent => Ok(Seq::empty()),
        ReadOutcome::DirectoryUnavailable => Err(OpenError::DirectoryUnavailable),
        ReadOutcome::Unreadable => Err(OpenError::Unreadable),
        ReadOutcome::Unparseable => Err(OpenError::Unparseable),
        ReadOutcome::Parsed(raw) => root_result(raw@),
    }
}

/// The entries of the document that is opened whatever the file was like:
/// what the file held, or nothing.
pub open spec fn opened_fields(outcome: ReadOutcome) -> Seq<(Seq<char>, RawView)> {
    match open_result(outcome) {
        Ok(fields) => fields,
        Err(_) => Seq::empty(),
    }
}

/// The document that a root value holds, or why it holds none.
pub open spec fn root_result(root: RawView) -> Result<Seq<(Seq<char>, RawView)>, OpenError> {
    match root {
        RawView::Record(fields) => if distinct_names(fields) {
            Ok(fields)
        } else {
            Err(OpenError::DuplicateKey)
        },
        _ => Err(OpenError::NotARecord),
    }
}

/// Whether no two entries of `members` share a name.
fn names_distinct(members: &Vec<Member>) -> (ok: bool)
    ensures
        ok == distinct_names(members_view(members@)),
{
    let ghost fields = members_view(members@);
    let mut i: usize = 0;
    while i < members.len()
        invariant
            i <= members.len(),
            fields == members_view(members@),
            forall|a: int, b: int|
                0 <= a < b < i ==> (#[trigger] fields[a]).0 != (#[trigger] fields[b]).0,
        decreases members.len() - i,
    {
        let mut j: usize = 0;
        while j < i
            invariant
                j <= i,
                i < members.len(),
                fields == members_view(members@),
                forall|a: int| 0 <= a < j ==> (#[trigger] fields[a]).0 != fields[i as int].0,
            decreases i - j,
        {
            if text_eq(members[j].name.as_str(), members[i].name.as_str()) {
                assert(fields[j as int].0 == fields[i as int].0);
                return false;
            }
            j += 1;
        }
        i += 1;
    }
    true
}

impl ConfigDocument {
    #[verifier::type_invariant]
    spec fn keys_distinct(&self) -> bool {
        distinct_names(members_view(self.entries@))
    }

    /// No key occurs twice. This holds of every document that the program holds.
    pub open spec fn wf(&self) -> bool {
        distinct_names(self@)
    }

    /// The value stored under `key`, if there is one.
    pub open spec fn value_of(&self, key: Seq<char>) -> Option<RawView> {
        lookup(self@, key)
    }

    /// The document as a mapping from key to value.
    pub open spec fn mapping(&self) -> Map<Seq<char>, RawView> {
        mapping(self@)
    }

    /// A document without entries.
    pub fn new() -> (doc: ConfigDocument)
        ensures
            doc@ == Seq::<(Seq<char>, RawView)>::empty(),
            doc.wf(),
    {
        let doc = ConfigDocument { entries: Vec::new() };
        assert(doc@ =~= Seq::<(Seq<char>, RawView)>::empty());
        doc
    }

    /// The number of entries.
    pub fn len(&self) -> (n: usize)
        ensures
            n == self@.len(),
    {
        self.entries.len()
    }

    /// The entries in stored order.
    pub fn entries(&self) -> (entries: &Vec<Member>)
        ensures
            members_view(entries@) == self@,
            self.wf(),
    {
        proof {
            use_type_invariant(self);
        }
        &self.entries
    }

    /// Whether a value is stored under `key`.
    pub fn has(&self, key: &str) -> (yes: bool)
        ensures
            yes == (self.value_of(key@) is Some),
            self.wf(),
    {
        proof {
            use_type_invariant(self);
        }
        find_member(&self.entries, key).is_some()
    }

    /// The value stored under `key`, as it is: nothing is read into it.
    pub fn get(&self, key: &str) -> (found: Option<&RawValue>)
        ensures
            match found {
                Some(v) => self.value_of(key@) == Some(v@),
                None => self.value_of(key@) is None,
            },
            self.wf(),
    {
        proof {
            use_type_invariant(self);
        }
        match find_member(&self.entries, key) {
            Some(i) => Some(&self.entries[i].value),
            None => None,
        }
    }

    /// Stores `value` under `key`, in the place of the value that was there
    /// or as a new last entry. Only the document in memory changes.
    pub fn set(&mut self, key: &str, value: RawValue)
        ensures
            final(self)@ == upsert(old(self)@, key@, value@),
            final(self).mapping() == old(self).mapping().insert(key@, value@),
            final(self).wf(),
    {
        proof {
            use_type_invariant(&*self);
            lemma_upsert_distinct(self@, key@, value@);
            lemma_upsert_mapping(self@, key@, value@);
        }
        let ghost before = self@;
        let mut entries: Vec<Member> = Vec::new();
        std::mem::swap(&mut self.entries, &mut entries);
        match find_member(&entries, key) {
            Some(i) => {
                entries.set(i, Member::new(key, value));
            },
            None => {
                entries.push(Member::new(key, value));
            },
        }
        assert(members_view(entries@) =~= upsert(before, key@, value@));
        std::mem::swap(&mut self.entries, &mut entries);
    }

    /// The document that a root value holds: the root must be a record in
    /// which no key occurs twice.
    pub fn from_root(root: RawValue) -> (r: Result<ConfigDocument, OpenError>)
        ensures
            match r {
                Ok(doc) => root_result(root@) == Ok::<Seq<(Seq<char>, RawView)>, OpenError>(doc@)
                    && doc.wf(),
                Err(e) => root_result(root@) == Err::<Seq<(Seq<char>, RawView)>, OpenError>(e),
            },
    {
        match root {
            RawValue::Record(members) => {
                if names_distinct(&members) {
                    Ok(ConfigDocument { entries: members })
                } else {
                    Err(OpenError::DuplicateKey)
                }
            },
            _ => Err(OpenError::NotARecord),
        }
    }

    /// The root value that holds the whole document, as it is to be written.
    pub fn to_root(&self) -> (root: RawValue)
        ensures
            root@ == RawView::Record(self@),
    {
        RawValue::Record(clone_members(&self.entries))
    }

    /// Opens the document from what reading the file gave. A file that is
    /// not there yet opens an empty document; nothing is written.
    pub fn open(outcome: ReadOutcome) -> (r: Result<ConfigDocument, OpenError>)
        ensures
            match r {
                Ok(doc) => open_result(outcome) == Ok::<Seq<(Seq<char>, RawView)>, OpenError>(doc@)
                    && doc.wf(),
                Err(e) => open_result(outcome) == Err::<Seq<(Seq<char>, RawView)>, OpenError>(e),
            },
    {
        match outcome {
            ReadOutcome::Absent => Ok(ConfigDocument::new()),
            ReadOutcome::DirectoryUnavailable => Err(OpenError::DirectoryUnavailable),
            ReadOutcome::Unreadable => Err(OpenError::Unreadable),
            ReadOutcome::Unparseable => Err(OpenError::Unparseable),
            ReadOutcome::Parsed(raw) => ConfigDocument::from_root(raw),
        }
    }

    /// Opens the document and never fails: where `open` fails, the document
    /// starts empty and the failure is handed back to be reported. Only a
    /// directory that cannot be had leaves the document without a file behind it.
    pub fn open_or_fresh(outcome: ReadOutcome) -> (opened: Opened)
        ensures
            opened.document.wf(),
            opened.document@ == opened_fields(outcome),
            opened.diagnostic == (match open_result(outcome) {
                Ok(_) => None,
                Err(e) => Some(e),
            }),
            opened.persistent == !(outcome is DirectoryUnavailable),
    {
        let persistent = match &outcome {
            ReadOutcome::DirectoryUnavailable => false,
            _ => true,
        };
        match ConfigDocument::open(outcome) {
            Ok(document) => Opened { document, persistent, diagnostic: None },
            Err(e) => Opened { document: ConfigDocument::new(), persistent, diagnostic: Some(e) },
        }
    }
}

/// What was stored under a key is found under it after the document was
/// written out as a root value and opened again from that value; and every
/// other key holds what it held.
pub proof fn lemma_set_save_open_get(
    doc: Seq<(Seq<char>, RawView)>,
    key: Seq<char>,
    value: RawView,
    other: Seq<char>,
)
    requires
        distinct_names(doc),
    ensures
        root_result(RawView::Record(upsert(doc, key, value))) matches Ok(reopened) && {
            &&& reopened == upsert(doc, key, value)
            &&& lookup(reopened, key) == Some(value)
            &&& other != key ==> lookup(reopened, other) == lookup(doc, other)
        },
{
    lemma_upsert_distinct(doc, key, value);
    lemma_lookup_upsert(doc, key, value, key);
    lemma_lookup_upsert(doc, key, value, other);
}

} // verus!
