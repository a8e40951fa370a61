//! Raw structured values: what a section of the configuration document holds
//! before it is given a shape.

use vstd::prelude::*;
use vstd::string::StringExecFns;
use vstd::string::StringSliceAdditionalSpecFns;
use vstd::utf8::encode_utf8_decode_utf8;

verus! {

/// One named entry of a record.
#[derive(Debug, PartialEq, Eq)]
pub struct Member {
    pub name: String,
    pub value: RawValue,
}

/// A structured value as it is stored in the document.
///
/// `Float` carries the bit pattern of an IEEE-754 double, so that a fractional
/// number passes through the document unchanged.
#[derive(Debug, PartialEq, Eq)]
pub enum RawValue {
    Null,
    Bool(bool),
    Unsigned(u64),
    Signed(i64),
    Float(u64),
    Text(String),
    List(Vec<RawValue>),
    Record(Vec<Member>),
}

/// The mathematical value that a `RawValue` stands for. Whole numbers are
/// one kind, whichever machine type carried them; a record is the sequence
/// of its named entries in stored order.
pub enum RawView {
    Null,
    Bool(bool),
    Integer(int),
    Float(u64),
    Text(Seq<char>),
    List(Seq<RawView>),
    Record(Seq<(Seq<char>, RawView)>),
}

/// The values of a list, each taken by its view.
pub open spec fn list_view(items: Seq<RawValue>) -> Seq<RawView>
    decreases items,
{
    Seq::new(
        items.len(),
        |i: int|
            if 0 <= i < items.len() {
                items[i]@
            } else {
                RawView::Null
            },
    )
}

/// The entries of a record, each as its name and the view of its value.
pub open spec fn members_view(members: Seq<Member>) -> Seq<(Seq<char>, RawView)>
    decreases members,
{
    Seq::new(
        members.len(),
        |i: int|
            if 0 <= i < members.len() {
                (members[i].name@, members[i].value@)
            } else {
                (Seq::empty(), RawView::Null)
            },
    )
}

impl View for RawValue {
    type V = RawView;

    open spec fn view(&self) -> RawView
        decreases self,
    {
        match self {
            RawValue::Null => RawView::Null,
            RawValue::Bool(b) => RawView::Bool(*b),
            RawValue::Unsigned(n) => RawView::Integer(*n as int),
            RawValue::Signed(n) => RawView::Integer(*n as int),
            RawValue::Float(bits) => RawView::Float(*bits),
            RawValue::Text(s) => RawView::Text(s@),
            RawValue::List(items) => RawView::List(list_view(items@)),
            RawValue::Record(members) => RawView::Record(members_view(members@)),
        }
    }
}

/// The position of the first entry called `name`, if there is one.
pub open spec fn index_of(fields: Seq<(Seq<char>, RawView)>, name: Seq<char>) -> Option<int>
    decreases fields.len(),
{
    if fields.len() == 0 {
        None
    } else if fields[0].0 == name {
        Some(0)
    } else {
        match index_of(fields.drop_first(), name) {
            Some(i) => Some(i + 1),
            None => None,
        }
    }
}

/// The value of the first entry called `name`, if there is one.
pub open spec fn lookup(fields: Seq<(Seq<char>, RawView)>, name: Seq<char>) -> Option<RawView> {
    match index_of(fields, name) {
        Some(i) => Some(fields[i].1),
        None => None,
    }
}

/// No two entries share a name.
pub open spec fn distinct_names(fields: Seq<(Seq<char>, RawView)>) -> bool {
    forall|i: int, j: int|
        0 <= i < j < fields.len() ==> (#[trigger] fields[i]).0 != (#[trigger] fields[j]).0
}

/// `index_of` finds an entry of that name with none before it, and finds
/// nothing only where no entry has the name.
pub proof fn lemma_index_of(fields: Seq<(Seq<char>, RawView)>, name: Seq<char>)
    ensures
        match index_of(fields, name) {
            Some(i) => {
                &&& 0 <= i < fields.len()
                &&& fields[i].0 == name
                &&& forall|j: int| 0 <= j < i ==> (#[trigger] fields[j]).0 != name
            },
            None => forall|j: int| 0 <= j < fields.len() ==> (#[trigger] fields[j]).0 != name,
        },
    decreases fields.len(),
{
    if fields.len() > 0 && fields[0].0 != name {
        let rest = fields.drop_first();
        lemma_index_of(rest, name);
        assert(forall|j: int| 0 < j < fields.len() ==> fields[j] == rest[j - 1]);
        match index_of(rest, name) {
            Some(i) => {
                assert forall|j: int| 0 <= j < i + 1 implies (#[trigger] fields[j]).0 != name by {
                    if j > 0 {
                        assert(fields[j] == rest[j - 1]);
                    }
                }
            },
            None => {
                assert forall|j: int| 0 <= j < fields.len() implies (#[trigger] fields[j]).0
                    != name by {
                    if j > 0 {
                        assert(fields[j] == rest[j - 1]);
                    }
                }
            },
        }
    }
}

/// An entry of the name with none before it is the one that `index_of` finds.
pub proof fn lemma_index_of_first(fields: Seq<(Seq<char>, RawView)>, name: Seq<char>, at: int)
    requires
        0 <= at < fields.len(),
        fields[at].0 == name,
        forall|j: int| 0 <= j < at ==> (#[trigger] fields[j]).0 != name,
    ensures
        index_of(fields, name) == Some(at),
        lookup(fields, name) == Some(fields[at].1),
{
    lemma_index_of(fields, name);
}

/// Where no entry has the name, `index_of` finds nothing.
pub proof fn lemma_index_of_absent(fields: Seq<(Seq<char>, RawView)>, name: Seq<char>)
    requires
        forall|j: int| 0 <= j < fields.len() ==> (#[trigger] fields[j]).0 != name,
    ensures
        index_of(fields, name) is None,
        lookup(fields, name) is None,
{
    lemma_index_of(fields, name);
}

/// The entries with `value` under `name`: in the place of the entry that had
/// the name, or after the others where none had it.
pub open spec fn upsert(fields: Seq<(Seq<char>, RawView)>, name: Seq<char>, value: RawView) -> Seq<
    (Seq<char>, RawView),
> {
    match index_of(fields, name) {
        Some(i) => fields.update(i, (name, value)),
        None => fields.push((name, value)),
    }
}

/// After an entry is added at the end, a name that was found is found as
/// before, the new name is found with the new value, and no other is found.
pub proof fn lemma_lookup_push(
    fields: Seq<(Seq<char>, RawView)>,
    name: Seq<char>,
    value: RawView,
    other: Seq<char>,
)
    ensures
        lookup(fields.push((name, value)), other) == (if lookup(fields, other) is Some {
            lookup(fields, other)
        } else if other == name {
            Some(value)
        } else {
            None
        }),
{
    let longer = fields.push((name, value));
    lemma_index_of(fields, other);
    match index_of(fields, other) {
        Some(i) => {
            lemma_index_of_first(longer, other, i);
        },
        None => {
            if other == name {
                lemma_index_of_first(longer, other, fields.len() as int);
            } else {
                lemma_index_of_absent(longer, other);
            }
        },
    }
}

/// After `upsert`, the name is found with the new value and every other name
/// is found as before.
pub proof fn lemma_lookup_upsert(
    fields: Seq<(Seq<char>, RawView)>,
    name: Seq<char>,
    value: RawView,
    other: Seq<char>,
)
    ensures
        lookup(upsert(fields, name, value), other) == (if other == name {
            Some(value)
        } else {
            lookup(fields, other)
        }),
{
    lemma_index_of(fields, name);
    lemma_index_of(fields, other);
    match index_of(fields, name) {
        Some(i) => {
            let changed = fields.update(i, (name, value));
            assert(forall|j: int| 0 <= j < fields.len() ==> (#[trigger] changed[j]).0 == fields[j].0);
            match index_of(fields, other) {
                Some(k) => {
                    lemma_index_of_first(changed, other, k);
                },
                None => {
                    lemma_index_of_absent(changed, other);
                },
            }
        },
        None => {
            lemma_lookup_push(fields, name, value, other);
        },
    }
}

/// The entries as a mapping: each name that occurs, with the value of its
/// first entry.
pub open spec fn mapping(fields: Seq<(Seq<char>, RawView)>) -> Map<Seq<char>, RawView> {
    Map::new(
        |name: Seq<char>| lookup(fields, name) is Some,
        |name: Seq<char>| lookup(fields, name)->Some_0,
    )
}

/// Read as a mapping, `upsert` is an insertion.
pub proof fn lemma_upsert_mapping(
    fields: Seq<(Seq<char>, RawView)>,
    name: Seq<char>,
    value: RawView,
)
    ensures
        mapping(upsert(fields, name, value)) == mapping(fields).insert(name, value),
{
    assert forall|other: Seq<char>|
        lookup(upsert(fields, name, value), other) == (if other == name {
            Some(value)
        } else {
            lookup(fields, other)
        }) by {
        lemma_lookup_upsert(fields, name, value, other);
    }
    assert(mapping(upsert(fields, name, value)) =~= mapping(fields).insert(name, value));
}

/// `upsert` keeps the names distinct.
pub proof fn lemma_upsert_distinct(
    fields: Seq<(Seq<char>, RawView)>,
    name: Seq<char>,
    value: RawView,
)
    requires
        distinct_names(fields),
    ensures
        distinct_names(upsert(fields, name, value)),
{
    lemma_index_of(fields, name);
    let after = upsert(fields, name, value);
    match index_of(fields, name) {
        Some(i) => {
            assert(forall|j: int| 0 <= j < fields.len() ==> (#[trigger] after[j]).0 == fields[j].0);
            assert forall|a: int, b: int| 0 <= a < b < after.len() implies (#[trigger] after[a]).0 != (
            #[trigger] after[b]).0 by {
                assert(fields[a].0 != fields[b].0);
            }
        },
        None => {
            assert forall|a: int, b: int| 0 <= a < b < after.len() implies (#[trigger] after[a]).0 != (
            #[trigger] after[b]).0 by {
                if b < fields.len() {
                    assert(fields[a].0 != fields[b].0);
                } else {
                    assert(fields[a].0 != name);
                }
            }
        },
    }
}

impl RawView {
    /// The value of the entry called `name`, where this is a record that has one.
    pub open spec fn member(self, name: Seq<char>) -> Option<RawView> {
        match self {
            RawView::Record(fields) => lookup(fields, name),
            _ => None,
        }
    }

    /// This value as a whole number that fits 32 unsigned bits.
    pub open spec fn as_u32(self) -> Option<u32> {
        match self {
            RawView::Integer(n) => if 0 <= n <= u32::MAX {
                Some(n as u32)
            } else {
                None
            },
            _ => None,
        }
    }

    /// This value as a whole number that fits 32 signed bits.
    pub open spec fn as_i32(self) -> Option<i32> {
        match self {
            RawView::Integer(n) => if i32::MIN <= n <= i32::MAX {
                Some(n as i32)
            } else {
                None
            },
            _ => None,
        }
    }

    /// This value as a truth value.
    pub open spec fn as_bool(self) -> Option<bool> {
        match self {
            RawView::Bool(b) => Some(b),
            _ => None,
        }
    }

    /// This value as text.
    pub open spec fn as_text(self) -> Option<Seq<char>> {
        match self {
            RawView::Text(s) => Some(s),
            _ => None,
        }
    }

    /// This value as a list.
    pub open spec fn as_list(self) -> Option<Seq<RawView>> {
        match self {
            RawView::List(items) => Some(items),
            _ => None,
        }
    }
}

/// Whether two pieces of text hold the same characters.
pub fn text_eq(a: &str, b: &str) -> (same: bool)
    ensures
        same == (a@ == b@),
{
    let left = a.as_bytes();
    let right = b.as_bytes();
    proof {
        encode_utf8_decode_utf8(a@);
        encode_utf8_decode_utf8(b@);
    }
    if left.len() != right.len() {
        return false;
    }
    let mut i: usize = 0;
    while i < left.len()
        invariant
            i <= left.len(),
            left.len() == right.len(),
            forall|k: int| 0 <= k < i ==> left@[k] == right@[k],
            left@ == a.spec_bytes(),
            right@ == b.spec_bytes(),
        decreases left.len() - i,
    {
        if left[i] != right[i] {
            return false;
        }
        i += 1;
    }
    assert(left@ =~= right@);
    true
}

/// The position of the first entry of `members` called `name`.
pub fn find_member(members: &Vec<Member>, name: &str) -> (found: Option<usize>)
    ensures
        match found {
            Some(i) => i < members.len() && index_of(members_view(members@), name@) == Some(
                i as int,
            ),
            None => index_of(members_view(members@), name@) is None,
        },
{
    let ghost fields = members_view(members@);
    let mut i: usize = 0;
    while i < members.len()
        invariant
            i <= members.len(),
            fields == members_view(members@),
            forall|j: int| 0 <= j < i ==> (#[trigger] fields[j]).0 != name@,
        decreases members.len() - i,
    {
        if text_eq(members[i].name.as_str(), name) {
            proof {
                lemma_index_of_first(fields, name@, i as int);
            }
            return Some(i);
        }
        i += 1;
    }
    proof {
        lemma_index_of_absent(fields, name@);
    }
    None
}

/// Adds an entry called `name` that holds `value` after the entries of `members`.
pub fn append_member(members: &mut Vec<Member>, name: &str, value: RawValue)
    ensures
        members_view(final(members)@) == members_view(old(members)@).push((name@, value@)),
{
    members.push(Member::new(name, value));
    assert(members_view(members@) =~= members_view(old(members)@).push((name@, value@)));
}

impl Member {
    /// An entry called `name` that holds `value`.
    pub fn new(name: &str, value: RawValue) -> (member: Member)
        ensures
            member.name@ == name@,
            member.value == value,
    {
        Member { name: String::from_str(name), value }
    }
}

impl Clone for Member {
    fn clone(&self) -> (copy: Self)
        ensures
            copy.name@ == self.name@,
            copy.value@ == self.value@,
        decreases self,
    {
        Member { name: self.name.clone(), value: self.value.clone() }
    }
}

/// A copy of each value of `items`, in order.
pub fn clone_list(items: &Vec<RawValue>) -> (copies: Vec<RawValue>)
    ensures
        list_view(copies@) == list_view(items@),
    decreases items,
{
    let mut copies: Vec<RawValue> = Vec::new();
    let mut i: usize = 0;
    while i < items.len()
        invariant
            i <= items.len(),
            copies.len() == i,
            forall|k: int| 0 <= k < i ==> (#[trigger] copies@[k])@ == items@[k]@,
        decreases items.len() - i,
    {
        copies.push(items[i].clone());
        i += 1;
    }
    assert(list_view(copies@) =~= list_view(items@));
    copies
}

/// A copy of each entry of `members`, in order.
pub fn clone_members(members: &Vec<Member>) -> (copies: Vec<Member>)
    ensures
        members_view(copies@) == members_view(members@),
    decreases members,
{
    let mut copies: Vec<Member> = Vec::new();
    let mut i: usize = 0;
    while i < members.len()
        invariant
            i <= members.len(),
            copies.len() == i,
            forall|k: int|
                0 <= k < i ==> (#[trigger] copies@[k]).name@ == members@[k].name@
                    && copies@[k].value@ == members@[k].value@,
        decreases members.len() - i,
    {
        copies.push(members[i].clone());
        i += 1;
    }
    assert(members_view(copies@) =~= members_view(members@));
    copies
}

impl Clone for RawValue {
    fn clone(&self) -> (copy: Self)
        ensures
            copy@ == self@,
        decreases self,
    {
        match self {
            RawValue::Null => RawValue::Null,
            RawValue::Bool(b) => RawValue::Bool(*b),
            RawValue::Unsigned(n) => RawValue::Unsigned(*n),
            RawValue::Signed(n) => RawValue::Signed(*n),
            RawValue::Float(bits) => RawValue::Float(*bits),
            RawValue::Text(s) => RawValue::Text(s.clone()),
            RawValue::List(items) => RawValue::List(clone_list(items)),
            RawValue::Record(members) => RawValue::Record(clone_members(members)),
        }
    }
}

impl RawValue {
    /// Whether this value is a record.
    pub fn is_record(&self) -> (yes: bool)
        ensures
            yes == (self@ is Record),
    {
        match self {
            RawValue::Record(_) => true,
            _ => false,
        }
    }

    /// A text value holding the characters of `s`.
    pub fn text(s: &str) -> (value: RawValue)
        ensures
            value@ == RawView::Text(s@),
    {
        RawValue::Text(String::from_str(s))
    }

    /// The value of the entry called `name`, where this is a record that has one.
    pub fn member(&self, name: &str) -> (found: Option<&RawValue>)
        ensures
            match found {
                Some(v) => self@.member(name@) == Some(v@),
                None => self@.member(name@) is None,
            },
    {
        match self {
            RawValue::Record(members) => {
                match find_member(members, name) {
                    Some(i) => Some(&members[i].value),
                    None => None,
                }
            },
            _ => None,
        }
    }

    /// This value as a whole number that fits 32 unsigned bits.
    pub fn as_u32(&self) -> (number: Option<u32>)
        ensures
            number == self@.as_u32(),
    {
        match self {
            RawValue::Unsigned(n) => if *n <= u32::MAX as u64 {
                Some(*n as u32)
            } else {
                None
            },
            RawValue::Signed(n) => if 0 <= *n && *n <= u32::MAX as i64 {
                Some(*n as u32)
            } else {
                None
            },
            _ => None,
        }
    }

    /// This value as a whole number that fits 32 signed bits.
    pub fn as_i32(&self) -> (number: Option<i32>)
        ensures
            number == self@.as_i32(),
    {
        match self {
            RawValue::Unsigned(n) => if *n <= i32::MAX as u64 {
                Some(*n as i32)
            } else {
                None
            },
            RawValue::Signed(n) => if i32::MIN as i64 <= *n && *n <= i32::MAX as i64 {
                Some(*n as i32)
            } else {
                None
            },
            _ => None,
        }
    }

    /// This value as a truth value.
    pub fn as_bool(&self) -> (flag: Option<bool>)
        ensures
            flag == self@.as_bool(),
    {
        match self {
            RawValue::Bool(b) => Some(*b),
            _ => None,
        }
    }

    /// This value as text.
    pub fn as_text(&self) -> (text: Option<&str>)
        ensures
            match text {
                Some(s) => self@.as_text() == Some(s@),
                None => self@.as_text() is None,
            },
    {
        match self {
            RawValue::Text(s) => Some(s.as_str()),
            _ => None,
        }
    }

    /// This value as a list.
    pub fn as_list(&self) -> (items: Option<&Vec<RawValue>>)
        ensures
            match items {
                Some(v) => self@.as_list() == Some(list_view(v@)),
                None => self@.as_list() is None,
            },
    {
        match self {
            RawValue::List(items) => Some(items),
            _ => None,
        }
    }
}

} // verus!
