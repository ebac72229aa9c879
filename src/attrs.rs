//! Attribute values of chart features, the named fields of one feature, and
//! ordered key-to-value maps of attributes.

use vstd::prelude::*;
use vstd::string::*;
use crate::depth::Real;

verus! {

/// One attribute value as the chart reader hands it over; a date or a
/// date-time is a `Stamp` holding its text.
///
/// A real that is not finite has no exact value and arrives as `Null`; in a
/// list of reals it arrives as `None`.
#[derive(Debug)]
pub enum AttrValue {
    Null,
    Int(i64),
    Real(Real),
    Text(String),
    IntList(Vec<i64>),
    RealList(Vec<Option<Real>>),
    TextList(Vec<String>),
    Stamp(String),
}

/// What an `AttrValue` holds, with strings and lists as sequences.
pub enum AttrValueView {
    Null,
    Int(i64),
    Real(Real),
    Text(Seq<char>),
    IntList(Seq<i64>),
    RealList(Seq<Option<Real>>),
    TextList(Seq<Seq<char>>),
    Stamp(Seq<char>),
}

/// The characters of each string of a list.
pub open spec fn texts_view(v: Seq<String>) -> Seq<Seq<char>> {
    v.map_values(|s: String| s@)
}

impl View for AttrValue {
    type V = AttrValueView;

    open spec fn view(&self) -> AttrValueView {
        match self {
            AttrValue::Null => AttrValueView::Null,
            AttrValue::Int(i) => AttrValueView::Int(*i),
            AttrValue::Real(r) => AttrValueView::Real(*r),
            AttrValue::Text(s) => AttrValueView::Text(s@),
            AttrValue::IntList(v) => AttrValueView::IntList(v@),
            AttrValue::RealList(v) => AttrValueView::RealList(v@),
            AttrValue::TextList(v) => AttrValueView::TextList(texts_view(v@)),
            AttrValue::Stamp(s) => AttrValueView::Stamp(s@),
        }
    }
}

/// The number a value reads as: an integer or a real (`as_f64` of a JSON value).
pub open spec fn real_of(v: AttrValueView) -> Option<Real> {
    match v {
        AttrValueView::Int(i) => Some(Real { mantissa: i, exponent: 0 }),
        AttrValueView::Real(r) => Some(r),
        _ => None,
    }
}

/// The integer a value reads as (`as_i64` of a JSON value).
pub open spec fn int_of(v: AttrValueView) -> Option<i64> {
    match v {
        AttrValueView::Int(i) => Some(i),
        _ => None,
    }
}

/// The text a value reads as (`as_str` of a JSON value).
pub open spec fn text_of(v: AttrValueView) -> Option<Seq<char>> {
    match v {
        AttrValueView::Text(s) => Some(s),
        _ => None,
    }
}

fn copy_ints(v: &Vec<i64>) -> (r: Vec<i64>)
    ensures
        r@ == v@,
{
    let mut r: Vec<i64> = Vec::new();
    let mut i: usize = 0;
    while i < v.len()
        invariant
            i <= v@.len(),
            r@ == v@.subrange(0, i as int),
        decreases v@.len() - i,
    {
        r.push(v[i]);
        i = i + 1;
    }
    assert(r@ =~= v@);
    r
}

fn copy_reals(v: &Vec<Option<Real>>) -> (r: Vec<Option<Real>>)
    ensures
        r@ == v@,
{
    let mut r: Vec<Option<Real>> = Vec::new();
    let mut i: usize = 0;
    while i < v.len()
        invariant
            i <= v@.len(),
            r@ == v@.subrange(0, i as int),
        decreases v@.len() - i,
    {
        r.push(v[i]);
        i = i + 1;
    }
    assert(r@ =~= v@);
    r
}

fn copy_texts(v: &Vec<String>) -> (r: Vec<String>)
    ensures
        texts_view(r@) == texts_view(v@),
{
    let mut r: Vec<String> = Vec::new();
    let mut i: usize = 0;
    while i < v.len()
        invariant
            i <= v@.len(),
            texts_view(r@) == texts_view(v@.subrange(0, i as int)),
        decreases v@.len() - i,
    {
        let s = v[i].clone();
        r.push(s);
        assert(texts_view(v@.subrange(0, i + 1)) =~= texts_view(v@.subrange(0, i as int)).push(s@));
        assert(texts_view(r@) =~= texts_view(v@.subrange(0, i as int)).push(s@));
        i = i + 1;
    }
    assert(v@.subrange(0, v@.len() as int) =~= v@);
    r
}

impl AttrValue {
    /// A copy of this value.
    pub fn duplicate(&self) -> (r: AttrValue)
        ensures
            r@ == self@,
    {
        match self {
            AttrValue::Null => AttrValue::Null,
            AttrValue::Int(i) => AttrValue::Int(*i),
            AttrValue::Real(x) => AttrValue::Real(*x),
            AttrValue::Text(s) => AttrValue::Text(s.clone()),
            AttrValue::IntList(v) => AttrValue::IntList(copy_ints(v)),
            AttrValue::RealList(v) => AttrValue::RealList(copy_reals(v)),
            AttrValue::TextList(v) => {
                let c = copy_texts(v);
                AttrValue::TextList(c)
            },
            AttrValue::Stamp(s) => AttrValue::Stamp(s.clone()),
        }
    }

    /// The number this value reads as, if it is an integer or a real.
    pub fn as_real(&self) -> (r: Option<Real>)
        ensures
            r == real_of(self@),
    {
        match self {
            AttrValue::Int(i) => Some(Real::from_int(*i)),
            AttrValue::Real(x) => Some(*x),
            _ => None,
        }
    }

    /// The integer this value reads as, if it is one.
    pub fn as_int(&self) -> (r: Option<i64>)
        ensures
            r == int_of(self@),
    {
        match self {
            AttrValue::Int(i) => Some(*i),
            _ => None,
        }
    }

    /// The text this value reads as, if it is one.
    pub fn as_text(&self) -> (r: Option<String>)
        ensures
            r.is_some() == text_of(self@).is_some(),
            r matches Some(s) ==> text_of(self@) == Some(s@),
    {
        match self {
            AttrValue::Text(s) => Some(s.clone()),
            _ => None,
        }
    }
}

/// The value as it is stored in a structured attribute: a date or a
/// date-time becomes its text, every other value stays as it is.
pub open spec fn json_view(v: AttrValueView) -> AttrValueView {
    match v {
        AttrValueView::Stamp(s) => AttrValueView::Text(s),
        _ => v,
    }
}

/// Convert a field value to the value stored for it in an attribute map.
pub fn field_value_to_json(v: &AttrValue) -> (r: Option<AttrValue>)
    ensures
        r matches Some(j) && j@ == json_view(v@),
{
    match v {
        AttrValue::Stamp(s) => Some(AttrValue::Text(s.clone())),
        _ => Some(v.duplicate()),
    }
}

/// ASCII upper-case letters are folded to lower case; every other character
/// keeps its code.
pub open spec fn folded_code(c: char) -> int {
    if 'A' <= c <= 'Z' {
        c as int + 32
    } else {
        c as int
    }
}

/// The two texts are equal when ASCII letters are compared without case.
pub open spec fn same_ignoring_case(a: Seq<char>, b: Seq<char>) -> bool {
    &&& a.len() == b.len()
    &&& forall|i: int| 0 <= i < a.len() ==> folded_code(#[trigger] a[i]) == folded_code(b[i])
}

/// Compare two texts with ASCII letters taken without case.
pub fn eq_ignore_ascii_case(a: &str, b: &str) -> (r: bool)
    ensures
        r == same_ignoring_case(a@, b@),
{
    let n = a.unicode_len();
    if n != b.unicode_len() {
        return false;
    }
    let mut i: usize = 0;
    while i < n
        invariant
            n == a@.len() == b@.len(),
            i <= n,
            forall|j: int| 0 <= j < i ==> folded_code(#[trigger] a@[j]) == folded_code(b@[j]),
        decreases n - i,
    {
        let x = a.get_char(i) as u32;
        let y = b.get_char(i) as u32;
        let fx = if 65 <= x && x <= 90 { x + 32 } else { x };
        let fy = if 65 <= y && y <= 90 { y + 32 } else { y };
        if fx != fy {
            assert(folded_code(a@[i as int]) != folded_code(b@[i as int]));
            return false;
        }
        i = i + 1;
    }
    true
}

/// The upper-case form of a text, as `str::to_uppercase` gives it.
pub uninterp spec fn upper_of(s: Seq<char>) -> Seq<char>;

/// The character is ASCII.
pub open spec fn is_ascii_char(c: char) -> bool {
    (c as int) < 128
}

/// ASCII lower-case letters mapped to upper case; other characters kept.
pub open spec fn ascii_upper_char(c: char) -> char {
    if 'a' <= c <= 'z' {
        ((c as int) - 32) as char
    } else {
        c
    }
}

/// Relies on `str::to_uppercase` (std): its result depends on the
/// characters of the text alone; an empty text stays empty, and an ASCII
/// text has its letters a-z mapped to A-Z and nothing else changed.
#[verifier::external_body]
pub(crate) fn to_upper(s: &str) -> (r: String)
    ensures
        r@ == upper_of(s@),
        s@.len() == 0 ==> r@.len() == 0,
        (forall|i: int| 0 <= i < s@.len() ==> is_ascii_char(#[trigger] s@[i])) ==> r@ == s@.map_values(
            |c: char| ascii_upper_char(c),
        ),
{
    s.to_uppercase()
}

/// The integer a field value reads as when it must fit 32 bits.
pub open spec fn int32_of(v: AttrValueView) -> Option<i32> {
    match v {
        AttrValueView::Int(i) => if i32::MIN <= i <= i32::MAX {
            Some(i as i32)
        } else {
            None
        },
        _ => None,
    }
}

/// The integer a field value reads as when it must fit 32 bits.
pub fn field_int32(v: &AttrValue) -> (r: Option<i32>)
    ensures
        r == int32_of(v@),
{
    match v {
        AttrValue::Int(i) => if i32::MIN as i64 <= *i && *i <= i32::MAX as i64 {
            Some(*i as i32)
        } else {
            None
        },
        _ => None,
    }
}

/// One named field of a chart feature.
#[derive(Debug)]
pub struct Field {
    pub name: String,
    pub value: AttrValue,
}

/// The position of the first field at or after `i` whose name is `name`
/// (ASCII letters without case), or -1.
pub open spec fn field_pos_from(fields: Seq<Field>, name: Seq<char>, i: int) -> int
    decreases fields.len() - i,
{
    if i < 0 || i >= fields.len() {
        -1
    } else if same_ignoring_case(fields[i].name@, name) {
        i
    } else {
        field_pos_from(fields, name, i + 1)
    }
}

/// The value of the first field named `name`, if any.
pub open spec fn field_value(fields: Seq<Field>, name: Seq<char>) -> Option<AttrValueView> {
    let p = field_pos_from(fields, name, 0);
    if p >= 0 {
        Some(fields[p].value@)
    } else {
        None
    }
}

proof fn lemma_field_pos_range(fields: Seq<Field>, name: Seq<char>, i: int)
    ensures
        field_pos_from(fields, name, i) == -1 || (i <= field_pos_from(fields, name, i) < fields.len()),
    decreases fields.len() - i,
{
    if 0 <= i < fields.len() && !same_ignoring_case(fields[i].name@, name) {
        lemma_field_pos_range(fields, name, i + 1);
    }
}

/// The position of the first field named `name` (ASCII letters without case).
pub fn find_field(fields: &Vec<Field>, name: &str) -> (r: Option<usize>)
    ensures
        match r {
            Some(p) => p as int == field_pos_from(fields@, name@, 0),
            None => field_pos_from(fields@, name@, 0) == -1,
        },
        r matches Some(p) ==> p < fields@.len(),
{
    let mut i: usize = 0;
    while i < fields.len()
        invariant
            i <= fields@.len(),
            field_pos_from(fields@, name@, 0) == field_pos_from(fields@, name@, i as int),
        decreases fields@.len() - i,
    {
        if eq_ignore_ascii_case(fields[i].name.as_str(), name) {
            return Some(i);
        }
        i = i + 1;
    }
    None
}

/// One entry of an attribute map.
#[derive(Debug)]
pub struct Attr {
    pub key: String,
    pub value: AttrValue,
}

/// The position of the first entry at or after `i` whose key is `key`, or -1.
pub open spec fn key_pos_from(entries: Seq<Attr>, key: Seq<char>, i: int) -> int
    decreases entries.len() - i,
{
    if i < 0 || i >= entries.len() {
        -1
    } else if entries[i].key@ == key {
        i
    } else {
        key_pos_from(entries, key, i + 1)
    }
}

/// An ordered map from attribute names to values: each key stands once, in
/// the order in which it was first inserted.
#[derive(Debug)]
pub struct Attrs {
    pub entries: Vec<Attr>,
}

/// The entries of an attribute map as (key, value) pairs.
pub open spec fn entries_view(entries: Seq<Attr>) -> Seq<(Seq<char>, AttrValueView)> {
    entries.map_values(|a: Attr| (a.key@, a.value@))
}

impl View for Attrs {
    type V = Seq<(Seq<char>, AttrValueView)>;

    open spec fn view(&self) -> Seq<(Seq<char>, AttrValueView)> {
        entries_view(self.entries@)
    }
}

/// The position of the entry with key `key`, where there is one.
pub open spec fn key_index(m: Seq<(Seq<char>, AttrValueView)>, key: Seq<char>) -> int {
    choose|i: int| 0 <= i < m.len() && (#[trigger] m[i]).0 == key
}

/// The value stored under `key`, if any.
pub open spec fn attrs_get(m: Seq<(Seq<char>, AttrValueView)>, key: Seq<char>) -> Option<AttrValueView> {
    if exists|i: int| 0 <= i < m.len() && (#[trigger] m[i]).0 == key {
        Some(m[key_index(m, key)].1)
    } else {
        None
    }
}

/// `m` with `key` bound to `value`: in place where the key stands, else at the end.
pub open spec fn attrs_insert(
    m: Seq<(Seq<char>, AttrValueView)>,
    key: Seq<char>,
    value: AttrValueView,
) -> Seq<(Seq<char>, AttrValueView)> {
    if exists|i: int| 0 <= i < m.len() && (#[trigger] m[i]).0 == key {
        m.update(key_index(m, key), (key, value))
    } else {
        m.push((key, value))
    }
}

/// No key stands twice.
pub open spec fn keys_unique(m: Seq<(Seq<char>, AttrValueView)>) -> bool {
    forall|i: int, j: int| 0 <= i < j < m.len() ==> (#[trigger] m[i]).0 != (#[trigger] m[j]).0
}

impl Attrs {
    /// Well-formed: no key stands twice.
    pub open spec fn wf(&self) -> bool {
        keys_unique(self@)
    }

    /// An empty map.
    pub fn new() -> (r: Attrs)
        ensures
            r@ == Seq::<(Seq<char>, AttrValueView)>::empty(),
            r.wf(),
    {
        let r = Attrs { entries: Vec::new() };
        assert(r@ =~= Seq::<(Seq<char>, AttrValueView)>::empty());
        r
    }

    /// The number of entries.
    pub fn len(&self) -> (r: usize)
        ensures
            r == self@.len(),
    {
        self.entries.len()
    }

    /// The position of the entry whose key is `key`, if any.
    pub fn position(&self, key: &str) -> (r: Option<usize>)
        requires
            self.wf(),
        ensures
            r.is_some() == (exists|i: int| 0 <= i < self@.len() && (#[trigger] self@[i]).0 == key@),
            r matches Some(p) ==> p < self@.len() && self@[p as int].0 == key@,
            r matches Some(p) ==> p == key_index(self@, key@),
    {
        let mut i: usize = 0;
        while i < self.entries.len()
            invariant
                i <= self.entries@.len(),
                self.wf(),
                forall|j: int| 0 <= j < i ==> (#[trigger] self@[j]).0 != key@,
            decreases self.entries@.len() - i,
        {
            if same_text(self.entries[i].key.as_str(), key) {
                proof {
                    assert(self@[i as int] == (self.entries@[i as int].key@, self.entries@[i as int].value@));
                    assert(self@[i as int].0 == key@);
                    let c = key_index(self@, key@);
                    assert(self@[c].0 == key@);
                    if c < i as int {
                        assert(self@[c].0 != self@[i as int].0);
                    } else if c > i as int {
                        assert(keys_unique(self@));
                        let ii = i as int;
                        assert(0 <= ii < c < self@.len());
                        assert(self@[ii].0 != self@[c].0);
                    }
                }
                return Some(i);
            }
            proof {
                assert(self@[i as int] == (self.entries@[i as int].key@, self.entries@[i as int].value@));
            }
            i = i + 1;
        }
        None
    }

    /// The value stored under `key`, if any.
    pub fn get(&self, key: &str) -> (r: Option<&AttrValue>)
        requires
            self.wf(),
        ensures
            r.is_some() == attrs_get(self@, key@).is_some(),
            r matches Some(v) ==> attrs_get(self@, key@) == Some(v@),
    {
        match self.position(key) {
            Some(p) => {
                assert(self@[p as int] == (self.entries@[p as int].key@, self.entries@[p as int].value@));
                Some(&self.entries[p].value)
            },
            None => None,
        }
    }

    /// Bind `key` to `value`, in place where the key stands, else at the end.
    pub fn insert(&mut self, key: String, value: AttrValue)
        requires
            old(self).wf(),
        ensures
            final(self)@ == attrs_insert(old(self)@, key@, value@),
            final(self).wf(),
    {
        let ghost kv = (key@, value@);
        match self.position(key.as_str()) {
            Some(p) => {
                self.entries.set(p, Attr { key, value });
                assert(self@ =~= old(self)@.update(p as int, kv));
            },
            None => {
                self.entries.push(Attr { key, value });
                assert(self@ =~= old(self)@.push(kv));
            },
        }
    }
}

/// Exact comparison of two texts.
pub fn same_text(a: &str, b: &str) -> (r: bool)
    ensures
        r == (a@ == b@),
{
    let n = a.unicode_len();
    if n != b.unicode_len() {
        return false;
    }
    let mut i: usize = 0;
    while i < n
        invariant
            n == a@.len() == b@.len(),
            i <= n,
            forall|j: int| 0 <= j < i ==> a@[j] == b@[j],
        decreases n - i,
    {
        if a.get_char(i) != b.get_char(i) {
            return false;
        }
        i = i + 1;
    }
    assert(a@ =~= b@);
    true
}

} // verus!
