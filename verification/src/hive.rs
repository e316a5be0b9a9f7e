//! A store held in memory.
//!
//! `Hive` answers the requests of the `registry` module as a store of keys
//! and typed values does: one root key, its children in the order in which
//! they were created, each with its values. It serves where the profiles are
//! not kept by the host, and it says what the requests mean: `answer` is the
//! store's behaviour as a function, and `Hive::perform` computes it.
//!
//! Names are compared character by character. A hive can refuse writing as a
//! whole, and a single key can refuse to be opened.

use vstd::prelude::*;
use crate::registry::{
    root_path, status_reply, RegReply, RegRequest, ReplyView, RequestView, ERROR_ACCESS_DENIED,
    ERROR_BAD_PATHNAME, ERROR_FILE_NOT_FOUND, ERROR_INVALID_HANDLE, ERROR_NOT_ENOUGH_MEMORY,
    ERROR_NO_MORE_ITEMS, ERROR_SUCCESS,
};
use crate::text::{chars_of, str_eq, string_from};
use crate::utf16::{encode, encode_utf16};

verus! {

/// One value of a key.
#[derive(Debug, PartialEq, Eq)]
pub struct HiveValue {
    pub name: String,
    pub kind: u32,
    pub data: Vec<u8>,
}

/// A value as a mathematical value.
pub struct ValueView {
    pub name: Seq<char>,
    pub kind: u32,
    pub data: Seq<u8>,
}

impl View for HiveValue {
    type V = ValueView;

    open spec fn view(&self) -> ValueView {
        ValueView { name: self.name@, kind: self.kind, data: self.data@ }
    }
}

/// The values of a vector as mathematical values.
pub open spec fn value_views(values: Seq<HiveValue>) -> Seq<ValueView> {
    values.map_values(|v: HiveValue| v@)
}

/// One child of the root.
#[derive(Debug, PartialEq, Eq)]
pub struct HiveKey {
    pub name: String,
    /// A locked key cannot be opened.
    pub locked: bool,
    pub values: Vec<HiveValue>,
}

/// A key as a mathematical value.
pub struct KeyView {
    pub name: Seq<char>,
    pub locked: bool,
    pub values: Seq<ValueView>,
}

impl View for HiveKey {
    type V = KeyView;

    open spec fn view(&self) -> KeyView {
        KeyView { name: self.name@, locked: self.locked, values: value_views(self.values@) }
    }
}

/// The keys of a vector as mathematical values.
pub open spec fn key_views(keys: Seq<HiveKey>) -> Seq<KeyView> {
    keys.map_values(|k: HiveKey| k@)
}

/// A store as a mathematical value: whether the root exists, whether writing
/// is refused, the children, and which keys are open.
pub struct HiveView {
    pub present: bool,
    pub read_only: bool,
    pub keys: Seq<KeyView>,
    pub root_open: bool,
    pub child_open: Option<int>,
}

/// The position of the first key named `name`.
pub open spec fn find_key(keys: Seq<KeyView>, name: Seq<char>) -> Option<int>
    decreases keys.len(),
{
    if keys.len() == 0 {
        None
    } else if keys.last().name == name && find_key(keys.drop_last(), name) is None {
        Some(keys.len() - 1)
    } else {
        find_key(keys.drop_last(), name)
    }
}

/// The position of the first value named `name`.
pub open spec fn find_value(values: Seq<ValueView>, name: Seq<char>) -> Option<int>
    decreases values.len(),
{
    if values.len() == 0 {
        None
    } else if values.last().name == name && find_value(values.drop_last(), name) is None {
        Some(values.len() - 1)
    } else {
        find_value(values.drop_last(), name)
    }
}

/// `find_key` finds the first key of that name, and nothing where no key has it.
pub proof fn lemma_find_key(keys: Seq<KeyView>, name: Seq<char>)
    ensures
        match find_key(keys, name) {
            Some(i) => 0 <= i < keys.len() && keys[i].name == name && forall|j: int|
                0 <= j < i ==> keys[j].name != name,
            None => forall|j: int| 0 <= j < keys.len() ==> keys[j].name != name,
        },
    decreases keys.len(),
{
    if keys.len() > 0 {
        let front = keys.drop_last();
        lemma_find_key(front, name);
        assert(forall|j: int| 0 <= j < front.len() ==> front[j] == keys[j]);
        match find_key(keys, name) {
            Some(i) => {
                assert(forall|j: int| 0 <= j < i ==> front[j].name != name);
            },
            None => {
                assert(find_key(front, name) is None);
                assert(keys.last().name != name);
                assert forall|j: int| 0 <= j < keys.len() implies keys[j].name != name by {
                    if j < front.len() {
                        assert(front[j].name != name);
                    }
                }
            },
        }
    }
}

/// `find_value` finds the first value of that name, and nothing where no
/// value has it.
pub proof fn lemma_find_value(values: Seq<ValueView>, name: Seq<char>)
    ensures
        match find_value(values, name) {
            Some(i) => 0 <= i < values.len() && values[i].name == name && forall|j: int|
                0 <= j < i ==> values[j].name != name,
            None => forall|j: int| 0 <= j < values.len() ==> values[j].name != name,
        },
    decreases values.len(),
{
    if values.len() > 0 {
        let front = values.drop_last();
        lemma_find_value(front, name);
        assert(forall|j: int| 0 <= j < front.len() ==> front[j] == values[j]);
        match find_value(values, name) {
            Some(i) => {
                assert(forall|j: int| 0 <= j < i ==> front[j].name != name);
            },
            None => {
                assert(find_value(front, name) is None);
                assert(values.last().name != name);
                assert forall|j: int| 0 <= j < values.len() implies values[j].name != name by {
                    if j < front.len() {
                        assert(front[j].name != name);
                    }
                }
            },
        }
    }
}

/// The first key of a name is what `find_key` finds.
pub proof fn lemma_find_key_is(keys: Seq<KeyView>, name: Seq<char>, i: int)
    requires
        0 <= i < keys.len(),
        keys[i].name == name,
        forall|j: int| 0 <= j < i ==> keys[j].name != name,
    ensures
        find_key(keys, name) == Some(i),
{
    lemma_find_key(keys, name);
    match find_key(keys, name) {
        Some(k) => {
            if k < i {
                assert(keys[k].name != name);
            }
        },
        None => {
            assert(keys[i].name != name);
        },
    }
}

/// Where no key has a name, `find_key` finds nothing.
pub proof fn lemma_find_key_none(keys: Seq<KeyView>, name: Seq<char>)
    requires
        forall|j: int| 0 <= j < keys.len() ==> keys[j].name != name,
    ensures
        find_key(keys, name) is None,
{
    lemma_find_key(keys, name);
    if let Some(k) = find_key(keys, name) {
        assert(keys[k].name != name);
    }
}

/// The first value of a name is what `find_value` finds.
pub proof fn lemma_find_value_is(values: Seq<ValueView>, name: Seq<char>, i: int)
    requires
        0 <= i < values.len(),
        values[i].name == name,
        forall|j: int| 0 <= j < i ==> values[j].name != name,
    ensures
        find_value(values, name) == Some(i),
{
    lemma_find_value(values, name);
    match find_value(values, name) {
        Some(k) => {
            if k < i {
                assert(values[k].name != name);
            }
        },
        None => {
            assert(values[i].name != name);
        },
    }
}

/// Where no value has a name, `find_value` finds nothing.
pub proof fn lemma_find_value_none(values: Seq<ValueView>, name: Seq<char>)
    requires
        forall|j: int| 0 <= j < values.len() ==> values[j].name != name,
    ensures
        find_value(values, name) is None,
{
    lemma_find_value(values, name);
    if let Some(k) = find_value(values, name) {
        assert(values[k].name != name);
    }
}

/// No two keys have the same name.
pub open spec fn names_unique(keys: Seq<KeyView>) -> bool {
    forall|i: int, j: int| 0 <= i < j < keys.len() ==> keys[i].name != keys[j].name
}

/// What holds of every hive: children have different names and are few
/// enough to be counted in 32 bits, a root that does not exist has no
/// children and is not open, and the open child is one of the children.
pub open spec fn hive_wf(h: HiveView) -> bool {
    &&& names_unique(h.keys)
    &&& h.keys.len() <= u32::MAX
    &&& !h.present ==> h.keys.len() == 0 && !h.root_open
    &&& h.child_open matches Some(i) ==> 0 <= i < h.keys.len()
}

/// Whether no key of the hive is open.
pub open spec fn hive_idle(h: HiveView) -> bool {
    !h.root_open && h.child_open is None
}

/// The values of a key after `name` was written: the value of that name
/// replaced, or a new value at the end.
pub open spec fn put_value(values: Seq<ValueView>, name: Seq<char>, kind: u32, data: Seq<u8>) -> Seq<
    ValueView,
> {
    match find_value(values, name) {
        Some(i) => values.update(i, ValueView { name, kind, data }),
        None => values.push(ValueView { name, kind, data }),
    }
}

/// The name of the child that `path` leads to: what follows the root's path
/// and a backslash, if that is not empty and holds no further backslash.
pub open spec fn child_of_path(path: Seq<char>) -> Option<Seq<char>> {
    let prefix = root_path() + seq!['\\'];
    let rest = path.subrange(prefix.len() as int, path.len() as int);
    if path.len() > prefix.len() && path.subrange(0, prefix.len() as int) == prefix && forall|i: int|
        0 <= i < rest.len() ==> rest[i] != '\\' {
        Some(rest)
    } else {
        None
    }
}

/// The reply that names a child.
pub open spec fn name_reply(name: Seq<char>) -> ReplyView {
    ReplyView { status: ERROR_SUCCESS, kind: 0, name: encode(name), data: Seq::empty() }
}

/// The reply that hands out a value.
pub open spec fn value_reply(value: ValueView) -> ReplyView {
    ReplyView { status: ERROR_SUCCESS, kind: value.kind, name: Seq::empty(), data: value.data }
}

/// The store's behaviour: the hive after a request, and the reply to it.
pub open spec fn answer(h: HiveView, request: RequestView) -> (HiveView, ReplyView) {
    match request {
        RequestView::OpenRoot { path, write } => {
            if path != root_path() || !h.present {
                (h, status_reply(ERROR_FILE_NOT_FOUND))
            } else if write && h.read_only {
                (h, status_reply(ERROR_ACCESS_DENIED))
            } else {
                (HiveView { root_open: true, ..h }, status_reply(ERROR_SUCCESS))
            }
        },
        RequestView::EnumChild { index } => {
            if !h.root_open {
                (h, status_reply(ERROR_INVALID_HANDLE))
            } else if index < h.keys.len() {
                (h, name_reply(h.keys[index as int].name))
            } else {
                (h, status_reply(ERROR_NO_MORE_ITEMS))
            }
        },
        RequestView::OpenChild { name } => {
            if !h.root_open {
                (h, status_reply(ERROR_INVALID_HANDLE))
            } else {
                match find_key(h.keys, name) {
                    None => (h, status_reply(ERROR_FILE_NOT_FOUND)),
                    Some(i) => {
                        if h.keys[i].locked {
                            (h, status_reply(ERROR_ACCESS_DENIED))
                        } else {
                            (HiveView { child_open: Some(i), ..h }, status_reply(ERROR_SUCCESS))
                        }
                    },
                }
            }
        },
        RequestView::QueryValue { name } => {
            match h.child_open {
                None => (h, status_reply(ERROR_INVALID_HANDLE)),
                Some(i) => {
                    match find_value(h.keys[i].values, name) {
                        None => (h, status_reply(ERROR_FILE_NOT_FOUND)),
                        Some(j) => (h, value_reply(h.keys[i].values[j])),
                    }
                },
            }
        },
        RequestView::CloseChild => {
            if h.child_open is None {
                (h, status_reply(ERROR_INVALID_HANDLE))
            } else {
                (HiveView { child_open: None, ..h }, status_reply(ERROR_SUCCESS))
            }
        },
        RequestView::CloseRoot => {
            if !h.root_open {
                (h, status_reply(ERROR_INVALID_HANDLE))
            } else {
                (HiveView { root_open: false, ..h }, status_reply(ERROR_SUCCESS))
            }
        },
        RequestView::CreateKey { path } => {
            if h.read_only {
                (h, status_reply(ERROR_ACCESS_DENIED))
            } else {
                match child_of_path(path) {
                    None => (h, status_reply(ERROR_BAD_PATHNAME)),
                    Some(name) => {
                        match find_key(h.keys, name) {
                            Some(i) => {
                                if h.keys[i].locked {
                                    (h, status_reply(ERROR_ACCESS_DENIED))
                                } else {
                                    (
                                        HiveView { child_open: Some(i), ..h },
                                        status_reply(ERROR_SUCCESS),
                                    )
                                }
                            },
                            None => {
                                if h.keys.len() >= u32::MAX {
                                    (h, status_reply(ERROR_NOT_ENOUGH_MEMORY))
                                } else {
                                    (
                                        HiveView {
                                            present: true,
                                            keys: h.keys.push(
                                                KeyView { name, locked: false, values: Seq::empty() },
                                            ),
                                            child_open: Some(h.keys.len() as int),
                                            ..h
                                        },
                                        status_reply(ERROR_SUCCESS),
                                    )
                                }
                            },
                        }
                    },
                }
            }
        },
        RequestView::SetValue { name, kind, data } => {
            match h.child_open {
                None => (h, status_reply(ERROR_INVALID_HANDLE)),
                Some(i) => {
                    if h.read_only {
                        (h, status_reply(ERROR_ACCESS_DENIED))
                    } else {
                        let key = h.keys[i];
                        (
                            HiveView {
                                keys: h.keys.update(
                                    i,
                                    KeyView { values: put_value(key.values, name, kind, data), ..key },
                                ),
                                ..h
                            },
                            status_reply(ERROR_SUCCESS),
                        )
                    }
                },
            }
        },
        RequestView::DeleteChild { name } => {
            if !h.root_open {
                (h, status_reply(ERROR_INVALID_HANDLE))
            } else if h.read_only {
                (h, status_reply(ERROR_ACCESS_DENIED))
            } else {
                match find_key(h.keys, name) {
                    None => (h, status_reply(ERROR_FILE_NOT_FOUND)),
                    Some(i) => (
                        HiveView { keys: h.keys.remove(i), child_open: None, ..h },
                        status_reply(ERROR_SUCCESS),
                    ),
                }
            }
        },
    }
}

/// A well-formed hive stays well-formed whatever is asked of it.
pub proof fn lemma_answer_wf(h: HiveView, request: RequestView)
    requires
        hive_wf(h),
    ensures
        hive_wf(answer(h, request).0),
{
    match request {
        RequestView::OpenChild { name } => {
            lemma_find_key(h.keys, name);
        },
        RequestView::CreateKey { path } => {
            if let Some(name) = child_of_path(path) {
                lemma_find_key(h.keys, name);
            }
        },
        RequestView::DeleteChild { name } => {
            lemma_find_key(h.keys, name);
        },
        _ => {},
    }
}

/// A store held in memory. A hive is always as `hive_wf` says.
#[derive(Debug, PartialEq, Eq)]
pub struct Hive {
    present: bool,
    read_only: bool,
    keys: Vec<HiveKey>,
    root_open: bool,
    child_open: Option<usize>,
}

impl View for Hive {
    type V = HiveView;

    closed spec fn view(&self) -> HiveView {
        HiveView {
            present: self.present,
            read_only: self.read_only,
            keys: key_views(self.keys@),
            root_open: self.root_open,
            child_open: match self.child_open {
                Some(i) => Some(i as int),
                None => None,
            },
        }
    }
}

/// The hive whose root does not exist yet.
pub open spec fn empty_hive() -> HiveView {
    HiveView {
        present: false,
        read_only: false,
        keys: Seq::empty(),
        root_open: false,
        child_open: None,
    }
}

/// A copy of `bytes`.
fn copy_bytes(bytes: &Vec<u8>) -> (out: Vec<u8>)
    ensures
        out@ == bytes@,
{
    let mut out: Vec<u8> = Vec::new();
    let mut i: usize = 0;
    while i < bytes.len()
        invariant
            i <= bytes.len(),
            out@ == bytes@.take(i as int),
        decreases bytes.len() - i,
    {
        out.push(bytes[i]);
        assert(out@ =~= bytes@.take(i + 1));
        i = i + 1;
    }
    assert(bytes@.take(bytes.len() as int) =~= bytes@);
    out
}

/// The position of the first key named `name`.
fn key_position(keys: &Vec<HiveKey>, name: &str) -> (found: Option<usize>)
    ensures
        match found {
            Some(i) => i < keys.len() && find_key(key_views(keys@), name@) == Some(i as int),
            None => find_key(key_views(keys@), name@) is None,
        },
{
    let mut i: usize = 0;
    while i < keys.len()
        invariant
            i <= keys.len(),
            forall|j: int| 0 <= j < i ==> key_views(keys@)[j].name != name@,
        decreases keys.len() - i,
    {
        if str_eq(keys[i].name.as_str(), name) {
            proof {
                lemma_find_key(key_views(keys@), name@);
                assert(key_views(keys@)[i as int].name == name@);
            }
            return Some(i);
        }
        assert(key_views(keys@)[i as int].name != name@);
        i = i + 1;
    }
    proof {
        lemma_find_key(key_views(keys@), name@);
    }
    None
}

/// The position of the first value named `name`.
fn value_position(values: &Vec<HiveValue>, name: &str) -> (found: Option<usize>)
    ensures
        match found {
            Some(i) => i < values.len() && find_value(value_views(values@), name@) == Some(i as int),
            None => find_value(value_views(values@), name@) is None,
        },
{
    let mut i: usize = 0;
    while i < values.len()
        invariant
            i <= values.len(),
            forall|j: int| 0 <= j < i ==> value_views(values@)[j].name != name@,
        decreases values.len() - i,
    {
        if str_eq(values[i].name.as_str(), name) {
            proof {
                lemma_find_value(value_views(values@), name@);
                assert(value_views(values@)[i as int].name == name@);
            }
            return Some(i);
        }
        assert(value_views(values@)[i as int].name != name@);
        i = i + 1;
    }
    proof {
        lemma_find_value(value_views(values@), name@);
    }
    None
}

/// Writes the value `name` among `values`.
fn put(values: &mut Vec<HiveValue>, name: &str, kind: u32, data: &Vec<u8>)
    ensures
        value_views(final(values)@) == put_value(value_views(old(values)@), name@, kind, data@),
{
    let value = HiveValue { name: name.to_owned(), kind, data: copy_bytes(data) };
    match value_position(values, name) {
        Some(i) => {
            values[i] = value;
            assert(value_views(values@) =~= value_views(old(values)@).update(i as int, value@));
        },
        None => {
            values.push(value);
            assert(value_views(values@) =~= value_views(old(values)@).push(value@));
        },
    }
}

/// The name of the child that `path` leads to.
fn child_name(path: &str) -> (name: Option<String>)
    ensures
        match name {
            Some(n) => child_of_path(path@) == Some(n@),
            None => child_of_path(path@) is None,
        },
{
    let whole = chars_of(path);
    let root = chars_of("Software\\MyDNSAdapter");
    let ghost prefix = root_path() + seq!['\\'];
    if root.len() >= usize::MAX || whole.len() <= root.len() + 1 {
        return None;
    }
    let start: usize = root.len() + 1;
    let ghost head = path@.subrange(0, start as int);
    let ghost rest = path@.subrange(start as int, path@.len() as int);
    let mut i: usize = 0;
    while i < root.len()
        invariant
            i <= root.len(),
            start == root.len() + 1,
            whole.len() > start,
            root@ == root_path(),
            whole@ == path@,
            prefix == root_path() + seq!['\\'],
            head == path@.subrange(0, start as int),
            forall|j: int| 0 <= j < i ==> whole@[j] == root@[j],
        decreases root.len() - i,
    {
        if whole[i] != root[i] {
            assert(head[i as int] != prefix[i as int]);
            return None;
        }
        i = i + 1;
    }
    if whole[root.len()] != '\\' {
        assert(head[root.len() as int] != prefix[root.len() as int]);
        return None;
    }
    assert(head =~= prefix);
    let mut k: usize = start;
    while k < whole.len()
        invariant
            start <= k <= whole.len(),
            whole@ == path@,
            start == prefix.len(),
            prefix == root_path() + seq!['\\'],
            head == path@.subrange(0, start as int),
            head == prefix,
            rest == path@.subrange(start as int, path@.len() as int),
            forall|j: int| 0 <= j < k - start ==> rest[j] != '\\',
        decreases whole.len() - k,
    {
        if whole[k] == '\\' {
            assert(rest[k - start] == '\\');
            return None;
        }
        k = k + 1;
    }
    Some(string_from(&whole, start, whole.len()))
}

impl Hive {
    /// A hive whose root does not exist yet.
    pub fn new() -> (hive: Hive)
        ensures
            hive@ == empty_hive(),
            hive_wf(hive@),
            hive_idle(hive@),
    {
        let hive = Hive {
            present: false,
            read_only: false,
            keys: Vec::new(),
            root_open: false,
            child_open: None,
        };
        assert(key_views(hive.keys@) =~= Seq::empty());
        hive
    }

    /// Whether the root key exists.
    pub fn is_present(&self) -> (yes: bool)
        ensures
            yes == self@.present,
    {
        self.present
    }

    /// Whether the hive refuses to be written.
    pub fn is_read_only(&self) -> (yes: bool)
        ensures
            yes == self@.read_only,
    {
        self.read_only
    }

    /// Whether no key of the hive is open.
    pub fn is_idle(&self) -> (yes: bool)
        ensures
            yes == hive_idle(self@),
    {
        !self.root_open && self.child_open.is_none()
    }

    /// The children of the root, in the order in which they are enumerated.
    pub fn keys(&self) -> (keys: &Vec<HiveKey>)
        ensures
            key_views(keys@) == self@.keys,
    {
        &self.keys
    }

    /// Makes the hive refuse writing, or accept it again.
    pub fn set_read_only(&mut self, read_only: bool)
        ensures
            final(self)@ == (HiveView { read_only, ..old(self)@ }),
            hive_wf(old(self)@) ==> hive_wf(final(self)@),
    {
        self.read_only = read_only;
    }

    /// Locks the key `name`, so that it cannot be opened, or unlocks it.
    /// Says whether there is such a key.
    pub fn set_locked(&mut self, name: &str, locked: bool) -> (found: bool)
        ensures
            match find_key(old(self)@.keys, name@) {
                Some(i) => found && final(self)@ == (HiveView {
                    keys: old(self)@.keys.update(i, KeyView { locked, ..old(self)@.keys[i] }),
                    ..old(self)@
                }),
                None => !found && final(self)@ == old(self)@,
            },
            hive_wf(old(self)@) ==> hive_wf(final(self)@),
    {
        match key_position(&self.keys, name) {
            Some(i) => {
                let mut key = self.keys.remove(i);
                key.locked = locked;
                let ghost after = key@;
                self.keys.insert(i, key);
                assert(key_views(self.keys@) =~= key_views(old(self).keys@).update(i as int, after));
                true
            },
            None => false,
        }
    }

    /// Carries out one request and gives the reply to it.
    pub fn perform(&mut self, request: &RegRequest) -> (reply: RegReply)
        requires
            hive_wf(old(self)@),
        ensures
            (final(self)@, reply@) == answer(old(self)@, request@),
            hive_wf(final(self)@),
    {
        proof {
            lemma_answer_wf(self@, request@);
        }
        match request {
            RegRequest::OpenRoot { path, write } => {
                if !str_eq(path.as_str(), "Software\\MyDNSAdapter") || !self.present {
                    RegReply::of_status(ERROR_FILE_NOT_FOUND)
                } else if *write && self.read_only {
                    RegReply::of_status(ERROR_ACCESS_DENIED)
                } else {
                    self.root_open = true;
                    RegReply::of_status(ERROR_SUCCESS)
                }
            },
            RegRequest::EnumChild { index } => {
                if !self.root_open {
                    RegReply::of_status(ERROR_INVALID_HANDLE)
                } else if (*index as usize) < self.keys.len() {
                    let name = encode_utf16(self.keys[*index as usize].name.as_str());
                    RegReply { status: ERROR_SUCCESS, kind: 0, name, data: Vec::new() }
                } else {
                    RegReply::of_status(ERROR_NO_MORE_ITEMS)
                }
            },
            RegRequest::OpenChild { name } => {
                if !self.root_open {
                    RegReply::of_status(ERROR_INVALID_HANDLE)
                } else {
                    match key_position(&self.keys, name.as_str()) {
                        None => RegReply::of_status(ERROR_FILE_NOT_FOUND),
                        Some(i) => {
                            if self.keys[i].locked {
                                RegReply::of_status(ERROR_ACCESS_DENIED)
                            } else {
                                self.child_open = Some(i);
                                RegReply::of_status(ERROR_SUCCESS)
                            }
                        },
                    }
                }
            },
            RegRequest::QueryValue { name } => {
                match self.child_open {
                    None => RegReply::of_status(ERROR_INVALID_HANDLE),
                    Some(i) => {
                        match value_position(&self.keys[i].values, name.as_str()) {
                            None => RegReply::of_status(ERROR_FILE_NOT_FOUND),
                            Some(j) => {
                                let value = &self.keys[i].values[j];
                                RegReply {
                                    status: ERROR_SUCCESS,
                                    kind: value.kind,
                                    name: Vec::new(),
                                    data: copy_bytes(&value.data),
                                }
                            },
                        }
                    },
                }
            },
            RegRequest::CloseChild => {
                if self.child_open.is_none() {
                    RegReply::of_status(ERROR_INVALID_HANDLE)
                } else {
                    self.child_open = None;
                    RegReply::of_status(ERROR_SUCCESS)
                }
            },
            RegRequest::CloseRoot => {
                if !self.root_open {
                    RegReply::of_status(ERROR_INVALID_HANDLE)
                } else {
                    self.root_open = false;
                    RegReply::of_status(ERROR_SUCCESS)
                }
            },
            RegRequest::CreateKey { path } => {
                if self.read_only {
                    RegReply::of_status(ERROR_ACCESS_DENIED)
                } else {
                    match child_name(path.as_str()) {
                        None => RegReply::of_status(ERROR_BAD_PATHNAME),
                        Some(name) => {
                            match key_position(&self.keys, name.as_str()) {
                                Some(i) => {
                                    if self.keys[i].locked {
                                        RegReply::of_status(ERROR_ACCESS_DENIED)
                                    } else {
                                        self.child_open = Some(i);
                                        RegReply::of_status(ERROR_SUCCESS)
                                    }
                                },
                                None => {
                                    if self.keys.len() >= u32::MAX as usize {
                                        RegReply::of_status(ERROR_NOT_ENOUGH_MEMORY)
                                    } else {
                                        let position = self.keys.len();
                                        let key = HiveKey { name, locked: false, values: Vec::new() };
                                        assert(value_views(key.values@) =~= Seq::empty());
                                        self.keys.push(key);
                                        self.present = true;
                                        self.child_open = Some(position);
                                        assert(key_views(self.keys@) =~= key_views(old(self).keys@).push(
                                            key@,
                                        ));
                                        RegReply::of_status(ERROR_SUCCESS)
                                    }
                                },
                            }
                        },
                    }
                }
            },
            RegRequest::SetValue { name, kind, data } => {
                match self.child_open {
                    None => RegReply::of_status(ERROR_INVALID_HANDLE),
                    Some(i) => {
                        if self.read_only {
                            RegReply::of_status(ERROR_ACCESS_DENIED)
                        } else {
                            let mut key = self.keys.remove(i);
                            let ghost before = key@;
                            put(&mut key.values, name.as_str(), *kind, data);
                            let ghost after = key@;
                            self.keys.insert(i, key);
                            assert(key_views(self.keys@) =~= key_views(old(self).keys@).update(
                                i as int,
                                after,
                            ));
                            RegReply::of_status(ERROR_SUCCESS)
                        }
                    },
                }
            },
            RegRequest::DeleteChild { name } => {
                if !self.root_open {
                    RegReply::of_status(ERROR_INVALID_HANDLE)
                } else if self.read_only {
                    RegReply::of_status(ERROR_ACCESS_DENIED)
                } else {
                    match key_position(&self.keys, name.as_str()) {
                        None => RegReply::of_status(ERROR_FILE_NOT_FOUND),
                        Some(i) => {
                            self.keys.remove(i);
                            self.child_open = None;
                            assert(key_views(self.keys@) =~= key_views(old(self).keys@).remove(i as int));
                            RegReply::of_status(ERROR_SUCCESS)
                        },
                    }
                }
            },
        }
    }
}

} // verus!
