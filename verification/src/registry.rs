//! The profile store's layout and the requests that read and write it.
//!
//! Profiles live under one root key. Each profile is a child key named by its
//! master id, with three values: the password as a terminated UTF-16 text and
//! the two notify flags as 32-bit words. Nothing here touches the store: a
//! request says what the caller is to do with it, and a reply says what came
//! back. Whatever a reply holds, reading it yields a text or a number: what
//! is missing or of the wrong type reads as empty or zero.

use vstd::prelude::*;
use crate::bytes::{
    le_bytes16, le_bytes32, units_from_le_bytes, units_of_le, units_to_le_bytes, word_from_le_bytes,
    word_of_le, word_to_le_bytes,
};
use crate::utf16::{decode_lossy, decode_terminated, encode, encode_utf16, until_nul};

verus! {

/// The request was carried out.
pub const ERROR_SUCCESS: u32 = 0;

/// The key or value does not exist.
pub const ERROR_FILE_NOT_FOUND: u32 = 2;

/// The caller may not do this.
pub const ERROR_ACCESS_DENIED: u32 = 5;

/// No key is open for the request to work on.
pub const ERROR_INVALID_HANDLE: u32 = 6;

/// No room for another key.
pub const ERROR_NOT_ENOUGH_MEMORY: u32 = 8;

/// The path does not name a key that can be created.
pub const ERROR_BAD_PATHNAME: u32 = 161;

/// Enumeration has passed the last child.
pub const ERROR_NO_MORE_ITEMS: u32 = 259;

/// The type of a terminated UTF-16 text.
pub const REG_SZ: u32 = 1;

/// The type of a 32-bit word.
pub const REG_DWORD: u32 = 4;

/// The path of the root key.
pub open spec fn root_path() -> Seq<char> {
    "Software\\MyDNSAdapter"@
}

/// The name of the value that holds the password.
pub open spec fn password_name() -> Seq<char> {
    "Password"@
}

/// The name of the value that holds the IPv4 flag.
pub open spec fn ipv4_name() -> Seq<char> {
    "IPv4Notify"@
}

/// The name of the value that holds the IPv6 flag.
pub open spec fn ipv6_name() -> Seq<char> {
    "IPv6Notify"@
}

/// The path of the child key of the profile `id`.
pub open spec fn child_path(id: Seq<char>) -> Seq<char> {
    root_path() + seq!['\\'] + id
}

/// One profile: the credentials of an account and what to notify for it.
#[derive(Debug, PartialEq, Eq)]
pub struct Config {
    /// The master id of the account; the name of the profile's key.
    pub master_id: String,
    /// The password of the account.
    pub password: String,
    /// Whether the IPv4 address is notified.
    pub ipv4_notify: bool,
    /// Whether the IPv6 address is notified.
    pub ipv6_notify: bool,
}

/// A profile as a mathematical value.
pub struct ConfigView {
    pub master_id: Seq<char>,
    pub password: Seq<char>,
    pub ipv4_notify: bool,
    pub ipv6_notify: bool,
}

impl View for Config {
    type V = ConfigView;

    open spec fn view(&self) -> ConfigView {
        ConfigView {
            master_id: self.master_id@,
            password: self.password@,
            ipv4_notify: self.ipv4_notify,
            ipv6_notify: self.ipv6_notify,
        }
    }
}

impl Clone for Config {
    fn clone(&self) -> (out: Self)
        ensures
            out@ == self@,
    {
        Config {
            master_id: self.master_id.clone(),
            password: self.password.clone(),
            ipv4_notify: self.ipv4_notify,
            ipv6_notify: self.ipv6_notify,
        }
    }
}

impl Default for Config {
    fn default() -> (out: Self)
        ensures
            out@ == (ConfigView {
                master_id: Seq::empty(),
                password: Seq::empty(),
                ipv4_notify: false,
                ipv6_notify: false,
            }),
    {
        Config {
            master_id: String::new(),
            password: String::new(),
            ipv4_notify: false,
            ipv6_notify: false,
        }
    }
}

/// The profiles of a vector as mathematical values.
pub open spec fn config_views(configs: Seq<Config>) -> Seq<ConfigView> {
    configs.map_values(|c: Config| c@)
}

/// Why an operation on the store failed.
#[derive(Clone, Copy, Debug, PartialEq, Eq)]
pub enum StoreError {
    /// No profile has the id.
    NotFound,
    /// The store could not be read or written; `code` is the status that it gave.
    Persistence { code: u32 },
}

/// One request to the store. Requests on "the root" and "the child" work on
/// the key that the last successful `OpenRoot`, and `OpenChild` or `CreateKey`,
/// opened.
#[derive(Debug, PartialEq, Eq)]
pub enum RegRequest {
    /// Open the key at `path`, for writing if `write` holds and for reading otherwise.
    OpenRoot { path: String, write: bool },
    /// Name the child of the root at position `index`.
    EnumChild { index: u32 },
    /// Open the child `name` of the root for reading.
    OpenChild { name: String },
    /// Read the value `name` of the child.
    QueryValue { name: String },
    /// Close the child.
    CloseChild,
    /// Close the root.
    CloseRoot,
    /// Open the key at `path` for writing, creating it and the keys above it if needed.
    CreateKey { path: String },
    /// Write the value `name` of the child, with type `kind` and content `data`.
    SetValue { name: String, kind: u32, data: Vec<u8> },
    /// Delete the child `name` of the root.
    DeleteChild { name: String },
}

/// A request as a mathematical value.
pub enum RequestView {
    OpenRoot { path: Seq<char>, write: bool },
    EnumChild { index: u32 },
    OpenChild { name: Seq<char> },
    QueryValue { name: Seq<char> },
    CloseChild,
    CloseRoot,
    CreateKey { path: Seq<char> },
    SetValue { name: Seq<char>, kind: u32, data: Seq<u8> },
    DeleteChild { name: Seq<char> },
}

impl View for RegRequest {
    type V = RequestView;

    open spec fn view(&self) -> RequestView {
        match *self {
            RegRequest::OpenRoot { path, write } => RequestView::OpenRoot { path: path@, write },
            RegRequest::EnumChild { index } => RequestView::EnumChild { index },
            RegRequest::OpenChild { name } => RequestView::OpenChild { name: name@ },
            RegRequest::QueryValue { name } => RequestView::QueryValue { name: name@ },
            RegRequest::CloseChild => RequestView::CloseChild,
            RegRequest::CloseRoot => RequestView::CloseRoot,
            RegRequest::CreateKey { path } => RequestView::CreateKey { path: path@ },
            RegRequest::SetValue { name, kind, data } => RequestView::SetValue {
                name: name@,
                kind,
                data: data@,
            },
            RegRequest::DeleteChild { name } => RequestView::DeleteChild { name: name@ },
        }
    }
}

/// What came back for a request: the status, and for `EnumChild` the child's
/// name as UTF-16 units, for `QueryValue` the value's type and content.
/// Fields that the request does not fill are zero or empty.
#[derive(Debug, PartialEq, Eq)]
pub struct RegReply {
    pub status: u32,
    pub kind: u32,
    pub name: Vec<u16>,
    pub data: Vec<u8>,
}

/// A reply as a mathematical value.
pub struct ReplyView {
    pub status: u32,
    pub kind: u32,
    pub name: Seq<u16>,
    pub data: Seq<u8>,
}

impl View for RegReply {
    type V = ReplyView;

    open spec fn view(&self) -> ReplyView {
        ReplyView { status: self.status, kind: self.kind, name: self.name@, data: self.data@ }
    }
}

/// The reply that holds a status and nothing else.
pub open spec fn status_reply(status: u32) -> ReplyView {
    ReplyView { status, kind: 0, name: Seq::empty(), data: Seq::empty() }
}

impl RegReply {
    /// The reply that holds a status and nothing else.
    pub fn of_status(status: u32) -> (reply: RegReply)
        ensures
            reply@ == status_reply(status),
    {
        RegReply { status, kind: 0, name: Vec::new(), data: Vec::new() }
    }
}

/// The content of a text value: the units of the text and a terminator, low
/// byte first.
pub open spec fn text_data(text: Seq<char>) -> Seq<u8> {
    le_bytes16(encode(text).push(0))
}

/// The text that a reply to `QueryValue` stands for: the stored text up to
/// its terminator, and the empty text where the value is missing, empty or
/// not a text.
pub open spec fn text_of(reply: ReplyView) -> Seq<char> {
    if reply.status != ERROR_SUCCESS || reply.kind != REG_SZ {
        Seq::empty()
    } else {
        decode_lossy(until_nul(units_of_le(reply.data)))
    }
}

/// The number that a reply to `QueryValue` stands for: the stored word, and
/// zero where the value is missing, not a word or longer than a word.
pub open spec fn dword_of(reply: ReplyView) -> int {
    if reply.status != ERROR_SUCCESS || reply.kind != REG_DWORD || reply.data.len() > 4 {
        0
    } else {
        word_of_le(reply.data)
    }
}

/// The flag that a reply to `QueryValue` stands for: set where the stored
/// word is one.
pub open spec fn flag_of(reply: ReplyView) -> bool {
    dword_of(reply) == 1
}

/// The word that stores a flag.
pub open spec fn flag_word(flag: bool) -> u32 {
    if flag {
        1
    } else {
        0
    }
}

/// Reads a text out of a reply to `QueryValue`.
pub fn get_reg_string(reply: &RegReply) -> (text: String)
    ensures
        text@ == text_of(reply@),
{
    if reply.status != ERROR_SUCCESS || reply.kind != REG_SZ {
        String::new()
    } else {
        let units = units_from_le_bytes(reply.data.as_slice());
        decode_terminated(units.as_slice())
    }
}

/// Reads a number out of a reply to `QueryValue`.
pub fn get_reg_dword(reply: &RegReply) -> (word: u32)
    ensures
        word == dword_of(reply@),
{
    if reply.status != ERROR_SUCCESS || reply.kind != REG_DWORD || reply.data.len() > 4 {
        0
    } else {
        word_from_le_bytes(reply.data.as_slice())
    }
}

/// The request that writes `value` as the text value `name` of the child.
pub fn set_reg_string(name: &str, value: &str) -> (request: RegRequest)
    ensures
        request@ == (RequestView::SetValue { name: name@, kind: REG_SZ, data: text_data(value@) }),
{
    let mut units = encode_utf16(value);
    units.push(0);
    let data = units_to_le_bytes(units.as_slice());
    RegRequest::SetValue { name: name.to_owned(), kind: REG_SZ, data }
}

/// The request that writes `value` as the word value `name` of the child.
pub fn set_reg_dword(name: &str, value: u32) -> (request: RegRequest)
    ensures
        request@ == (RequestView::SetValue { name: name@, kind: REG_DWORD, data: le_bytes32(value) }),
{
    RegRequest::SetValue { name: name.to_owned(), kind: REG_DWORD, data: word_to_le_bytes(value) }
}

/// A text without the character of number zero, written as a value and read
/// back, is the same text.
pub proof fn lemma_text_roundtrip(text: Seq<char>)
    requires
        forall|i: int| 0 <= i < text.len() ==> text[i] != '\0',
    ensures
        text_of(ReplyView { status: ERROR_SUCCESS, kind: REG_SZ, name: Seq::empty(), data: text_data(text) })
            == text,
{
    let units = encode(text).push(0);
    crate::bytes::lemma_units_le_roundtrip(units);
    crate::utf16::lemma_encode_nonzero(text);
    crate::utf16::lemma_until_nul_prefix(encode(text), seq![0u16]);
    assert(units =~= encode(text) + seq![0u16]);
    assert(until_nul(seq![0u16]) =~= Seq::<u16>::empty());
    assert(encode(text) + Seq::<u16>::empty() =~= encode(text));
    crate::utf16::lemma_decode_encode(text);
}

/// A flag written as a word value and read back is the same flag.
pub proof fn lemma_flag_roundtrip(flag: bool)
    ensures
        flag_of(
            ReplyView {
                status: ERROR_SUCCESS,
                kind: REG_DWORD,
                name: Seq::empty(),
                data: le_bytes32(flag_word(flag)),
            },
        ) == flag,
{
    crate::bytes::lemma_word_le_roundtrip(flag_word(flag));
}

/// The outcome that a status stands for: success, a missing profile, or a
/// failure of the store.
pub open spec fn outcome_of(status: u32) -> Result<(), StoreError> {
    if status == ERROR_SUCCESS {
        Ok(())
    } else if status == ERROR_FILE_NOT_FOUND {
        Err(StoreError::NotFound)
    } else {
        Err(StoreError::Persistence { code: status })
    }
}

/// Reads a status as an outcome.
pub fn classify_status(status: u32) -> (outcome: Result<(), StoreError>)
    ensures
        outcome == outcome_of(status),
{
    if status == ERROR_SUCCESS {
        Ok(())
    } else if status == ERROR_FILE_NOT_FOUND {
        Err(StoreError::NotFound)
    } else {
        Err(StoreError::Persistence { code: status })
    }
}

/// Where the reading of all profiles stands: the request that is out.
#[derive(Clone, Copy, Debug, PartialEq, Eq)]
pub enum LoadPhase {
    OpeningRoot,
    Enumerating,
    OpeningChild,
    ReadingPassword,
    ReadingIpv4,
    ReadingIpv6,
    ClosingChild,
    ClosingRoot,
}

/// The reading of all profiles, one request at a time. `index` is the
/// position of the child at hand, `current` what has been read of it, and
/// `configs` the profiles read so far.
#[derive(Debug)]
pub struct Loader {
    pub phase: LoadPhase,
    pub index: u32,
    pub current: Config,
    pub configs: Vec<Config>,
}

/// A `Loader` as a mathematical value.
pub struct LoaderView {
    pub phase: LoadPhase,
    pub index: u32,
    pub current: ConfigView,
    pub configs: Seq<ConfigView>,
}

impl View for Loader {
    type V = LoaderView;

    open spec fn view(&self) -> LoaderView {
        LoaderView {
            phase: self.phase,
            index: self.index,
            current: self.current@,
            configs: config_views(self.configs@),
        }
    }
}

/// What the reading does next: another request, or the end.
#[derive(Debug)]
pub enum LoadStep {
    Ask { loader: Loader, request: RegRequest },
    Done { outcome: Result<Vec<Config>, StoreError> },
}

/// A `LoadStep` as a mathematical value.
pub enum LoadStepView {
    Ask { loader: LoaderView, request: RequestView },
    Done { outcome: Result<Seq<ConfigView>, StoreError> },
}

impl View for LoadStep {
    type V = LoadStepView;

    open spec fn view(&self) -> LoadStepView {
        match *self {
            LoadStep::Ask { loader, request } => LoadStepView::Ask {
                loader: loader@,
                request: request@,
            },
            LoadStep::Done { outcome } => LoadStepView::Done {
                outcome: match outcome {
                    Ok(configs) => Ok(config_views(configs@)),
                    Err(e) => Err(e),
                },
            },
        }
    }
}

/// The profiles that a reading gave, and none where it failed: for
/// notifying, a store that cannot be read is a store without profiles.
pub open spec fn read_or_empty(outcome: Result<Seq<ConfigView>, StoreError>) -> Seq<ConfigView> {
    match outcome {
        Ok(configs) => configs,
        Err(_) => Seq::empty(),
    }
}

/// The profiles that a reading gave, and none where it failed.
pub fn configs_or_empty(outcome: Result<Vec<Config>, StoreError>) -> (configs: Vec<Config>)
    ensures
        config_views(configs@) == read_or_empty(
            match outcome {
                Ok(read) => Ok(config_views(read@)),
                Err(e) => Err(e),
            },
        ),
        configs@.len() == config_views(configs@).len(),
{
    match outcome {
        Ok(configs) => {
            assert(config_views(configs@).len() == configs@.len());
            configs
        },
        Err(_) => {
            let none: Vec<Config> = Vec::new();
            assert(config_views(none@) =~= Seq::empty());
            none
        },
    }
}

/// The profile of which nothing has been read yet.
pub open spec fn blank_config() -> ConfigView {
    ConfigView {
        master_id: Seq::empty(),
        password: Seq::empty(),
        ipv4_notify: false,
        ipv6_notify: false,
    }
}

/// The reading before its first reply.
pub open spec fn load_start() -> LoaderView {
    LoaderView {
        phase: LoadPhase::OpeningRoot,
        index: 0,
        current: blank_config(),
        configs: Seq::empty(),
    }
}

/// The first request of the reading.
pub open spec fn load_first_request() -> RequestView {
    RequestView::OpenRoot { path: root_path(), write: false }
}

/// The step to the child after the one at hand; after the last position that
/// can be asked for, the reading closes the root.
pub open spec fn load_advance(loader: LoaderView) -> LoadStepView {
    if loader.index == u32::MAX {
        LoadStepView::Ask {
            loader: LoaderView { phase: LoadPhase::ClosingRoot, ..loader },
            request: RequestView::CloseRoot,
        }
    } else {
        LoadStepView::Ask {
            loader: LoaderView {
                phase: LoadPhase::Enumerating,
                index: (loader.index + 1) as u32,
                ..loader
            },
            request: RequestView::EnumChild { index: (loader.index + 1) as u32 },
        }
    }
}

/// The reading's rule: what follows from the reply to the request that is out.
///
/// A root that does not exist holds no profiles; one that cannot be opened
/// for another reason ends the reading with that failure. A child that cannot
/// be named or opened is passed over. Of a child that was opened, each value
/// is read with its default, and the profile is kept.
pub open spec fn load_step(loader: LoaderView, reply: ReplyView) -> LoadStepView {
    match loader.phase {
        LoadPhase::OpeningRoot => {
            if reply.status == ERROR_FILE_NOT_FOUND {
                LoadStepView::Done { outcome: Ok(Seq::empty()) }
            } else if reply.status != ERROR_SUCCESS {
                LoadStepView::Done {
                    outcome: Err(StoreError::Persistence { code: reply.status }),
                }
            } else {
                LoadStepView::Ask {
                    loader: LoaderView { phase: LoadPhase::Enumerating, index: 0, ..loader },
                    request: RequestView::EnumChild { index: 0 },
                }
            }
        },
        LoadPhase::Enumerating => {
            if reply.status == ERROR_NO_MORE_ITEMS {
                LoadStepView::Ask {
                    loader: LoaderView { phase: LoadPhase::ClosingRoot, ..loader },
                    request: RequestView::CloseRoot,
                }
            } else if reply.status != ERROR_SUCCESS {
                load_advance(loader)
            } else {
                let id = decode_lossy(reply.name);
                LoadStepView::Ask {
                    loader: LoaderView {
                        phase: LoadPhase::OpeningChild,
                        current: ConfigView { master_id: id, ..blank_config() },
                        ..loader
                    },
                    request: RequestView::OpenChild { name: id },
                }
            }
        },
        LoadPhase::OpeningChild => {
            if reply.status != ERROR_SUCCESS {
                load_advance(loader)
            } else {
                LoadStepView::Ask {
                    loader: LoaderView { phase: LoadPhase::ReadingPassword, ..loader },
                    request: RequestView::QueryValue { name: password_name() },
                }
            }
        },
        LoadPhase::ReadingPassword => LoadStepView::Ask {
            loader: LoaderView {
                phase: LoadPhase::ReadingIpv4,
                current: ConfigView { password: text_of(reply), ..loader.current },
                ..loader
            },
            request: RequestView::QueryValue { name: ipv4_name() },
        },
        LoadPhase::ReadingIpv4 => LoadStepView::Ask {
            loader: LoaderView {
                phase: LoadPhase::ReadingIpv6,
                current: ConfigView { ipv4_notify: flag_of(reply), ..loader.current },
                ..loader
            },
            request: RequestView::QueryValue { name: ipv6_name() },
        },
        LoadPhase::ReadingIpv6 => {
            let read = ConfigView { ipv6_notify: flag_of(reply), ..loader.current };
            LoadStepView::Ask {
                loader: LoaderView {
                    phase: LoadPhase::ClosingChild,
                    current: read,
                    configs: loader.configs.push(read),
                    ..loader
                },
                request: RequestView::CloseChild,
            }
        },
        LoadPhase::ClosingChild => load_advance(loader),
        LoadPhase::ClosingRoot => LoadStepView::Done { outcome: Ok(loader.configs) },
    }
}

impl Loader {
    /// Begins the reading: the machine and its first request.
    pub fn start() -> (out: (Loader, RegRequest))
        ensures
            out.0@ == load_start(),
            out.1@ == load_first_request(),
    {
        let loader = Loader {
            phase: LoadPhase::OpeningRoot,
            index: 0,
            current: Config::default(),
            configs: Vec::new(),
        };
        assert(config_views(loader.configs@) =~= Seq::empty());
        (loader, RegRequest::OpenRoot { path: "Software\\MyDNSAdapter".to_owned(), write: false })
    }

    /// Moves on to the child after the one at hand.
    fn advance(self) -> (step: LoadStep)
        ensures
            step@ == load_advance(self@),
    {
        let mut loader = self;
        if loader.index == u32::MAX {
            loader.phase = LoadPhase::ClosingRoot;
            LoadStep::Ask { loader, request: RegRequest::CloseRoot }
        } else {
            let index: u32 = loader.index + 1;
            loader.phase = LoadPhase::Enumerating;
            loader.index = index;
            LoadStep::Ask { loader, request: RegRequest::EnumChild { index } }
        }
    }

    /// Takes the reply to the request that is out and says what comes next.
    pub fn step(self, reply: &RegReply) -> (step: LoadStep)
        ensures
            step@ == load_step(self@, reply@),
    {
        let mut loader = self;
        match loader.phase {
            LoadPhase::OpeningRoot => {
                if reply.status == ERROR_FILE_NOT_FOUND {
                    let configs: Vec<Config> = Vec::new();
                    assert(config_views(configs@) =~= Seq::empty());
                    LoadStep::Done { outcome: Ok(configs) }
                } else if reply.status != ERROR_SUCCESS {
                    LoadStep::Done { outcome: Err(StoreError::Persistence { code: reply.status }) }
                } else {
                    loader.phase = LoadPhase::Enumerating;
                    loader.index = 0;
                    LoadStep::Ask { loader, request: RegRequest::EnumChild { index: 0 } }
                }
            },
            LoadPhase::Enumerating => {
                if reply.status == ERROR_NO_MORE_ITEMS {
                    loader.phase = LoadPhase::ClosingRoot;
                    LoadStep::Ask { loader, request: RegRequest::CloseRoot }
                } else if reply.status != ERROR_SUCCESS {
                    loader.advance()
                } else {
                    let id = crate::utf16::decode_utf16_lossy(reply.name.as_slice());
                    let name = id.clone();
                    loader.phase = LoadPhase::OpeningChild;
                    loader.current = Config {
                        master_id: id,
                        password: String::new(),
                        ipv4_notify: false,
                        ipv6_notify: false,
                    };
                    LoadStep::Ask { loader, request: RegRequest::OpenChild { name } }
                }
            },
            LoadPhase::OpeningChild => {
                if reply.status != ERROR_SUCCESS {
                    loader.advance()
                } else {
                    loader.phase = LoadPhase::ReadingPassword;
                    LoadStep::Ask {
                        loader,
                        request: RegRequest::QueryValue { name: "Password".to_owned() },
                    }
                }
            },
            LoadPhase::ReadingPassword => {
                loader.phase = LoadPhase::ReadingIpv4;
                loader.current.password = get_reg_string(reply);
                LoadStep::Ask {
                    loader,
                    request: RegRequest::QueryValue { name: "IPv4Notify".to_owned() },
                }
            },
            LoadPhase::ReadingIpv4 => {
                loader.phase = LoadPhase::ReadingIpv6;
                loader.current.ipv4_notify = get_reg_dword(reply) == 1;
                LoadStep::Ask {
                    loader,
                    request: RegRequest::QueryValue { name: "IPv6Notify".to_owned() },
                }
            },
            LoadPhase::ReadingIpv6 => {
                loader.phase = LoadPhase::ClosingChild;
                loader.current.ipv6_notify = get_reg_dword(reply) == 1;
                let ghost before = loader.configs@;
                let read = loader.current.clone();
                loader.configs.push(read);
                assert(config_views(loader.configs@) =~= config_views(before).push(loader.current@));
                LoadStep::Ask { loader, request: RegRequest::CloseChild }
            },
            LoadPhase::ClosingChild => loader.advance(),
            LoadPhase::ClosingRoot => LoadStep::Done { outcome: Ok(loader.configs) },
        }
    }
}

/// Reading a store whose root does not exist gives no profiles and is no
/// failure, whatever the store is.
pub proof fn lemma_load_missing_root(reply: ReplyView)
    requires
        reply.status == ERROR_FILE_NOT_FOUND,
    ensures
        load_step(load_start(), reply) == (LoadStepView::Done {
            outcome: Ok::<Seq<ConfigView>, StoreError>(Seq::empty()),
        }),
{
}

} // verus!
