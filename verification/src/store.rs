//! The profile store: listing, getting, saving and deleting profiles.
//!
//! Each operation is a run of requests. Here the runs are made against a
//! `Hive`, and what they do is stated over the hive as a mathematical value:
//! `listing` is what reading finds, `saved` and `deleted` are the hives that
//! writing leaves. The laws at the end relate the operations to each other.

use vstd::prelude::*;
use crate::bytes::le_bytes32;
use crate::hive::{
    answer, child_of_path, find_key, find_value, hive_idle, hive_wf, lemma_find_key,
    lemma_find_key_is, lemma_find_key_none, lemma_find_value, lemma_find_value_is,
    lemma_find_value_none, names_unique, put_value, value_reply, Hive, HiveView, KeyView,
    ValueView,
};
use crate::registry::{
    blank_config, child_path, config_views, flag_of, flag_word, ipv4_name, ipv6_name,
    load_first_request, load_step, password_name, root_path, status_reply, text_data, text_of,
    Config, ConfigView, LoadPhase, LoadStep, LoadStepView, Loader, LoaderView, ReplyView,
    RequestView, StoreError, ERROR_ACCESS_DENIED, ERROR_BAD_PATHNAME, ERROR_FILE_NOT_FOUND,
    ERROR_NOT_ENOUGH_MEMORY, REG_DWORD, REG_SZ,
};
use crate::text::str_eq;
use crate::writer::{
    delete_first_request, delete_step, flag_request, save_first_request, save_step, DeletePhase,
    DeleteStep, DeleteStepView, Deleter, DeleterView, SavePhase, SaveStep, SaveStepView, Saver,
    SaverView,
};

verus! {

/// What reading the value `name` of `key` gives.
pub open spec fn query(key: KeyView, name: Seq<char>) -> ReplyView {
    match find_value(key.values, name) {
        Some(j) => value_reply(key.values[j]),
        None => status_reply(ERROR_FILE_NOT_FOUND),
    }
}

/// The profile that a key reads as: its name, and each value with its default.
pub open spec fn record_of(key: KeyView) -> ConfigView {
    ConfigView {
        master_id: key.name,
        password: text_of(query(key, password_name())),
        ipv4_notify: flag_of(query(key, ipv4_name())),
        ipv6_notify: flag_of(query(key, ipv6_name())),
    }
}

/// The profiles that reading finds: one for each key that can be opened, in
/// the order of the keys.
pub open spec fn listing(keys: Seq<KeyView>) -> Seq<ConfigView>
    decreases keys.len(),
{
    if keys.len() == 0 {
        Seq::empty()
    } else if keys.last().locked {
        listing(keys.drop_last())
    } else {
        listing(keys.drop_last()).push(record_of(keys.last()))
    }
}

/// The first profile with the id `id`.
pub open spec fn lookup(configs: Seq<ConfigView>, id: Seq<char>) -> Option<ConfigView>
    decreases configs.len(),
{
    if configs.len() == 0 {
        None
    } else if lookup(configs.drop_last(), id) is Some {
        lookup(configs.drop_last(), id)
    } else if configs.last().master_id == id {
        Some(configs.last())
    } else {
        None
    }
}

/// The hive with its root open.
pub open spec fn with_root_open(h: HiveView) -> HiveView {
    HiveView { root_open: true, ..h }
}

/// The hive with its root and the child at `i` open.
pub open spec fn with_child_open(h: HiveView, i: int) -> HiveView {
    HiveView { root_open: true, child_open: Some(i), ..h }
}

/// What has been read of the child at hand before its password.
pub open spec fn partial_named(key: KeyView) -> ConfigView {
    ConfigView { master_id: key.name, ..blank_config() }
}

/// How a reading that began on the hive `h0` stands: for each phase, the
/// hive as it is now, the request that is out, and what has been read.
pub open spec fn load_inv(h0: HiveView, h: HiveView, loader: LoaderView, request: RequestView) -> bool {
    let keys = h0.keys;
    let i = loader.index as int;
    match loader.phase {
        LoadPhase::OpeningRoot => {
            &&& h == h0
            &&& request == load_first_request()
            &&& loader.index == 0
            &&& loader.configs == Seq::<ConfigView>::empty()
        },
        LoadPhase::Enumerating => {
            &&& h == with_root_open(h0)
            &&& request == RequestView::EnumChild { index: loader.index }
            &&& i <= keys.len()
            &&& loader.configs == listing(keys.take(i))
        },
        LoadPhase::OpeningChild => {
            &&& h == with_root_open(h0)
            &&& i < keys.len()
            &&& request == RequestView::OpenChild { name: keys[i].name }
            &&& loader.current == partial_named(keys[i])
            &&& loader.configs == listing(keys.take(i))
        },
        LoadPhase::ReadingPassword => {
            &&& h == with_child_open(h0, i)
            &&& i < keys.len()
            &&& !keys[i].locked
            &&& request == RequestView::QueryValue { name: password_name() }
            &&& loader.current == partial_named(keys[i])
            &&& loader.configs == listing(keys.take(i))
        },
        LoadPhase::ReadingIpv4 => {
            &&& h == with_child_open(h0, i)
            &&& i < keys.len()
            &&& !keys[i].locked
            &&& request == RequestView::QueryValue { name: ipv4_name() }
            &&& loader.current == ConfigView {
                password: record_of(keys[i]).password,
                ..partial_named(keys[i])
            }
            &&& loader.configs == listing(keys.take(i))
        },
        LoadPhase::ReadingIpv6 => {
            &&& h == with_child_open(h0, i)
            &&& i < keys.len()
            &&& !keys[i].locked
            &&& request == RequestView::QueryValue { name: ipv6_name() }
            &&& loader.current == ConfigView { ipv6_notify: false, ..record_of(keys[i]) }
            &&& loader.configs == listing(keys.take(i))
        },
        LoadPhase::ClosingChild => {
            &&& h == with_child_open(h0, i)
            &&& i < keys.len()
            &&& request == RequestView::CloseChild
            &&& loader.configs == listing(keys.take(i + 1))
        },
        LoadPhase::ClosingRoot => {
            &&& h == with_root_open(h0)
            &&& request == RequestView::CloseRoot
            &&& loader.configs == listing(keys)
        },
    }
}

/// How far a reading is from its end.
pub open spec fn load_measure(h0: HiveView, loader: LoaderView) -> int {
    let left = h0.keys.len() - loader.index;
    match loader.phase {
        LoadPhase::OpeningRoot => left * 8 + 7,
        LoadPhase::Enumerating => left * 8 + 6,
        LoadPhase::OpeningChild => left * 8 + 5,
        LoadPhase::ReadingPassword => left * 8 + 4,
        LoadPhase::ReadingIpv4 => left * 8 + 3,
        LoadPhase::ReadingIpv6 => left * 8 + 2,
        LoadPhase::ClosingChild => left * 8 + 1,
        LoadPhase::ClosingRoot => 0,
    }
}

/// The keys up to and with the one at `i` read as those before it, and the
/// one at `i` where it can be opened.
pub proof fn lemma_listing_take(keys: Seq<KeyView>, i: int)
    requires
        0 <= i < keys.len(),
    ensures
        listing(keys.take(i + 1)) == if keys[i].locked {
            listing(keys.take(i))
        } else {
            listing(keys.take(i)).push(record_of(keys[i]))
        },
{
    assert(keys.take(i + 1).drop_last() =~= keys.take(i));
    assert(keys.take(i + 1).last() == keys[i]);
}

/// One step of a reading against a hive keeps the reading as `load_inv` says,
/// brings it nearer to its end, and at its end has found `listing` and left
/// the hive as it was.
pub proof fn lemma_load_step(h0: HiveView, h: HiveView, loader: LoaderView, request: RequestView)
    requires
        hive_wf(h0),
        hive_idle(h0),
        load_inv(h0, h, loader, request),
    ensures
        match load_step(loader, answer(h, request).1) {
            LoadStepView::Ask { loader: next, request: asked } => {
                &&& load_inv(h0, answer(h, request).0, next, asked)
                &&& 0 <= load_measure(h0, next) < load_measure(h0, loader)
            },
            LoadStepView::Done { outcome } => {
                &&& answer(h, request).0 == h0
                &&& outcome == Ok::<Seq<ConfigView>, StoreError>(listing(h0.keys))
            },
        },
{
    let keys = h0.keys;
    let i = loader.index as int;
    match loader.phase {
        LoadPhase::OpeningRoot => {
            assert(keys.take(0) =~= Seq::<KeyView>::empty());
            if !h0.present {
                assert(listing(keys) =~= Seq::<ConfigView>::empty());
            }
        },
        LoadPhase::Enumerating => {
            if i < keys.len() {
                crate::utf16::lemma_decode_encode(keys[i].name);
            } else {
                assert(keys.take(i) =~= keys);
            }
        },
        LoadPhase::OpeningChild => {
            lemma_find_key(keys, keys[i].name);
            lemma_listing_take(keys, i);
        },
        LoadPhase::ReadingPassword => {
            lemma_find_value(keys[i].values, password_name());
        },
        LoadPhase::ReadingIpv4 => {
            lemma_find_value(keys[i].values, ipv4_name());
        },
        LoadPhase::ReadingIpv6 => {
            lemma_find_value(keys[i].values, ipv6_name());
            lemma_listing_take(keys, i);
        },
        LoadPhase::ClosingChild => {
            if i + 1 == keys.len() {
                assert(keys.take(i + 1) =~= keys);
            }
        },
        LoadPhase::ClosingRoot => {},
    }
}

/// Reads all profiles.
///
/// Reading a hive always succeeds: a hive without a root holds no profiles,
/// and a key that cannot be opened is passed over.
pub fn load_all_configs(hive: &mut Hive) -> (outcome: Result<Vec<Config>, StoreError>)
    requires
        hive_wf(old(hive)@),
        hive_idle(old(hive)@),
    ensures
        final(hive)@ == old(hive)@,
        outcome matches Ok(configs) && config_views(configs@) == listing(old(hive)@.keys)
            && configs@.len() == listing(old(hive)@.keys).len(),
{
    let ghost h0 = hive@;
    let (mut loader, mut request) = Loader::start();
    loop
        invariant
            h0 == old(hive)@,
            hive_wf(h0),
            hive_idle(h0),
            hive_wf(hive@),
            load_inv(h0, hive@, loader@, request@),
        decreases load_measure(h0, loader@),
    {
        proof {
            lemma_load_step(h0, hive@, loader@, request@);
        }
        let reply = hive.perform(&request);
        match loader.step(&reply) {
            LoadStep::Ask { loader: next, request: asked } => {
                loader = next;
                request = asked;
            },
            LoadStep::Done { outcome } => {
                proof {
                    if outcome is Ok {
                        assert(config_views(outcome->Ok_0@).len() == outcome->Ok_0@.len());
                    }
                }
                return outcome;
            },
        }
    }
}

/// Whether `id` can name a profile's key: it is not empty and holds no backslash.
pub open spec fn valid_id(id: Seq<char>) -> bool {
    id.len() > 0 && forall|i: int| 0 <= i < id.len() ==> id[i] != '\\'
}

/// The path of a profile's key leads to the child named by the id, where the
/// id can name a key, and to no child otherwise.
pub proof fn lemma_child_path(id: Seq<char>)
    ensures
        child_of_path(child_path(id)) == if valid_id(id) {
            Some(id)
        } else {
            None
        },
{
    let prefix = root_path() + seq!['\\'];
    let path = child_path(id);
    assert(path =~= prefix + id);
    assert(path.subrange(0, prefix.len() as int) =~= prefix);
    assert(path.subrange(prefix.len() as int, path.len() as int) =~= id);
}

/// The position of the key of the profile `id`: where it is, or where it
/// will be created.
pub open spec fn target(h: HiveView, id: Seq<char>) -> int {
    match find_key(h.keys, id) {
        Some(i) => i,
        None => h.keys.len() as int,
    }
}

/// The hive in which the key of the profile `id` exists.
pub open spec fn created(h: HiveView, id: Seq<char>) -> HiveView {
    match find_key(h.keys, id) {
        Some(_) => h,
        None => HiveView {
            present: true,
            keys: h.keys.push(KeyView { name: id, locked: false, values: Seq::empty() }),
            ..h
        },
    }
}

/// The hive in which the key at `k` has the values `values`.
pub open spec fn with_values(h: HiveView, k: int, values: Seq<ValueView>) -> HiveView {
    HiveView { keys: h.keys.update(k, KeyView { values, ..h.keys[k] }), ..h }
}

/// The values of a key after the password was written.
pub open spec fn written_password(values: Seq<ValueView>, password: Seq<char>) -> Seq<ValueView> {
    put_value(values, password_name(), REG_SZ, text_data(password))
}

/// The values of a key after the password and the IPv4 flag were written.
pub open spec fn written_ipv4(values: Seq<ValueView>, password: Seq<char>, ipv4: bool) -> Seq<
    ValueView,
> {
    put_value(
        written_password(values, password),
        ipv4_name(),
        REG_DWORD,
        le_bytes32(flag_word(ipv4)),
    )
}

/// The values of a key after a profile was written to it.
pub open spec fn written(values: Seq<ValueView>, password: Seq<char>, ipv4: bool, ipv6: bool) -> Seq<
    ValueView,
> {
    put_value(
        written_ipv4(values, password, ipv4),
        ipv6_name(),
        REG_DWORD,
        le_bytes32(flag_word(ipv6)),
    )
}

/// Whether the profile `id` can be saved, and with which failure it cannot.
pub open spec fn save_outcome(h: HiveView, id: Seq<char>) -> Result<(), StoreError> {
    if h.read_only {
        Err(StoreError::Persistence { code: ERROR_ACCESS_DENIED })
    } else if !valid_id(id) {
        Err(StoreError::Persistence { code: ERROR_BAD_PATHNAME })
    } else {
        match find_key(h.keys, id) {
            Some(i) => {
                if h.keys[i].locked {
                    Err(StoreError::Persistence { code: ERROR_ACCESS_DENIED })
                } else {
                    Ok(())
                }
            },
            None => {
                if h.keys.len() >= u32::MAX {
                    Err(StoreError::Persistence { code: ERROR_NOT_ENOUGH_MEMORY })
                } else {
                    Ok(())
                }
            },
        }
    }
}

/// The hive after the profile was saved: the key of the profile exists, and
/// its three values are written; its other values, and all other keys, are
/// as they were.
pub open spec fn saved(h: HiveView, id: Seq<char>, password: Seq<char>, ipv4: bool, ipv6: bool) -> HiveView {
    let c = created(h, id);
    let k = target(h, id);
    with_values(c, k, written(c.keys[k].values, password, ipv4, ipv6))
}

/// How a saving that began on the hive `h0` stands.
pub open spec fn save_inv(
    h0: HiveView,
    id: Seq<char>,
    password: Seq<char>,
    ipv4: bool,
    ipv6: bool,
    h: HiveView,
    saver: SaverView,
    request: RequestView,
) -> bool {
    let c = created(h0, id);
    let k = target(h0, id);
    let v0 = c.keys[k].values;
    &&& saver.password == password
    &&& saver.ipv4_notify == ipv4
    &&& saver.ipv6_notify == ipv6
    &&& saver.outcome == Ok::<(), StoreError>(())
    &&& match saver.phase {
        SavePhase::Creating => h == h0 && request == save_first_request(id),
        SavePhase::WritingPassword => {
            &&& save_outcome(h0, id) is Ok
            &&& h == HiveView { child_open: Some(k), ..c }
            &&& request == RequestView::SetValue {
                name: password_name(),
                kind: REG_SZ,
                data: text_data(password),
            }
        },
        SavePhase::WritingIpv4 => {
            &&& save_outcome(h0, id) is Ok
            &&& h == HiveView {
                child_open: Some(k),
                ..with_values(c, k, written_password(v0, password))
            }
            &&& request == flag_request(ipv4_name(), ipv4)
        },
        SavePhase::WritingIpv6 => {
            &&& save_outcome(h0, id) is Ok
            &&& h == HiveView {
                child_open: Some(k),
                ..with_values(c, k, written_ipv4(v0, password, ipv4))
            }
            &&& request == flag_request(ipv6_name(), ipv6)
        },
        SavePhase::Closing => {
            &&& save_outcome(h0, id) is Ok
            &&& h == HiveView { child_open: Some(k), ..saved(h0, id, password, ipv4, ipv6) }
            &&& request == RequestView::CloseChild
        },
    }
}

/// How far a saving is from its end.
pub open spec fn save_measure(saver: SaverView) -> int {
    match saver.phase {
        SavePhase::Creating => 4,
        SavePhase::WritingPassword => 3,
        SavePhase::WritingIpv4 => 2,
        SavePhase::WritingIpv6 => 1,
        SavePhase::Closing => 0,
    }
}

/// One step of a saving against a hive keeps the saving as `save_inv` says,
/// brings it nearer to its end, and at its end has left the hive saved, or
/// untouched where the profile cannot be saved.
pub proof fn lemma_save_step(
    h0: HiveView,
    id: Seq<char>,
    password: Seq<char>,
    ipv4: bool,
    ipv6: bool,
    h: HiveView,
    saver: SaverView,
    request: RequestView,
)
    requires
        hive_wf(h0),
        hive_idle(h0),
        save_inv(h0, id, password, ipv4, ipv6, h, saver, request),
    ensures
        match save_step(saver, answer(h, request).1) {
            SaveStepView::Ask { saver: next, request: asked } => {
                &&& save_inv(h0, id, password, ipv4, ipv6, answer(h, request).0, next, asked)
                &&& 0 <= save_measure(next) < save_measure(saver)
            },
            SaveStepView::Done { outcome } => {
                &&& outcome == save_outcome(h0, id)
                &&& answer(h, request).0 == if outcome is Ok {
                    saved(h0, id, password, ipv4, ipv6)
                } else {
                    h0
                }
            },
        },
{
    let c = created(h0, id);
    let k = target(h0, id);
    lemma_child_path(id);
    lemma_find_key(h0.keys, id);
    match saver.phase {
        SavePhase::Creating => {},
        SavePhase::WritingPassword => {
            let after = answer(h, request).0;
            assert(after.keys =~= with_values(c, k, written_password(c.keys[k].values, password)).keys);
        },
        SavePhase::WritingIpv4 => {
            let after = answer(h, request).0;
            assert(after.keys =~= with_values(
                c,
                k,
                written_ipv4(c.keys[k].values, password, ipv4),
            ).keys);
        },
        SavePhase::WritingIpv6 => {
            let after = answer(h, request).0;
            assert(after.keys =~= saved(h0, id, password, ipv4, ipv6).keys);
        },
        SavePhase::Closing => {},
    }
}

/// Saves the profile `id`, creating it if it does not exist and overwriting
/// its password and flags if it does.
///
/// The profile is saved unless the hive refuses writing, the id cannot name a
/// key, the profile's key is locked, or there is no room for a new key; then
/// the hive is left as it was.
pub fn save_to_registry(hive: &mut Hive, id: &str, pw: &str, v4: bool, v6: bool) -> (outcome: Result<
    (),
    StoreError,
>)
    requires
        hive_wf(old(hive)@),
        hive_idle(old(hive)@),
    ensures
        outcome == save_outcome(old(hive)@, id@),
        final(hive)@ == if outcome is Ok {
            saved(old(hive)@, id@, pw@, v4, v6)
        } else {
            old(hive)@
        },
        hive_wf(final(hive)@),
        hive_idle(final(hive)@),
{
    let ghost h0 = hive@;
    let (mut saver, mut request) = Saver::start(id, pw, v4, v6);
    loop
        invariant
            h0 == old(hive)@,
            hive_wf(h0),
            hive_idle(h0),
            hive_wf(hive@),
            save_inv(h0, id@, pw@, v4, v6, hive@, saver@, request@),
        decreases save_measure(saver@),
    {
        proof {
            lemma_save_step(h0, id@, pw@, v4, v6, hive@, saver@, request@);
        }
        let reply = hive.perform(&request);
        match saver.step(&reply) {
            SaveStep::Ask { saver: next, request: asked } => {
                saver = next;
                request = asked;
            },
            SaveStep::Done { outcome } => {
                return outcome;
            },
        }
    }
}

/// Whether the profile `id` can be deleted, and with which failure it cannot.
pub open spec fn delete_outcome(h: HiveView, id: Seq<char>) -> Result<(), StoreError> {
    if !h.present {
        Err(StoreError::NotFound)
    } else if h.read_only {
        Err(StoreError::Persistence { code: ERROR_ACCESS_DENIED })
    } else if find_key(h.keys, id) is None {
        Err(StoreError::NotFound)
    } else {
        Ok(())
    }
}

/// The hive without the key of the profile `id`.
pub open spec fn deleted(h: HiveView, id: Seq<char>) -> HiveView {
    match find_key(h.keys, id) {
        Some(i) => HiveView { keys: h.keys.remove(i), ..h },
        None => h,
    }
}

/// How a deleting that began on the hive `h0` stands.
pub open spec fn delete_inv(
    h0: HiveView,
    id: Seq<char>,
    h: HiveView,
    deleter: DeleterView,
    request: RequestView,
) -> bool {
    &&& deleter.id == id
    &&& match deleter.phase {
        DeletePhase::OpeningRoot => h == h0 && request == delete_first_request(),
        DeletePhase::Deleting => {
            &&& h0.present
            &&& !h0.read_only
            &&& h == with_root_open(h0)
            &&& request == RequestView::DeleteChild { name: id }
        },
        DeletePhase::Closing => {
            &&& h0.present
            &&& !h0.read_only
            &&& h == with_root_open(deleted(h0, id))
            &&& crate::registry::outcome_of(deleter.status) == delete_outcome(h0, id)
            &&& request == RequestView::CloseRoot
        },
    }
}

/// How far a deleting is from its end.
pub open spec fn delete_measure(deleter: DeleterView) -> int {
    match deleter.phase {
        DeletePhase::OpeningRoot => 2,
        DeletePhase::Deleting => 1,
        DeletePhase::Closing => 0,
    }
}

/// One step of a deleting against a hive keeps the deleting as `delete_inv`
/// says, brings it nearer to its end, and at its end has left the hive
/// without the profile, or untouched where the profile cannot be deleted.
pub proof fn lemma_delete_step(
    h0: HiveView,
    id: Seq<char>,
    h: HiveView,
    deleter: DeleterView,
    request: RequestView,
)
    requires
        hive_wf(h0),
        hive_idle(h0),
        delete_inv(h0, id, h, deleter, request),
    ensures
        match delete_step(deleter, answer(h, request).1) {
            DeleteStepView::Ask { deleter: next, request: asked } => {
                &&& delete_inv(h0, id, answer(h, request).0, next, asked)
                &&& 0 <= delete_measure(next) < delete_measure(deleter)
            },
            DeleteStepView::Done { outcome } => {
                &&& outcome == delete_outcome(h0, id)
                &&& answer(h, request).0 == if outcome is Ok {
                    deleted(h0, id)
                } else {
                    h0
                }
            },
        },
{
    lemma_find_key(h0.keys, id);
}

/// Deletes the profile `id` with all its values.
///
/// The profile is deleted if it exists and the hive does not refuse writing.
/// Where no profile has the id, the failure is `NotFound`, unless the hive
/// exists and refuses writing; either way the hive is left as it was.
pub fn delete_config(hive: &mut Hive, id: &str) -> (outcome: Result<(), StoreError>)
    requires
        hive_wf(old(hive)@),
        hive_idle(old(hive)@),
    ensures
        outcome == delete_outcome(old(hive)@, id@),
        final(hive)@ == if outcome is Ok {
            deleted(old(hive)@, id@)
        } else {
            old(hive)@
        },
        hive_wf(final(hive)@),
        hive_idle(final(hive)@),
{
    let ghost h0 = hive@;
    let (mut deleter, mut request) = Deleter::start(id);
    loop
        invariant
            h0 == old(hive)@,
            hive_wf(h0),
            hive_idle(h0),
            hive_wf(hive@),
            delete_inv(h0, id@, hive@, deleter@, request@),
        decreases delete_measure(deleter@),
    {
        proof {
            lemma_delete_step(h0, id@, hive@, deleter@, request@);
        }
        let reply = hive.perform(&request);
        match deleter.step(&reply) {
            DeleteStep::Ask { deleter: next, request: asked } => {
                deleter = next;
                request = asked;
            },
            DeleteStep::Done { outcome } => {
                return outcome;
            },
        }
    }
}

/// `lookup` finds the first profile with the id, and nothing where no
/// profile has it.
pub proof fn lemma_lookup(configs: Seq<ConfigView>, id: Seq<char>)
    ensures
        match lookup(configs, id) {
            Some(c) => exists|i: int|
                0 <= i < configs.len() && configs[i] == c && c.master_id == id && forall|j: int|
                    0 <= j < i ==> configs[j].master_id != id,
            None => forall|j: int| 0 <= j < configs.len() ==> configs[j].master_id != id,
        },
    decreases configs.len(),
{
    if configs.len() > 0 {
        let front = configs.drop_last();
        lemma_lookup(front, id);
        assert(forall|j: int| 0 <= j < front.len() ==> front[j] == configs[j]);
        match lookup(configs, id) {
            Some(c) => {
                if lookup(front, id) is Some {
                    let i = choose|i: int|
                        0 <= i < front.len() && front[i] == c && c.master_id == id && forall|j: int|
                            0 <= j < i ==> front[j].master_id != id;
                    assert(0 <= i < configs.len() && configs[i] == c && forall|j: int|
                        0 <= j < i ==> configs[j].master_id != id);
                } else {
                    let i = configs.len() - 1;
                    assert(configs[i] == c);
                    assert forall|j: int| 0 <= j < i implies configs[j].master_id != id by {
                        assert(front[j].master_id != id);
                    }
                }
            },
            None => {
                assert forall|j: int| 0 <= j < configs.len() implies configs[j].master_id != id by {
                    if j < front.len() {
                        assert(front[j].master_id != id);
                    }
                }
            },
        }
    }
}

/// The first profile with the id `id`.
pub fn find_config(configs: &Vec<Config>, id: &str) -> (found: Option<Config>)
    ensures
        match found {
            Some(c) => lookup(config_views(configs@), id@) == Some(c@),
            None => lookup(config_views(configs@), id@) is None,
        },
{
    let ghost views = config_views(configs@);
    let mut i: usize = 0;
    while i < configs.len()
        invariant
            i <= configs.len(),
            views == config_views(configs@),
            forall|j: int| 0 <= j < i ==> views[j].master_id != id@,
        decreases configs.len() - i,
    {
        if str_eq(configs[i].master_id.as_str(), id) {
            let found = configs[i].clone();
            proof {
                lemma_lookup(views, id@);
                assert(views[i as int] == found@);
                assert(views[i as int].master_id == id@);
            }
            return Some(found);
        }
        assert(views[i as int].master_id != id@);
        i = i + 1;
    }
    proof {
        lemma_lookup(views, id@);
    }
    None
}

/// What getting the profile `id` gives: the profile that reading finds under
/// that id, or `NotFound`.
pub open spec fn get_outcome(h: HiveView, id: Seq<char>) -> Result<ConfigView, StoreError> {
    match lookup(listing(h.keys), id) {
        Some(c) => Ok(c),
        None => Err(StoreError::NotFound),
    }
}

/// Gets the profile `id`.
pub fn get_config(hive: &mut Hive, id: &str) -> (outcome: Result<Config, StoreError>)
    requires
        hive_wf(old(hive)@),
        hive_idle(old(hive)@),
    ensures
        final(hive)@ == old(hive)@,
        match outcome {
            Ok(c) => get_outcome(old(hive)@, id@) == Ok::<ConfigView, StoreError>(c@),
            Err(e) => get_outcome(old(hive)@, id@) == Err::<ConfigView, StoreError>(e),
        },
{
    match load_all_configs(hive) {
        Ok(configs) => {
            match find_config(&configs, id) {
                Some(c) => Ok(c),
                None => Err(StoreError::NotFound),
            }
        },
        Err(e) => {
            proof {
                assert(false);
            }
            Err(e)
        },
    }
}

/// Pushing a profile onto a list leaves the first profile of an id in place,
/// and makes the new profile the first of its id where there was none.
pub proof fn lemma_lookup_push(configs: Seq<ConfigView>, c: ConfigView, id: Seq<char>)
    ensures
        lookup(configs.push(c), id) == if lookup(configs, id) is Some {
            lookup(configs, id)
        } else if c.master_id == id {
            Some(c)
        } else {
            None
        },
{
    assert(configs.push(c).drop_last() =~= configs);
}

/// Among keys with different names, the profile found under an id is the one
/// that the key of that name reads as, if that key can be opened.
pub proof fn lemma_lookup_listing(keys: Seq<KeyView>, id: Seq<char>)
    requires
        names_unique(keys),
    ensures
        lookup(listing(keys), id) == match find_key(keys, id) {
            Some(i) => if keys[i].locked {
                None
            } else {
                Some(record_of(keys[i]))
            },
            None => None,
        },
    decreases keys.len(),
{
    if keys.len() > 0 {
        let front = keys.drop_last();
        assert(forall|j: int| 0 <= j < front.len() ==> front[j] == keys[j]);
        assert(names_unique(front));
        lemma_lookup_listing(front, id);
        lemma_find_key(front, id);
        lemma_find_key(keys, id);
        if !keys.last().locked {
            lemma_lookup_push(listing(front), record_of(keys.last()), id);
        }
    }
}

/// The names of the three values of a profile differ from each other.
pub proof fn lemma_value_names_differ()
    ensures
        password_name() != ipv4_name(),
        password_name() != ipv6_name(),
        ipv4_name() != ipv6_name(),
{
    reveal_strlit("Password");
    reveal_strlit("IPv4Notify");
    reveal_strlit("IPv6Notify");
    assert(password_name().len() == 8);
    assert(ipv4_name().len() == 10);
    assert(ipv6_name().len() == 10);
    assert(ipv4_name()[3] == '4');
    assert(ipv6_name()[3] == '6');
}

/// After a value was written, reading it gives what was written.
pub proof fn lemma_put_then_query(key: KeyView, name: Seq<char>, kind: u32, data: Seq<u8>)
    ensures
        query(KeyView { values: put_value(key.values, name, kind, data), ..key }, name)
            == value_reply(ValueView { name, kind, data }),
{
    let values = key.values;
    let after = put_value(values, name, kind, data);
    lemma_find_value(values, name);
    match find_value(values, name) {
        Some(i) => {
            assert forall|j: int| 0 <= j < i implies after[j].name != name by {
                assert(after[j] == values[j]);
            }
            lemma_find_value_is(after, name, i);
        },
        None => {
            let i = values.len() as int;
            assert forall|j: int| 0 <= j < i implies after[j].name != name by {
                assert(after[j] == values[j]);
            }
            lemma_find_value_is(after, name, i);
        },
    }
}

/// After a value was written, reading a value of another name gives what it
/// gave before.
pub proof fn lemma_put_then_query_other(
    key: KeyView,
    name: Seq<char>,
    kind: u32,
    data: Seq<u8>,
    other: Seq<char>,
)
    requires
        other != name,
    ensures
        query(KeyView { values: put_value(key.values, name, kind, data), ..key }, other) == query(
            key,
            other,
        ),
{
    let values = key.values;
    let after = put_value(values, name, kind, data);
    lemma_find_value(values, name);
    lemma_find_value(values, other);
    assert(forall|j: int| 0 <= j < values.len() && values[j].name == other ==> after[j] == values[j]);
    assert(forall|j: int| 0 <= j < after.len() && after[j].name == other ==> j < values.len() && after[j] == values[j]);
    match find_value(values, other) {
        Some(m) => {
            assert forall|j: int| 0 <= j < m implies after[j].name != other by {
                if after[j].name == other {
                    assert(values[j].name == other);
                }
            }
            lemma_find_value_is(after, other, m);
        },
        None => {
            assert forall|j: int| 0 <= j < after.len() implies after[j].name != other by {
                if after[j].name == other {
                    assert(values[j].name == other);
                }
            }
            lemma_find_value_none(after, other);
        },
    }
}

/// A key to which a profile was written reads as that profile, provided the
/// password holds no character of number zero, at which a stored text ends.
pub proof fn lemma_written_record(key: KeyView, password: Seq<char>, ipv4: bool, ipv6: bool)
    requires
        forall|i: int| 0 <= i < password.len() ==> password[i] != '\0',
    ensures
        record_of(KeyView { values: written(key.values, password, ipv4, ipv6), ..key }) == (ConfigView {
            master_id: key.name,
            password,
            ipv4_notify: ipv4,
            ipv6_notify: ipv6,
        }),
{
    lemma_value_names_differ();
    let k1 = KeyView { values: written_password(key.values, password), ..key };
    let k2 = KeyView { values: written_ipv4(key.values, password, ipv4), ..key };
    let k3 = KeyView { values: written(key.values, password, ipv4, ipv6), ..key };
    lemma_put_then_query(key, password_name(), REG_SZ, text_data(password));
    lemma_put_then_query_other(
        k1,
        ipv4_name(),
        REG_DWORD,
        le_bytes32(flag_word(ipv4)),
        password_name(),
    );
    lemma_put_then_query_other(
        k2,
        ipv6_name(),
        REG_DWORD,
        le_bytes32(flag_word(ipv6)),
        password_name(),
    );
    lemma_put_then_query(k1, ipv4_name(), REG_DWORD, le_bytes32(flag_word(ipv4)));
    lemma_put_then_query_other(k2, ipv6_name(), REG_DWORD, le_bytes32(flag_word(ipv6)), ipv4_name());
    lemma_put_then_query(k2, ipv6_name(), REG_DWORD, le_bytes32(flag_word(ipv6)));
    crate::registry::lemma_text_roundtrip(password);
    crate::registry::lemma_flag_roundtrip(ipv4);
    crate::registry::lemma_flag_roundtrip(ipv6);
}

/// Saving a profile and then getting it gives exactly what was saved: the
/// id, the password and both flags.
///
/// This holds wherever the profile can be saved, for every password without
/// the character of number zero.
pub proof fn lemma_save_then_get(h: HiveView, id: Seq<char>, password: Seq<char>, ipv4: bool, ipv6: bool)
    requires
        hive_wf(h),
        save_outcome(h, id) is Ok,
        forall|i: int| 0 <= i < password.len() ==> password[i] != '\0',
    ensures
        get_outcome(saved(h, id, password, ipv4, ipv6), id) == Ok::<ConfigView, StoreError>(
            ConfigView { master_id: id, password, ipv4_notify: ipv4, ipv6_notify: ipv6 },
        ),
{
    let c = created(h, id);
    let k = target(h, id);
    let after = saved(h, id, password, ipv4, ipv6);
    lemma_find_key(h.keys, id);
    assert(names_unique(c.keys));
    assert(names_unique(after.keys));
    lemma_find_key(after.keys, id);
    assert(after.keys[k].name == id);
    assert(find_key(after.keys, id) == Some(k));
    lemma_lookup_listing(after.keys, id);
    lemma_written_record(c.keys[k], password, ipv4, ipv6);
}

/// Saving a profile leaves every other profile as it was.
pub proof fn lemma_save_keeps_others(
    h: HiveView,
    id: Seq<char>,
    password: Seq<char>,
    ipv4: bool,
    ipv6: bool,
    other: Seq<char>,
)
    requires
        hive_wf(h),
        save_outcome(h, id) is Ok,
        other != id,
    ensures
        get_outcome(saved(h, id, password, ipv4, ipv6), other) == get_outcome(h, other),
{
    let c = created(h, id);
    let k = target(h, id);
    let after = saved(h, id, password, ipv4, ipv6);
    lemma_find_key(h.keys, id);
    lemma_find_key(h.keys, other);
    assert(names_unique(after.keys));
    assert(after.keys[k].name == id);
    assert(forall|j: int| 0 <= j < h.keys.len() && j != k ==> after.keys[j] == h.keys[j]);
    assert(after.keys.len() == c.keys.len());
    match find_key(h.keys, other) {
        Some(m) => {
            assert(m != k);
            assert forall|j: int| 0 <= j < m implies after.keys[j].name != other by {
                if j != k {
                    assert(after.keys[j] == h.keys[j]);
                }
            }
            lemma_find_key_is(after.keys, other, m);
        },
        None => {
            assert forall|j: int| 0 <= j < after.keys.len() implies after.keys[j].name != other by {
                if j != k {
                    assert(after.keys[j] == h.keys[j]);
                }
            }
            lemma_find_key_none(after.keys, other);
        },
    }
    lemma_lookup_listing(after.keys, other);
    lemma_lookup_listing(h.keys, other);
}

/// Deleting a profile and then getting it gives `NotFound`.
pub proof fn lemma_delete_then_get(h: HiveView, id: Seq<char>)
    requires
        hive_wf(h),
        delete_outcome(h, id) is Ok,
    ensures
        get_outcome(deleted(h, id), id) == Err::<ConfigView, StoreError>(StoreError::NotFound),
{
    let after = deleted(h, id);
    lemma_find_key(h.keys, id);
    assert(names_unique(after.keys));
    lemma_find_key(after.keys, id);
    lemma_lookup_listing(after.keys, id);
}

/// Deleting a profile that does not exist gives `NotFound` and leaves the
/// hive as it was, unless the hive exists and refuses writing: then the
/// failure is that refusal.
pub proof fn lemma_delete_missing(h: HiveView, id: Seq<char>)
    requires
        hive_wf(h),
        find_key(h.keys, id) is None,
        !(h.present && h.read_only),
    ensures
        delete_outcome(h, id) == Err::<(), StoreError>(StoreError::NotFound),
        deleted(h, id) == h,
{
}

/// Deleting a profile leaves every other profile as it was.
pub proof fn lemma_delete_keeps_others(h: HiveView, id: Seq<char>, other: Seq<char>)
    requires
        hive_wf(h),
        other != id,
    ensures
        get_outcome(deleted(h, id), other) == get_outcome(h, other),
{
    let after = deleted(h, id);
    lemma_find_key(h.keys, id);
    lemma_find_key(h.keys, other);
    if let Some(i) = find_key(h.keys, id) {
        assert(forall|j: int| 0 <= j < i ==> after.keys[j] == h.keys[j]);
        assert(forall|j: int| i <= j < after.keys.len() ==> after.keys[j] == h.keys[j + 1]);
        assert(names_unique(after.keys));
        match find_key(h.keys, other) {
            Some(m) => {
                assert(m != i);
                let m2 = if m < i {
                    m
                } else {
                    m - 1
                };
                assert(after.keys[m2] == h.keys[m]);
                assert forall|j: int| 0 <= j < m2 implies after.keys[j].name != other by {
                    if j < i {
                        assert(after.keys[j] == h.keys[j]);
                    } else {
                        assert(after.keys[j] == h.keys[j + 1]);
                    }
                }
                lemma_find_key_is(after.keys, other, m2);
            },
            None => {
                assert forall|j: int| 0 <= j < after.keys.len() implies after.keys[j].name != other by {
                    if j < i {
                        assert(after.keys[j] == h.keys[j]);
                    } else {
                        assert(after.keys[j] == h.keys[j + 1]);
                    }
                }
                lemma_find_key_none(after.keys, other);
            },
        }
        lemma_lookup_listing(after.keys, other);
        lemma_lookup_listing(h.keys, other);
    }
}

/// Reading a hive without a root finds no profiles.
pub proof fn lemma_list_without_root(h: HiveView)
    requires
        hive_wf(h),
        !h.present,
    ensures
        listing(h.keys) == Seq::<ConfigView>::empty(),
{
}

/// The profiles of a list other than those with the id `id`, in their order.
pub open spec fn without(configs: Seq<ConfigView>, id: Seq<char>) -> Seq<ConfigView>
    decreases configs.len(),
{
    if configs.len() == 0 {
        Seq::empty()
    } else if configs.last().master_id == id {
        without(configs.drop_last(), id)
    } else {
        without(configs.drop_last(), id).push(configs.last())
    }
}

/// Leaving out an id from a list with one more profile.
pub proof fn lemma_without_push(configs: Seq<ConfigView>, c: ConfigView, id: Seq<char>)
    ensures
        without(configs.push(c), id) == if c.master_id == id {
            without(configs, id)
        } else {
            without(configs, id).push(c)
        },
{
    assert(configs.push(c).drop_last() =~= configs);
}

/// Damage to one profile's key, be it values of the wrong type, missing
/// values or a lock, hides no other profile: with that profile left out, the
/// list is what it was.
pub proof fn lemma_damage_keeps_list(keys: Seq<KeyView>, i: int, damaged: KeyView)
    requires
        0 <= i < keys.len(),
        damaged.name == keys[i].name,
    ensures
        without(listing(keys.update(i, damaged)), keys[i].name) == without(
            listing(keys),
            keys[i].name,
        ),
    decreases keys.len(),
{
    let name = keys[i].name;
    let after = keys.update(i, damaged);
    let front = keys.drop_last();
    if i == keys.len() - 1 {
        assert(after.drop_last() =~= front);
        if !keys.last().locked {
            lemma_without_push(listing(front), record_of(keys.last()), name);
        }
        if !damaged.locked {
            lemma_without_push(listing(front), record_of(damaged), name);
        }
    } else {
        lemma_damage_keeps_list(front, i, damaged);
        assert(after.drop_last() =~= front.update(i, damaged));
        assert(after.last() == keys.last());
        if !keys.last().locked {
            lemma_without_push(listing(front), record_of(keys.last()), name);
            lemma_without_push(listing(after.drop_last()), record_of(keys.last()), name);
        }
    }
}

} // verus!
