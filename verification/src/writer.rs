//! Writing to the profile store: saving one profile and deleting one, each as
//! a run of requests whose replies decide how it goes on.

use vstd::prelude::*;
use crate::bytes::le_bytes32;
use crate::registry::{
    child_path, flag_word, ipv4_name, ipv6_name, outcome_of, password_name, root_path, text_data,
    classify_status, set_reg_dword, set_reg_string, RegReply, RegRequest, ReplyView, RequestView,
    StoreError, ERROR_SUCCESS, REG_DWORD, REG_SZ,
};
use crate::text::join3;

verus! {

/// Where the saving of a profile stands: the request that is out.
#[derive(Clone, Copy, Debug, PartialEq, Eq)]
pub enum SavePhase {
    Creating,
    WritingPassword,
    WritingIpv4,
    WritingIpv6,
    Closing,
}

/// The saving of one profile, one request at a time. `outcome` is what the
/// saving will report once the key is closed.
#[derive(Debug)]
pub struct Saver {
    pub phase: SavePhase,
    pub password: String,
    pub ipv4_notify: bool,
    pub ipv6_notify: bool,
    pub outcome: Result<(), StoreError>,
}

/// A `Saver` as a mathematical value.
pub struct SaverView {
    pub phase: SavePhase,
    pub password: Seq<char>,
    pub ipv4_notify: bool,
    pub ipv6_notify: bool,
    pub outcome: Result<(), StoreError>,
}

impl View for Saver {
    type V = SaverView;

    open spec fn view(&self) -> SaverView {
        SaverView {
            phase: self.phase,
            password: self.password@,
            ipv4_notify: self.ipv4_notify,
            ipv6_notify: self.ipv6_notify,
            outcome: self.outcome,
        }
    }
}

/// What the saving does next: another request, or the end.
#[derive(Debug)]
pub enum SaveStep {
    Ask { saver: Saver, request: RegRequest },
    Done { outcome: Result<(), StoreError> },
}

/// A `SaveStep` as a mathematical value.
pub enum SaveStepView {
    Ask { saver: SaverView, request: RequestView },
    Done { outcome: Result<(), StoreError> },
}

impl View for SaveStep {
    type V = SaveStepView;

    open spec fn view(&self) -> SaveStepView {
        match *self {
            SaveStep::Ask { saver, request } => SaveStepView::Ask { saver: saver@, request: request@ },
            SaveStep::Done { outcome } => SaveStepView::Done { outcome },
        }
    }
}

/// The saving before its first reply.
pub open spec fn save_start(password: Seq<char>, ipv4_notify: bool, ipv6_notify: bool) -> SaverView {
    SaverView { phase: SavePhase::Creating, password, ipv4_notify, ipv6_notify, outcome: Ok(()) }
}

/// The first request of the saving: open the profile's key, creating it if
/// it does not exist.
pub open spec fn save_first_request(id: Seq<char>) -> RequestView {
    RequestView::CreateKey { path: child_path(id) }
}

/// The request that writes a flag.
pub open spec fn flag_request(name: Seq<char>, flag: bool) -> RequestView {
    RequestView::SetValue { name, kind: REG_DWORD, data: le_bytes32(flag_word(flag)) }
}

/// The step that gives up writing: the key is closed, and `status` is reported.
pub open spec fn save_abandon(saver: SaverView, status: u32) -> SaveStepView {
    SaveStepView::Ask {
        saver: SaverView {
            phase: SavePhase::Closing,
            outcome: Err(StoreError::Persistence { code: status }),
            ..saver
        },
        request: RequestView::CloseChild,
    }
}

/// The saving's rule: what follows from the reply to the request that is out.
///
/// The three values are written in the order password, IPv4 flag, IPv6 flag.
/// The first request that fails ends the writing, and its status is what the
/// saving reports. A key that was opened is closed before the saving ends.
pub open spec fn save_step(saver: SaverView, reply: ReplyView) -> SaveStepView {
    match saver.phase {
        SavePhase::Creating => {
            if reply.status != ERROR_SUCCESS {
                SaveStepView::Done { outcome: Err(StoreError::Persistence { code: reply.status }) }
            } else {
                SaveStepView::Ask {
                    saver: SaverView { phase: SavePhase::WritingPassword, ..saver },
                    request: RequestView::SetValue {
                        name: password_name(),
                        kind: REG_SZ,
                        data: text_data(saver.password),
                    },
                }
            }
        },
        SavePhase::WritingPassword => {
            if reply.status != ERROR_SUCCESS {
                save_abandon(saver, reply.status)
            } else {
                SaveStepView::Ask {
                    saver: SaverView { phase: SavePhase::WritingIpv4, ..saver },
                    request: flag_request(ipv4_name(), saver.ipv4_notify),
                }
            }
        },
        SavePhase::WritingIpv4 => {
            if reply.status != ERROR_SUCCESS {
                save_abandon(saver, reply.status)
            } else {
                SaveStepView::Ask {
                    saver: SaverView { phase: SavePhase::WritingIpv6, ..saver },
                    request: flag_request(ipv6_name(), saver.ipv6_notify),
                }
            }
        },
        SavePhase::WritingIpv6 => {
            if reply.status != ERROR_SUCCESS {
                save_abandon(saver, reply.status)
            } else {
                SaveStepView::Ask {
                    saver: SaverView { phase: SavePhase::Closing, ..saver },
                    request: RequestView::CloseChild,
                }
            }
        },
        SavePhase::Closing => SaveStepView::Done { outcome: saver.outcome },
    }
}

impl Saver {
    /// Begins the saving of the profile `id`: the machine and its first request.
    pub fn start(id: &str, password: &str, ipv4_notify: bool, ipv6_notify: bool) -> (out: (
        Saver,
        RegRequest,
    ))
        ensures
            out.0@ == save_start(password@, ipv4_notify, ipv6_notify),
            out.1@ == save_first_request(id@),
    {
        let saver = Saver {
            phase: SavePhase::Creating,
            password: password.to_owned(),
            ipv4_notify,
            ipv6_notify,
            outcome: Ok(()),
        };
        let path = join3("Software\\MyDNSAdapter", "\\", id);
        proof {
            reveal_strlit("\\");
            assert("\\"@ =~= seq!['\\']);
        }
        (saver, RegRequest::CreateKey { path })
    }

    /// Gives up writing after the status `status`.
    fn abandon(self, status: u32) -> (step: SaveStep)
        ensures
            step@ == save_abandon(self@, status),
    {
        let mut saver = self;
        saver.phase = SavePhase::Closing;
        saver.outcome = Err(StoreError::Persistence { code: status });
        SaveStep::Ask { saver, request: RegRequest::CloseChild }
    }

    /// Takes the reply to the request that is out and says what comes next.
    pub fn step(self, reply: &RegReply) -> (step: SaveStep)
        ensures
            step@ == save_step(self@, reply@),
    {
        let mut saver = self;
        match saver.phase {
            SavePhase::Creating => {
                if reply.status != ERROR_SUCCESS {
                    SaveStep::Done { outcome: Err(StoreError::Persistence { code: reply.status }) }
                } else {
                    saver.phase = SavePhase::WritingPassword;
                    let request = set_reg_string("Password", saver.password.as_str());
                    SaveStep::Ask { saver, request }
                }
            },
            SavePhase::WritingPassword => {
                if reply.status != ERROR_SUCCESS {
                    saver.abandon(reply.status)
                } else {
                    saver.phase = SavePhase::WritingIpv4;
                    let request = set_reg_dword("IPv4Notify", if saver.ipv4_notify { 1 } else { 0 });
                    SaveStep::Ask { saver, request }
                }
            },
            SavePhase::WritingIpv4 => {
                if reply.status != ERROR_SUCCESS {
                    saver.abandon(reply.status)
                } else {
                    saver.phase = SavePhase::WritingIpv6;
                    let request = set_reg_dword("IPv6Notify", if saver.ipv6_notify { 1 } else { 0 });
                    SaveStep::Ask { saver, request }
                }
            },
            SavePhase::WritingIpv6 => {
                if reply.status != ERROR_SUCCESS {
                    saver.abandon(reply.status)
                } else {
                    saver.phase = SavePhase::Closing;
                    SaveStep::Ask { saver, request: RegRequest::CloseChild }
                }
            },
            SavePhase::Closing => SaveStep::Done { outcome: saver.outcome },
        }
    }
}

/// Where the deleting of a profile stands: the request that is out.
#[derive(Clone, Copy, Debug, PartialEq, Eq)]
pub enum DeletePhase {
    OpeningRoot,
    Deleting,
    Closing,
}

/// The deleting of one profile, one request at a time. `status` is what the
/// store said to the request to delete.
#[derive(Debug)]
pub struct Deleter {
    pub phase: DeletePhase,
    pub id: String,
    pub status: u32,
}

/// A `Deleter` as a mathematical value.
pub struct DeleterView {
    pub phase: DeletePhase,
    pub id: Seq<char>,
    pub status: u32,
}

impl View for Deleter {
    type V = DeleterView;

    open spec fn view(&self) -> DeleterView {
        DeleterView { phase: self.phase, id: self.id@, status: self.status }
    }
}

/// What the deleting does next: another request, or the end.
#[derive(Debug)]
pub enum DeleteStep {
    Ask { deleter: Deleter, request: RegRequest },
    Done { outcome: Result<(), StoreError> },
}

/// A `DeleteStep` as a mathematical value.
pub enum DeleteStepView {
    Ask { deleter: DeleterView, request: RequestView },
    Done { outcome: Result<(), StoreError> },
}

impl View for DeleteStep {
    type V = DeleteStepView;

    open spec fn view(&self) -> DeleteStepView {
        match *self {
            DeleteStep::Ask { deleter, request } => DeleteStepView::Ask {
                deleter: deleter@,
                request: request@,
            },
            DeleteStep::Done { outcome } => DeleteStepView::Done { outcome },
        }
    }
}

/// The deleting before its first reply.
pub open spec fn delete_start(id: Seq<char>) -> DeleterView {
    DeleterView { phase: DeletePhase::OpeningRoot, id, status: ERROR_SUCCESS }
}

/// The first request of the deleting: open the root for writing.
pub open spec fn delete_first_request() -> RequestView {
    RequestView::OpenRoot { path: root_path(), write: true }
}

/// The deleting's rule: what follows from the reply to the request that is out.
///
/// A root that cannot be opened ends the deleting with what its status
/// stands for; a root that does not exist holds no profile to delete. Else
/// the profile's key is deleted, the root is closed, and the deleting reports
/// what the status of the deletion stands for.
pub open spec fn delete_step(deleter: DeleterView, reply: ReplyView) -> DeleteStepView {
    match deleter.phase {
        DeletePhase::OpeningRoot => {
            if reply.status != ERROR_SUCCESS {
                DeleteStepView::Done { outcome: outcome_of(reply.status) }
            } else {
                DeleteStepView::Ask {
                    deleter: DeleterView { phase: DeletePhase::Deleting, ..deleter },
                    request: RequestView::DeleteChild { name: deleter.id },
                }
            }
        },
        DeletePhase::Deleting => DeleteStepView::Ask {
            deleter: DeleterView { phase: DeletePhase::Closing, status: reply.status, ..deleter },
            request: RequestView::CloseRoot,
        },
        DeletePhase::Closing => DeleteStepView::Done { outcome: outcome_of(deleter.status) },
    }
}

impl Deleter {
    /// Begins the deleting of the profile `id`: the machine and its first request.
    pub fn start(id: &str) -> (out: (Deleter, RegRequest))
        ensures
            out.0@ == delete_start(id@),
            out.1@ == delete_first_request(),
    {
        let deleter = Deleter {
            phase: DeletePhase::OpeningRoot,
            id: id.to_owned(),
            status: ERROR_SUCCESS,
        };
        (deleter, RegRequest::OpenRoot { path: "Software\\MyDNSAdapter".to_owned(), write: true })
    }

    /// Takes the reply to the request that is out and says what comes next.
    pub fn step(self, reply: &RegReply) -> (step: DeleteStep)
        ensures
            step@ == delete_step(self@, reply@),
    {
        let mut deleter = self;
        match deleter.phase {
            DeletePhase::OpeningRoot => {
                if reply.status != ERROR_SUCCESS {
                    DeleteStep::Done { outcome: classify_status(reply.status) }
                } else {
                    deleter.phase = DeletePhase::Deleting;
                    let name = deleter.id.clone();
                    DeleteStep::Ask { deleter, request: RegRequest::DeleteChild { name } }
                }
            },
            DeletePhase::Deleting => {
                deleter.phase = DeletePhase::Closing;
                deleter.status = reply.status;
                DeleteStep::Ask { deleter, request: RegRequest::CloseRoot }
            },
            DeletePhase::Closing => DeleteStep::Done { outcome: classify_status(deleter.status) },
        }
    }
}

} // verus!
