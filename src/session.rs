use vstd::prelude::*;
use crate::eraser::wipe;
use crate::fault::Fault;
use crate::schema::{schema_compiles, validate_backup, validation_outcome, EXPORT_SCHEMA};

verus! {

/// Where an invocation stands. Each phase but the last waits for the answer
/// to one request (see `pending_action`); validating and failing happen
/// inside the step that receives the answer to the erasure or to the output.
#[derive(Debug, Clone, Copy, PartialEq, Eq, Structural)]
pub enum Phase {
    Provisioning,
    Capturing,
    Erasing,
    Emitting,
    Cleanup,
    Terminal,
}

/// What the session asks its driver to do next.
#[derive(Debug, Clone, Copy, PartialEq, Eq, Structural)]
pub enum Action {
    /// Create the rendezvous channel, removing any stale one first.
    CreateChannel,
    /// Wait for the payload and read it whole.
    Receive,
    /// Overwrite the captured file with this many zero bytes and flush it.
    EraseAtRest(u64),
    /// Write the payload (`Session::payload`) verbatim to the output.
    Emit,
    /// Remove the channel's file-system artifact, if it is still there.
    RemoveChannel,
    /// Stop: no fault means success.
    Finish(Option<Fault>),
}

/// The driver's answer to the pending request.
pub enum Event {
    /// The request was carried out.
    Done,
    /// The request failed.
    Failed(Fault),
    /// The payload arrived: its text, and how many bytes the file that held
    /// it occupies at rest.
    Delivered { payload: String, on_disk_len: u64 },
}

/// The abstract state of a session.
pub struct SessionModel {
    pub phase: Phase,
    /// The captured text held in memory; empty before capture and once wiped.
    pub payload: Seq<char>,
    pub on_disk_len: u64,
    pub fault: Option<Fault>,
    pub emitted: bool,
    pub removal_failed: bool,
    /// What the validator said of a refused payload; empty otherwise.
    pub detail: Seq<char>,
}

/// The order of the phases.
pub open spec fn rank(p: Phase) -> nat {
    match p {
        Phase::Provisioning => 0,
        Phase::Capturing => 1,
        Phase::Erasing => 2,
        Phase::Emitting => 3,
        Phase::Cleanup => 4,
        Phase::Terminal => 5,
    }
}

pub open spec fn initial() -> SessionModel {
    SessionModel {
        phase: Phase::Provisioning,
        payload: Seq::empty(),
        on_disk_len: 0,
        fault: None,
        emitted: false,
        removal_failed: false,
        detail: Seq::empty(),
    }
}

/// The request that a session in state `s` waits on.
pub open spec fn pending_action(s: SessionModel) -> Action {
    match s.phase {
        Phase::Provisioning => Action::CreateChannel,
        Phase::Capturing => Action::Receive,
        Phase::Erasing => Action::EraseAtRest(s.on_disk_len),
        Phase::Emitting => Action::Emit,
        Phase::Cleanup => Action::RemoveChannel,
        Phase::Terminal => Action::Finish(s.fault),
    }
}

/// Failing: the payload is wiped and the session goes to cleanup.
pub open spec fn fail(s: SessionModel, f: Fault) -> SessionModel {
    SessionModel { phase: Phase::Cleanup, payload: Seq::empty(), fault: Some(f), ..s }
}

/// The fault that a failed answer in phase `p` stands for. Provisioning can
/// only fail on the channel; capture fails on the event stream or on I/O;
/// every later request is I/O. An answer that does not fit the request
/// counts as its failure.
pub open spec fn fault_of(p: Phase, ev: Event) -> Fault {
    match p {
        Phase::Provisioning => Fault::Channel,
        Phase::Capturing => if ev matches Event::Failed(f) && f == Fault::Watch {
            Fault::Watch
        } else {
            Fault::Io
        },
        _ => Fault::Io,
    }
}

/// One step of the session on the answer `ev`. The step that receives the
/// confirmed erasure validates the payload and moves on by the outcome.
pub open spec fn next(s: SessionModel, ev: Event) -> SessionModel {
    match s.phase {
        Phase::Provisioning => if ev is Done {
            SessionModel { phase: Phase::Capturing, ..s }
        } else {
            fail(s, fault_of(s.phase, ev))
        },
        Phase::Capturing => match ev {
            Event::Delivered { payload, on_disk_len } => SessionModel {
                phase: Phase::Erasing,
                payload: payload@,
                on_disk_len,
                ..s
            },
            _ => fail(s, fault_of(s.phase, ev)),
        },
        Phase::Erasing => if ev is Done {
            match validation_outcome(s.payload) {
                Ok(_) => SessionModel { phase: Phase::Emitting, ..s },
                Err(f) => fail(s, f),
            }
        } else {
            fail(s, fault_of(s.phase, ev))
        },
        Phase::Emitting => if ev is Done {
            SessionModel { phase: Phase::Cleanup, payload: Seq::empty(), emitted: true, ..s }
        } else {
            fail(s, fault_of(s.phase, ev))
        },
        Phase::Cleanup => SessionModel { phase: Phase::Terminal, removal_failed: !(ev is Done), ..s },
        Phase::Terminal => s,
    }
}

/// The answer `ev` makes the session validate its payload, and the payload
/// is refused.
pub open spec fn refuses(s: SessionModel, ev: Event) -> bool {
    s.phase == Phase::Erasing && ev is Done && validation_outcome(s.payload) is Err
}

/// Giving up on a session: the payload is wiped, and a session not yet in
/// cleanup goes there with the fault `f`.
pub open spec fn abandoned(s: SessionModel, f: Fault) -> SessionModel {
    if rank(s.phase) >= 4 {
        SessionModel { payload: Seq::empty(), ..s }
    } else {
        fail(s, f)
    }
}

/// Wipes the payload that an answer carries, if it carries one.
fn discard(ev: Event) {
    match ev {
        Event::Delivered { payload, on_disk_len: _ } => {
            let mut payload = payload;
            wipe(&mut payload);
        },
        _ => {},
    }
}

/// The exit status for the outcome of a session: zero exactly on success.
pub fn exit_code(outcome: Option<Fault>) -> (r: i32)
    ensures
        r == 0 <==> outcome is None,
{
    match outcome {
        None => 0,
        Some(_) => 1,
    }
}

/// One invocation: it owns the captured payload and decides, answer by
/// answer, what its driver does next.
pub struct Session {
    phase: Phase,
    payload: String,
    on_disk_len: u64,
    fault: Option<Fault>,
    emitted: bool,
    removal_failed: bool,
    detail: String,
}

impl View for Session {
    type V = SessionModel;

    closed spec fn view(&self) -> SessionModel {
        SessionModel {
            phase: self.phase,
            payload: self.payload@,
            on_disk_len: self.on_disk_len,
            fault: self.fault,
            emitted: self.emitted,
            removal_failed: self.removal_failed,
            detail: self.detail@,
        }
    }
}

impl Session {
    pub fn new() -> (r: Session)
        ensures
            r@ == initial(),
    {
        Session {
            phase: Phase::Provisioning,
            payload: String::new(),
            on_disk_len: 0,
            fault: None,
            emitted: false,
            removal_failed: false,
            detail: String::new(),
        }
    }

    /// The request that the session waits on.
    pub fn pending(&self) -> (r: Action)
        ensures
            r == pending_action(self@),
    {
        match self.phase {
            Phase::Provisioning => Action::CreateChannel,
            Phase::Capturing => Action::Receive,
            Phase::Erasing => Action::EraseAtRest(self.on_disk_len),
            Phase::Emitting => Action::Emit,
            Phase::Cleanup => Action::RemoveChannel,
            Phase::Terminal => Action::Finish(self.fault),
        }
    }

    /// The captured text, for the driver to write out on `Action::Emit`.
    pub fn payload(&self) -> (r: &str)
        ensures
            r@ == self@.payload,
    {
        self.payload.as_str()
    }

    pub fn phase(&self) -> (r: Phase)
        ensures
            r == self@.phase,
    {
        self.phase
    }

    /// Whether removing the channel failed: a warning that leaves the outcome
    /// as it was.
    pub fn removal_failed(&self) -> (r: bool)
        ensures
            r == self@.removal_failed,
    {
        self.removal_failed
    }

    /// What the validator said of a refused payload; empty otherwise.
    pub fn detail(&self) -> (r: &str)
        ensures
            r@ == self@.detail,
    {
        self.detail.as_str()
    }

    /// Gives up on the session, for a driver that cannot go on with it (the
    /// validator panicked): the payload is wiped at once, and the session
    /// asks for cleanup next unless it is already there or over.
    pub fn abandon(&mut self, f: Fault)
        ensures
            final(self)@ == abandoned(old(self)@, f),
            final(self)@.payload.len() == 0,
    {
        match self.phase {
            Phase::Cleanup | Phase::Terminal => wipe(&mut self.payload),
            _ => self.fail(f),
        }
    }

    fn fail(&mut self, f: Fault)
        ensures
            final(self)@ == fail(old(self)@, f),
    {
        wipe(&mut self.payload);
        self.phase = Phase::Cleanup;
        self.fault = Some(f);
    }

    /// Takes the driver's answer to the pending request and moves on.
    ///
    /// After the erasure at rest the payload is validated. A refusal leaves
    /// the validator's diagnosis in `detail`, which is otherwise kept.
    pub fn step(&mut self, ev: Event)
        ensures
            final(self)@ == (SessionModel { detail: final(self)@.detail, ..next(old(self)@, ev) }),
            !refuses(old(self)@, ev) ==> final(self)@.detail == old(self)@.detail,
            refuses(old(self)@, ev) && validation_outcome(old(self)@.payload) == Err::<(), Fault>(
                Fault::Validation,
            ) && schema_compiles(EXPORT_SCHEMA@) ==> final(self)@.detail.len() > 0,
    {
        match self.phase {
            Phase::Provisioning => {
                if matches!(ev, Event::Done) {
                    self.phase = Phase::Capturing;
                } else {
                    discard(ev);
                    self.fail(Fault::Channel);
                }
            },
            Phase::Capturing => {
                match ev {
                    Event::Delivered { payload, on_disk_len } => {
                        self.payload = payload;
                        self.on_disk_len = on_disk_len;
                        self.phase = Phase::Erasing;
                    },
                    Event::Failed(f) => {
                        if f == Fault::Watch {
                            self.fail(Fault::Watch);
                        } else {
                            self.fail(Fault::Io);
                        }
                    },
                    Event::Done => {
                        self.fail(Fault::Io);
                    },
                }
            },
            Phase::Erasing => {
                if matches!(ev, Event::Done) {
                    match validate_backup(self.payload.as_str()) {
                        Ok(()) => {
                            self.phase = Phase::Emitting;
                        },
                        Err(e) => {
                            self.detail = e.detail;
                            self.fail(e.fault);
                        },
                    }
                } else {
                    discard(ev);
                    self.fail(Fault::Io);
                }
            },
            Phase::Emitting => {
                if matches!(ev, Event::Done) {
                    wipe(&mut self.payload);
                    self.emitted = true;
                    self.phase = Phase::Cleanup;
                } else {
                    discard(ev);
                    self.fail(Fault::Io);
                }
            },
            Phase::Cleanup => {
                self.removal_failed = !matches!(ev, Event::Done);
                discard(ev);
                self.phase = Phase::Terminal;
            },
            Phase::Terminal => {
                discard(ev);
            },
        }
    }
}

} // verus!
