//! The verification engine: one state machine per phase, each a function
//! from state and observed event to next state and next action, with the
//! whole transition relation stated in its contract. A driver performs the
//! actions (connect, send, store) and answers with events; every decision
//! and every verdict is taken here.

use vstd::prelude::*;

verus! {

use crate::fault::Fault;
use crate::codec::frame_command;
use crate::protocol::{
    banner_bytes, build_get_note, build_help, build_list_notes, build_list_users, build_login,
    build_register, build_set_note, bytes_eq, check_banner, check_help, contains_entry,
    get_note_line, help_line, help_text_bytes, list_notes_line, list_users_line, listing_entries,
    login_line, login_success_bytes, parse_listing, parse_login_response, parse_register_response,
    parse_set_note_response, register_line, registration_success_bytes, set_note_id_of,
    set_note_line, views_of,
};
use crate::record::NotebookUser;
use vstd::pervasive::unreached;
use vstd::string::StrSliceExecFns;

/// One step of the multi-phase lifecycle the engine can be asked to run.
#[derive(Debug, Clone, Copy, PartialEq, Eq, Structural)]
pub enum Phase {
    PlantSecret,
    RecallSecret,
    PlantNoise,
    RecallNoise,
    ExerciseHelp,
    ExerciseUsers,
}

/// The checker entry points the control plane can invoke; together with a
/// variant selector they name the phase to run.
#[derive(Debug, Clone, Copy, PartialEq, Eq, Structural)]
pub enum Method {
    PutFlag,
    GetFlag,
    PutNoise,
    GetNoise,
    Havoc,
}

/// One verification job, as handed over by the control plane.
#[derive(Debug)]
pub struct Job {
    pub target_address: Vec<u8>,
    pub correlation_id: Vec<u8>,
    pub phase: Phase,
    pub secret: Option<Vec<u8>>,
}

/// What the driver must do next for a running phase. Every action but
/// `Finish` is answered with one `Event`.
#[derive(Debug)]
pub enum Action {
    /// Open a byte stream to the job's target and read the fixed-length
    /// welcome banner; answer with `Connected` or `ConnectFailed`.
    Connect,
    /// Write the framed command bytes, flush, and read one prompt-delimited
    /// response; answer with `Response`, `StreamEnded` or `StreamFailed`.
    Send(Vec<u8>),
    /// Read the lifecycle record stored under the given correlation id;
    /// answer with `Record` or `LookupFailed`.
    Lookup(Vec<u8>),
    /// Persist the lifecycle record under its correlation id; answer with
    /// `Stored` or `StoreFailed`.
    Store(NotebookUser),
    /// Run the two user-listing sub-sessions concurrently — one logging in
    /// with the given identity on the already-open session, one on a fresh
    /// unauthenticated session — each driven by its own `ListTask`; answer
    /// with `UserLists` once both completed, or `JoinFailed`.
    SpawnUserListTasks { username: Vec<u8>, password: Vec<u8> },
    /// The run is over with this verdict; no further event is expected.
    Finish(Result<(), Fault>),
}

/// What the driver observed while carrying out the last action.
#[derive(Debug)]
pub enum Event {
    /// The connection opened and banner-length bytes were read.
    Connected(Vec<u8>),
    /// The connection attempt itself failed: the target is down.
    ConnectFailed,
    /// One prompt-delimited response body, the delimiter already stripped.
    Response(Vec<u8>),
    /// The stream ended before the expected bytes arrived.
    StreamEnded,
    /// A read, write or flush failed mid-exchange; `connection_gone` when
    /// the platform classified it as refused, reset or aborted.
    StreamFailed { connection_gone: bool },
    /// The store lookup answered, with the record when one exists.
    Record(Option<NotebookUser>),
    /// The store lookup itself failed.
    LookupFailed,
    /// The store write succeeded.
    Stored,
    /// The store write failed.
    StoreFailed,
    /// Both user-listing sub-tasks completed, authenticated one first.
    UserLists(Result<Vec<Vec<u8>>, Fault>, Result<Vec<Vec<u8>>, Fault>),
    /// The concurrency join itself failed, independent of either sub-task.
    JoinFailed,
}

/// A framed command: the line followed by the line terminator.
pub open spec fn framed(line: Seq<u8>) -> Seq<u8> {
    line.push(10u8)
}

pub open spec fn sends(a: Action, line: Seq<u8>) -> bool {
    a matches Action::Send(cmd) && cmd@ == framed(line)
}

pub open spec fn finishes_ok(a: Action) -> bool {
    a matches Action::Finish(v) && v is Ok
}

pub open spec fn finishes_offline(a: Action, m: Seq<char>) -> bool {
    a matches Action::Finish(v) && v matches Err(f) && f matches Fault::Offline(s) && s@ == m
}

pub open spec fn finishes_protocol(a: Action, m: Seq<char>) -> bool {
    a matches Action::Finish(v) && v matches Err(f) && f matches Fault::ProtocolFault(s) && s@
        == m
}

pub open spec fn finishes_verification(a: Action, m: Seq<char>) -> bool {
    a matches Action::Finish(v) && v matches Err(f) && f matches Fault::VerificationFault(s)
        && s@ == m
}

pub open spec fn finishes_state(a: Action, m: Seq<char>) -> bool {
    a matches Action::Finish(v) && v matches Err(f) && f matches Fault::StateFault(s) && s@ == m
}

pub open spec fn finishes_internal(a: Action, m: Seq<char>) -> bool {
    a matches Action::Finish(v) && v matches Err(f) && f matches Fault::InternalFault(s) && s@
        == m
}

/// How a failure while an exchange is in flight is classified, once the
/// banner has been seen: a stream that ends before the delimiter violated the
/// framing; a torn connection means the target process is gone; any other
/// stream error is the deadline.
pub open spec fn mid_stream_failure(ev: Event, a: Action) -> bool {
    match ev {
        Event::StreamEnded => finishes_protocol(a, "delimiter not found"@),
        Event::StreamFailed { connection_gone } => if connection_gone {
            finishes_offline(a, "connection lost"@)
        } else {
            finishes_protocol(a, "timeout"@)
        },
        _ => false,
    }
}

/// How a failure while connecting or reading the banner is classified: no
/// banner was ever received, so a failed or torn connection means the target
/// is down, and a stream that ends early delivered a truncated banner.
pub open spec fn connect_failure(ev: Event, a: Action) -> bool {
    match ev {
        Event::ConnectFailed => finishes_offline(a, "connection to service failed"@),
        Event::StreamFailed { .. } => finishes_offline(a, "connection to service failed"@),
        Event::StreamEnded => finishes_protocol(a, "unexpected banner"@),
        _ => false,
    }
}

fn mid_stream_action(connection_gone: bool) -> (a: Action)
    ensures
        mid_stream_failure(Event::StreamFailed { connection_gone }, a),
{
    if connection_gone {
        Action::Finish(Err(Fault::Offline("connection lost")))
    } else {
        Action::Finish(Err(Fault::ProtocolFault("timeout")))
    }
}

/// Select the phase for one invocation of a checker method. Each method
/// carries a single variant, but the havoc method two; any other selector is
/// an internal sequencing error, not a target observation.
pub fn select_phase(method: Method, variant_id: u64) -> (r: Result<Phase, Fault>)
    ensures
        match method {
            Method::PutFlag => if variant_id == 0 {
                r matches Ok(p) && p == Phase::PlantSecret
            } else {
                r matches Err(f) && f matches Fault::InternalFault(m) && m@ == "invalid variant"@
            },
            Method::GetFlag => if variant_id == 0 {
                r matches Ok(p) && p == Phase::RecallSecret
            } else {
                r matches Err(f) && f matches Fault::InternalFault(m) && m@ == "invalid variant"@
            },
            Method::PutNoise => if variant_id == 0 {
                r matches Ok(p) && p == Phase::PlantNoise
            } else {
                r matches Err(f) && f matches Fault::InternalFault(m) && m@ == "invalid variant"@
            },
            Method::GetNoise => if variant_id == 0 {
                r matches Ok(p) && p == Phase::RecallNoise
            } else {
                r matches Err(f) && f matches Fault::InternalFault(m) && m@ == "invalid variant"@
            },
            Method::Havoc => if variant_id == 0 {
                r matches Ok(p) && p == Phase::ExerciseHelp
            } else if variant_id == 1 {
                r matches Ok(p) && p == Phase::ExerciseUsers
            } else {
                r matches Err(f) && f matches Fault::InternalFault(m) && m@ == "invalid variant"@
            },
        },
{
    match method {
        Method::PutFlag => if variant_id == 0 {
            Ok(Phase::PlantSecret)
        } else {
            Err(Fault::InternalFault("invalid variant"))
        },
        Method::GetFlag => if variant_id == 0 {
            Ok(Phase::RecallSecret)
        } else {
            Err(Fault::InternalFault("invalid variant"))
        },
        Method::PutNoise => if variant_id == 0 {
            Ok(Phase::PlantNoise)
        } else {
            Err(Fault::InternalFault("invalid variant"))
        },
        Method::GetNoise => if variant_id == 0 {
            Ok(Phase::RecallNoise)
        } else {
            Err(Fault::InternalFault("invalid variant"))
        },
        Method::Havoc => if variant_id == 0 {
            Ok(Phase::ExerciseHelp)
        } else if variant_id == 1 {
            Ok(Phase::ExerciseUsers)
        } else {
            Err(Fault::InternalFault("invalid variant"))
        },
    }
}

/// Progress marker of a plant run.
#[derive(Debug, Clone, Copy, PartialEq, Eq, Structural)]
pub enum PlantState {
    Connecting,
    Registering,
    LoggingIn,
    SettingNote,
    Storing,
    Finished,
}

/// A plant phase: generate a fresh identity, register it, log it in, store
/// the payload, and persist the lifecycle record — the record is handed to
/// the store only after every exchange succeeded, so a persisted record
/// implies the target accepted the content.
#[derive(Debug)]
pub struct PlantRun {
    pub user: NotebookUser,
    pub payload: Vec<u8>,
    pub st: PlantState,
}

/// Which events a plant run can be answered with in each state.
pub open spec fn plant_expects(st: PlantState, ev: Event) -> bool {
    match st {
        PlantState::Connecting => ev matches Event::Connected(_) || ev is ConnectFailed
            || ev matches Event::StreamFailed { .. } || ev is StreamEnded,
        PlantState::Registering | PlantState::LoggingIn | PlantState::SettingNote => ev matches
            Event::Response(_) || ev matches Event::StreamFailed { .. } || ev is StreamEnded,
        PlantState::Storing => ev is Stored || ev is StoreFailed,
        PlantState::Finished => false,
    }
}

/// The full transition relation of a plant run: how one answered event moves
/// the run on, which command goes out next, and how each deviation is
/// classified.
pub open spec fn plant_transition(pre: PlantRun, ev: Event, post: PlantRun, a: Action) -> bool {
    &&& post.payload@ == pre.payload@
    &&& match (pre.st, ev) {
        (PlantState::Connecting, Event::Connected(b)) => {
            if b@ == banner_bytes() {
                &&& post.user@ == pre.user@
                &&& post.st == PlantState::Registering
                &&& sends(a, register_line(pre.user@.username, pre.user@.password))
            } else {
                &&& post.user@ == pre.user@
                &&& post.st == PlantState::Finished
                &&& finishes_protocol(a, "unexpected banner"@)
            }
        },
        (PlantState::Connecting, _) => {
            &&& post.user@ == pre.user@
            &&& post.st == PlantState::Finished
            &&& connect_failure(ev, a)
        },
        (PlantState::Registering, Event::Response(b)) => {
            if b@ == registration_success_bytes() {
                &&& post.user@ == pre.user@
                &&& post.st == PlantState::LoggingIn
                &&& sends(a, login_line(pre.user@.username, pre.user@.password))
            } else {
                &&& post.user@ == pre.user@
                &&& post.st == PlantState::Finished
                &&& finishes_protocol(a, "registration rejected"@)
            }
        },
        (PlantState::LoggingIn, Event::Response(b)) => {
            if b@ == login_success_bytes() {
                &&& post.user@ == pre.user@
                &&& post.st == PlantState::SettingNote
                &&& sends(a, set_note_line(pre.payload@))
            } else {
                &&& post.user@ == pre.user@
                &&& post.st == PlantState::Finished
                &&& finishes_protocol(a, "login rejected"@)
            }
        },
        (PlantState::SettingNote, Event::Response(b)) => {
            if crate::codec::has_pattern_from(b@, crate::protocol::set_note_template(), 0) {
                &&& post.user@.username == pre.user@.username
                &&& post.user@.password == pre.user@.password
                &&& post.user@.task_chain_id == pre.user@.task_chain_id
                &&& post.user@.note == Some(pre.payload@)
                &&& post.user@.note_id == Some(set_note_id_of(b@))
                &&& post.st == PlantState::Storing
                &&& a matches Action::Store(u) && u@ == post.user@
            } else {
                &&& post.user@ == pre.user@
                &&& post.st == PlantState::Finished
                &&& finishes_protocol(a, "unexpected set-note response"@)
            }
        },
        (_, Event::StreamEnded) | (_, Event::StreamFailed { .. }) => {
            &&& post.user@ == pre.user@
            &&& post.st == PlantState::Finished
            &&& mid_stream_failure(ev, a)
        },
        (PlantState::Storing, Event::Stored) => {
            &&& post.user@ == pre.user@
            &&& post.st == PlantState::Finished
            &&& finishes_ok(a)
        },
        (PlantState::Storing, Event::StoreFailed) => {
            &&& post.user@ == pre.user@
            &&& post.st == PlantState::Finished
            &&& finishes_internal(a, "store write failed"@)
        },
        _ => false,
    }
}

impl PlantRun {
    /// Begin a plant run for one correlation id: a fresh random identity, no
    /// content yet, and a connection to open. The payload is the caller's to
    /// keep free of the line terminator: the protocol has no escaping.
    pub fn start(correlation_id: Vec<u8>, payload: Vec<u8>) -> (r: (Self, Action))
        requires
            crate::protocol::terminator_free(payload@),
        ensures
            r.0.st == PlantState::Connecting,
            r.0.user@.task_chain_id == correlation_id@,
            r.0.user@.note is None,
            r.0.user@.note_id is None,
            r.0.payload@ == payload@,
            r.1 is Connect,
    {
        let user = NotebookUser::gen_random(correlation_id);
        (PlantRun { user, payload, st: PlantState::Connecting }, Action::Connect)
    }

    /// Drive the run one step on the driver's answer to the last action.
    pub fn step(&mut self, event: Event) -> (a: Action)
        requires
            plant_expects(old(self).st, event),
        ensures
            plant_transition(*old(self), event, *final(self), a),
    {
        match (self.st, event) {
            (PlantState::Connecting, Event::Connected(b)) => {
                match check_banner(&b) {
                    Ok(()) => {
                        self.st = PlantState::Registering;
                        let cmd = build_register(&self.user.username, &self.user.password);
                        Action::Send(frame_command(&cmd))
                    },
                    Err(f) => {
                        self.st = PlantState::Finished;
                        Action::Finish(Err(f))
                    },
                }
            },
            (PlantState::Connecting, Event::ConnectFailed) => {
                self.st = PlantState::Finished;
                Action::Finish(Err(Fault::Offline("connection to service failed")))
            },
            (PlantState::Connecting, Event::StreamFailed { .. }) => {
                self.st = PlantState::Finished;
                Action::Finish(Err(Fault::Offline("connection to service failed")))
            },
            (PlantState::Connecting, Event::StreamEnded) => {
                self.st = PlantState::Finished;
                Action::Finish(Err(Fault::ProtocolFault("unexpected banner")))
            },
            (_, Event::StreamEnded) => {
                self.st = PlantState::Finished;
                Action::Finish(Err(Fault::ProtocolFault("delimiter not found")))
            },
            (_, Event::StreamFailed { connection_gone }) => {
                self.st = PlantState::Finished;
                mid_stream_action(connection_gone)
            },
            (PlantState::Registering, Event::Response(b)) => {
                match parse_register_response(&b) {
                    Ok(()) => {
                        self.st = PlantState::LoggingIn;
                        let cmd = build_login(&self.user.username, &self.user.password);
                        Action::Send(frame_command(&cmd))
                    },
                    Err(f) => {
                        self.st = PlantState::Finished;
                        Action::Finish(Err(f))
                    },
                }
            },
            (PlantState::LoggingIn, Event::Response(b)) => {
                match parse_login_response(&b) {
                    Ok(()) => {
                        self.st = PlantState::SettingNote;
                        let cmd = build_set_note(&self.payload);
                        Action::Send(frame_command(&cmd))
                    },
                    Err(f) => {
                        self.st = PlantState::Finished;
                        Action::Finish(Err(f))
                    },
                }
            },
            (PlantState::SettingNote, Event::Response(b)) => {
                match parse_set_note_response(&b) {
                    Ok(id) => {
                        self.user.note = Some(crate::record::copy_bytes(&self.payload));
                        self.user.note_id = Some(id);
                        self.st = PlantState::Storing;
                        Action::Store(self.user.duplicate())
                    },
                    Err(f) => {
                        self.st = PlantState::Finished;
                        Action::Finish(Err(f))
                    },
                }
            },
            (PlantState::Storing, Event::Stored) => {
                self.st = PlantState::Finished;
                Action::Finish(Ok(()))
            },
            (PlantState::Storing, Event::StoreFailed) => {
                self.st = PlantState::Finished;
                Action::Finish(Err(Fault::InternalFault("store write failed")))
            },
            _ => unreached(),
        }
    }
}


/// Progress marker of a recall run.
#[derive(Debug, Clone, Copy, PartialEq, Eq, Structural)]
pub enum RecallState {
    Loading,
    Connecting,
    LoggingIn,
    Listing,
    Fetching,
    Finished,
}

/// A recall phase: load the lifecycle record planted earlier, authenticate
/// with the stored identity, optionally require the stored content id to
/// appear in the note listing, and require the fetched note to equal the
/// stored content byte for byte. The record is only read, never changed.
#[derive(Debug)]
pub struct RecallRun {
    pub check_listing: bool,
    pub user: Option<NotebookUser>,
    pub st: RecallState,
}

/// The view of the loaded record, when one is loaded.
pub open spec fn opt_user_view(u: Option<NotebookUser>) -> Option<crate::record::NotebookUserView> {
    match u {
        Some(x) => Some(x@),
        None => None,
    }
}

/// A recall run past loading always carries a fully planted record.
pub open spec fn recall_wf(r: RecallRun) -> bool {
    match r.st {
        RecallState::Loading => true,
        RecallState::Connecting | RecallState::LoggingIn | RecallState::Listing
            | RecallState::Fetching => r.user matches Some(u) && u@.planted(),
        RecallState::Finished => true,
    }
}

/// Which events a recall run can be answered with in each state.
pub open spec fn recall_expects(st: RecallState, ev: Event) -> bool {
    match st {
        RecallState::Loading => ev matches Event::Record(_) || ev is LookupFailed,
        RecallState::Connecting => ev matches Event::Connected(_) || ev is ConnectFailed
            || ev matches Event::StreamFailed { .. } || ev is StreamEnded,
        RecallState::LoggingIn | RecallState::Listing | RecallState::Fetching => ev matches
            Event::Response(_) || ev matches Event::StreamFailed { .. } || ev is StreamEnded,
        RecallState::Finished => false,
    }
}

/// The full transition relation of a recall run.
pub open spec fn recall_transition(pre: RecallRun, ev: Event, post: RecallRun, a: Action) -> bool {
    &&& post.check_listing == pre.check_listing
    &&& match (pre.st, ev) {
        (RecallState::Loading, Event::Record(r)) => {
            match r {
                None => {
                    &&& post.st == RecallState::Finished
                    &&& finishes_state(a, "no prior record"@)
                },
                Some(u) => {
                    if u@.planted() {
                        &&& opt_user_view(post.user) == Some(u@)
                        &&& post.st == RecallState::Connecting
                        &&& a is Connect
                    } else {
                        &&& post.st == RecallState::Finished
                        &&& finishes_state(a, "incomplete prior record"@)
                    }
                },
            }
        },
        (RecallState::Loading, Event::LookupFailed) => {
            &&& post.st == RecallState::Finished
            &&& finishes_internal(a, "store read failed"@)
        },
        (RecallState::Connecting, Event::Connected(b)) => {
            &&& opt_user_view(post.user) == opt_user_view(pre.user)
            &&& if b@ == banner_bytes() {
                &&& post.st == RecallState::LoggingIn
                &&& sends(
                    a,
                    login_line(
                        pre.user.unwrap()@.username,
                        pre.user.unwrap()@.password,
                    ),
                )
            } else {
                &&& post.st == RecallState::Finished
                &&& finishes_protocol(a, "unexpected banner"@)
            }
        },
        (RecallState::Connecting, _) => {
            &&& opt_user_view(post.user) == opt_user_view(pre.user)
            &&& post.st == RecallState::Finished
            &&& connect_failure(ev, a)
        },
        (RecallState::LoggingIn, Event::Response(b)) => {
            &&& opt_user_view(post.user) == opt_user_view(pre.user)
            &&& if b@ == login_success_bytes() {
                if pre.check_listing {
                    &&& post.st == RecallState::Listing
                    &&& sends(a, list_notes_line())
                } else {
                    &&& post.st == RecallState::Fetching
                    &&& sends(a, get_note_line(pre.user.unwrap()@.note_id.unwrap()))
                }
            } else {
                &&& post.st == RecallState::Finished
                &&& finishes_protocol(a, "login rejected"@)
            }
        },
        (RecallState::Listing, Event::Response(b)) => {
            &&& opt_user_view(post.user) == opt_user_view(pre.user)
            &&& if listing_entries(b@).contains(pre.user.unwrap()@.note_id.unwrap()) {
                &&& post.st == RecallState::Fetching
                &&& sends(a, get_note_line(pre.user.unwrap()@.note_id.unwrap()))
            } else {
                &&& post.st == RecallState::Finished
                &&& finishes_verification(a, "content id missing from listing"@)
            }
        },
        (RecallState::Fetching, Event::Response(b)) => {
            &&& opt_user_view(post.user) == opt_user_view(pre.user)
            &&& if b@ == pre.user.unwrap()@.note.unwrap() {
                &&& post.st == RecallState::Finished
                &&& finishes_ok(a)
            } else {
                &&& post.st == RecallState::Finished
                &&& finishes_verification(a, "content mismatch"@)
            }
        },
        (_, Event::StreamEnded) | (_, Event::StreamFailed { .. }) => {
            &&& opt_user_view(post.user) == opt_user_view(pre.user)
            &&& post.st == RecallState::Finished
            &&& mid_stream_failure(ev, a)
        },
        _ => false,
    }
}

impl RecallRun {
    /// Begin a recall run: ask the store for the record planted under the
    /// correlation id. The listing membership check is part of the secret
    /// lifecycle only.
    pub fn start(correlation_id: Vec<u8>, check_listing: bool) -> (r: (Self, Action))
        ensures
            r.0.st == RecallState::Loading,
            r.0.check_listing == check_listing,
            r.0.user is None,
            recall_wf(r.0),
            r.1 matches Action::Lookup(k) && k@ == correlation_id@,
    {
        (
            RecallRun { check_listing, user: None, st: RecallState::Loading },
            Action::Lookup(correlation_id),
        )
    }

    /// Drive the run one step on the driver's answer to the last action.
    pub fn step(&mut self, event: Event) -> (a: Action)
        requires
            recall_wf(*old(self)),
            recall_expects(old(self).st, event),
        ensures
            recall_wf(*final(self)),
            recall_transition(*old(self), event, *final(self), a),
    {
        match (self.st, event) {
            (RecallState::Loading, Event::Record(r)) => {
                match r {
                    None => {
                        self.st = RecallState::Finished;
                        Action::Finish(Err(Fault::StateFault("no prior record")))
                    },
                    Some(u) => {
                        if u.note_id.is_some() && u.note.is_some() {
                            self.user = Some(u);
                            self.st = RecallState::Connecting;
                            Action::Connect
                        } else {
                            self.st = RecallState::Finished;
                            Action::Finish(Err(Fault::StateFault("incomplete prior record")))
                        }
                    },
                }
            },
            (RecallState::Loading, Event::LookupFailed) => {
                self.st = RecallState::Finished;
                Action::Finish(Err(Fault::InternalFault("store read failed")))
            },
            (RecallState::Connecting, Event::Connected(b)) => {
                match check_banner(&b) {
                    Ok(()) => {
                        self.st = RecallState::LoggingIn;
                        let cmd = match &self.user {
                            Some(u) => build_login(&u.username, &u.password),
                            None => unreached(),
                        };
                        Action::Send(frame_command(&cmd))
                    },
                    Err(f) => {
                        self.st = RecallState::Finished;
                        Action::Finish(Err(f))
                    },
                }
            },
            (RecallState::Connecting, Event::ConnectFailed) => {
                self.st = RecallState::Finished;
                Action::Finish(Err(Fault::Offline("connection to service failed")))
            },
            (RecallState::Connecting, Event::StreamFailed { .. }) => {
                self.st = RecallState::Finished;
                Action::Finish(Err(Fault::Offline("connection to service failed")))
            },
            (RecallState::Connecting, Event::StreamEnded) => {
                self.st = RecallState::Finished;
                Action::Finish(Err(Fault::ProtocolFault("unexpected banner")))
            },
            (_, Event::StreamEnded) => {
                self.st = RecallState::Finished;
                Action::Finish(Err(Fault::ProtocolFault("delimiter not found")))
            },
            (_, Event::StreamFailed { connection_gone }) => {
                self.st = RecallState::Finished;
                mid_stream_action(connection_gone)
            },
            (RecallState::LoggingIn, Event::Response(b)) => {
                match parse_login_response(&b) {
                    Ok(()) => {
                        if self.check_listing {
                            self.st = RecallState::Listing;
                            let cmd = build_list_notes();
                            Action::Send(frame_command(&cmd))
                        } else {
                            self.st = RecallState::Fetching;
                            let cmd = match &self.user {
                                Some(u) => match &u.note_id {
                                    Some(nid) => build_get_note(nid),
                                    None => unreached(),
                                },
                                None => unreached(),
                            };
                            Action::Send(frame_command(&cmd))
                        }
                    },
                    Err(f) => {
                        self.st = RecallState::Finished;
                        Action::Finish(Err(f))
                    },
                }
            },
            (RecallState::Listing, Event::Response(b)) => {
                let entries = parse_listing(&b);
                let listed = match &self.user {
                    Some(u) => match &u.note_id {
                        Some(nid) => contains_entry(&entries, nid),
                        None => unreached(),
                    },
                    None => unreached(),
                };
                if listed {
                    self.st = RecallState::Fetching;
                    let cmd = match &self.user {
                        Some(u) => match &u.note_id {
                            Some(nid) => build_get_note(nid),
                            None => unreached(),
                        },
                        None => unreached(),
                    };
                    Action::Send(frame_command(&cmd))
                } else {
                    self.st = RecallState::Finished;
                    Action::Finish(
                        Err(Fault::VerificationFault("content id missing from listing")),
                    )
                }
            },
            (RecallState::Fetching, Event::Response(b)) => {
                let same = match &self.user {
                    Some(u) => match &u.note {
                        Some(n) => bytes_eq(&b, n),
                        None => unreached(),
                    },
                    None => unreached(),
                };
                self.st = RecallState::Finished;
                if same {
                    Action::Finish(Ok(()))
                } else {
                    Action::Finish(Err(Fault::VerificationFault("content mismatch")))
                }
            },
            _ => unreached(),
        }
    }
}


/// Progress marker of a help-exercise run.
#[derive(Debug, Clone, Copy, PartialEq, Eq, Structural)]
pub enum HelpState {
    Connecting,
    Registering,
    LoggingIn,
    Querying,
    Finished,
}

/// The help exercise: with even odds, query the help text either immediately
/// on an unauthenticated session or after registering and logging in a fresh
/// identity; either way the returned text must equal the fixed help text
/// exactly. One variant covers both visibility paths.
#[derive(Debug)]
pub struct HelpRun {
    pub authenticated: bool,
    pub user: NotebookUser,
    pub st: HelpState,
}

/// Which events a help run can be answered with in each state.
pub open spec fn help_expects(st: HelpState, ev: Event) -> bool {
    match st {
        HelpState::Connecting => ev matches Event::Connected(_) || ev is ConnectFailed
            || ev matches Event::StreamFailed { .. } || ev is StreamEnded,
        HelpState::Registering | HelpState::LoggingIn | HelpState::Querying => ev matches
            Event::Response(_) || ev matches Event::StreamFailed { .. } || ev is StreamEnded,
        HelpState::Finished => false,
    }
}

/// The full transition relation of a help run.
pub open spec fn help_transition(pre: HelpRun, ev: Event, post: HelpRun, a: Action) -> bool {
    &&& post.authenticated == pre.authenticated
    &&& post.user@ == pre.user@
    &&& match (pre.st, ev) {
        (HelpState::Connecting, Event::Connected(b)) => {
            if b@ == banner_bytes() {
                if pre.authenticated {
                    &&& post.st == HelpState::Registering
                    &&& sends(a, register_line(pre.user@.username, pre.user@.password))
                } else {
                    &&& post.st == HelpState::Querying
                    &&& sends(a, help_line())
                }
            } else {
                &&& post.st == HelpState::Finished
                &&& finishes_protocol(a, "unexpected banner"@)
            }
        },
        (HelpState::Connecting, _) => {
            &&& post.st == HelpState::Finished
            &&& connect_failure(ev, a)
        },
        (HelpState::Registering, Event::Response(b)) => {
            if b@ == registration_success_bytes() {
                &&& post.st == HelpState::LoggingIn
                &&& sends(a, login_line(pre.user@.username, pre.user@.password))
            } else {
                &&& post.st == HelpState::Finished
                &&& finishes_protocol(a, "registration rejected"@)
            }
        },
        (HelpState::LoggingIn, Event::Response(b)) => {
            if b@ == login_success_bytes() {
                &&& post.st == HelpState::Querying
                &&& sends(a, help_line())
            } else {
                &&& post.st == HelpState::Finished
                &&& finishes_protocol(a, "login rejected"@)
            }
        },
        (HelpState::Querying, Event::Response(b)) => {
            if b@ == help_text_bytes() {
                &&& post.st == HelpState::Finished
                &&& finishes_ok(a)
            } else {
                &&& post.st == HelpState::Finished
                &&& finishes_verification(a, "help text mismatch"@)
            }
        },
        (_, Event::StreamEnded) | (_, Event::StreamFailed { .. }) => {
            &&& post.st == HelpState::Finished
            &&& mid_stream_failure(ev, a)
        },
        _ => false,
    }
}

impl HelpRun {
    /// Begin a help run: draw the visibility path at random, generate an
    /// identity for the authenticated path, and open a connection.
    pub fn start(correlation_id: Vec<u8>) -> (r: (Self, Action))
        ensures
            r.0.st == HelpState::Connecting,
            r.0.user@.task_chain_id == correlation_id@,
            r.1 is Connect,
    {
        let authenticated = rand::random::<bool>();
        let user = NotebookUser::gen_random(correlation_id);
        (HelpRun { authenticated, user, st: HelpState::Connecting }, Action::Connect)
    }

    /// Drive the run one step on the driver's answer to the last action.
    pub fn step(&mut self, event: Event) -> (a: Action)
        requires
            help_expects(old(self).st, event),
        ensures
            help_transition(*old(self), event, *final(self), a),
    {
        match (self.st, event) {
            (HelpState::Connecting, Event::Connected(b)) => {
                match check_banner(&b) {
                    Ok(()) => {
                        if self.authenticated {
                            self.st = HelpState::Registering;
                            let cmd = build_register(&self.user.username, &self.user.password);
                            Action::Send(frame_command(&cmd))
                        } else {
                            self.st = HelpState::Querying;
                            let cmd = build_help();
                            Action::Send(frame_command(&cmd))
                        }
                    },
                    Err(f) => {
                        self.st = HelpState::Finished;
                        Action::Finish(Err(f))
                    },
                }
            },
            (HelpState::Connecting, Event::ConnectFailed) => {
                self.st = HelpState::Finished;
                Action::Finish(Err(Fault::Offline("connection to service failed")))
            },
            (HelpState::Connecting, Event::StreamFailed { .. }) => {
                self.st = HelpState::Finished;
                Action::Finish(Err(Fault::Offline("connection to service failed")))
            },
            (HelpState::Connecting, Event::StreamEnded) => {
                self.st = HelpState::Finished;
                Action::Finish(Err(Fault::ProtocolFault("unexpected banner")))
            },
            (_, Event::StreamEnded) => {
                self.st = HelpState::Finished;
                Action::Finish(Err(Fault::ProtocolFault("delimiter not found")))
            },
            (_, Event::StreamFailed { connection_gone }) => {
                self.st = HelpState::Finished;
                mid_stream_action(connection_gone)
            },
            (HelpState::Registering, Event::Response(b)) => {
                match parse_register_response(&b) {
                    Ok(()) => {
                        self.st = HelpState::LoggingIn;
                        let cmd = build_login(&self.user.username, &self.user.password);
                        Action::Send(frame_command(&cmd))
                    },
                    Err(f) => {
                        self.st = HelpState::Finished;
                        Action::Finish(Err(f))
                    },
                }
            },
            (HelpState::LoggingIn, Event::Response(b)) => {
                match parse_login_response(&b) {
                    Ok(()) => {
                        self.st = HelpState::Querying;
                        let cmd = build_help();
                        Action::Send(frame_command(&cmd))
                    },
                    Err(f) => {
                        self.st = HelpState::Finished;
                        Action::Finish(Err(f))
                    },
                }
            },
            (HelpState::Querying, Event::Response(b)) => {
                self.st = HelpState::Finished;
                match check_help(&b) {
                    Ok(()) => Action::Finish(Ok(())),
                    Err(f) => Action::Finish(Err(f)),
                }
            },
            _ => unreached(),
        }
    }
}

/// Progress marker of a user-listing exercise run.
#[derive(Debug, Clone, Copy, PartialEq, Eq, Structural)]
pub enum UsersState {
    Connecting,
    Registering,
    Forked,
    Finished,
}

/// The user-listing exercise: register a fresh identity on a primary
/// session, then run two listing attempts concurrently — one logged in as
/// that identity, one on an independent unauthenticated session — and
/// require the registered name to appear in both lists.
#[derive(Debug)]
pub struct UsersRun {
    pub user: NotebookUser,
    pub st: UsersState,
}

/// Which events a users run can be answered with in each state.
pub open spec fn users_expects(st: UsersState, ev: Event) -> bool {
    match st {
        UsersState::Connecting => ev matches Event::Connected(_) || ev is ConnectFailed
            || ev matches Event::StreamFailed { .. } || ev is StreamEnded,
        UsersState::Registering => ev matches Event::Response(_) || ev matches
            Event::StreamFailed { .. } || ev is StreamEnded,
        UsersState::Forked => ev matches Event::UserLists(_, _) || ev is JoinFailed,
        UsersState::Finished => false,
    }
}

/// The verdict folded out of the two sub-task outcomes: a sub-task failure
/// is surfaced as the run's failure (authenticated side first); with both
/// lists in hand, the registered name must appear in each of them.
pub open spec fn users_fold(
    username: Seq<u8>,
    ra: Result<Vec<Vec<u8>>, Fault>,
    rb: Result<Vec<Vec<u8>>, Fault>,
    a: Action,
) -> bool {
    match (ra, rb) {
        (Err(f), _) => a matches Action::Finish(v) && v matches Err(g) && g == f,
        (Ok(_), Err(f)) => a matches Action::Finish(v) && v matches Err(g) && g == f,
        (Ok(la), Ok(lb)) => {
            if views_of(la@).contains(username) && views_of(lb@).contains(username) {
                finishes_ok(a)
            } else {
                finishes_verification(a, "registered user missing from listing"@)
            }
        },
    }
}

/// The full transition relation of a users run.
pub open spec fn users_transition(pre: UsersRun, ev: Event, post: UsersRun, a: Action) -> bool {
    &&& post.user@ == pre.user@
    &&& match (pre.st, ev) {
        (UsersState::Connecting, Event::Connected(b)) => {
            if b@ == banner_bytes() {
                &&& post.st == UsersState::Registering
                &&& sends(a, register_line(pre.user@.username, pre.user@.password))
            } else {
                &&& post.st == UsersState::Finished
                &&& finishes_protocol(a, "unexpected banner"@)
            }
        },
        (UsersState::Connecting, _) => {
            &&& post.st == UsersState::Finished
            &&& connect_failure(ev, a)
        },
        (UsersState::Registering, Event::Response(b)) => {
            if b@ == registration_success_bytes() {
                &&& post.st == UsersState::Forked
                &&& a matches Action::SpawnUserListTasks { username, password }
                &&& a matches Action::SpawnUserListTasks { username, password } ==> username@
                    == pre.user@.username && password@ == pre.user@.password
            } else {
                &&& post.st == UsersState::Finished
                &&& finishes_protocol(a, "registration rejected"@)
            }
        },
        (UsersState::Forked, Event::UserLists(ra, rb)) => {
            &&& post.st == UsersState::Finished
            &&& users_fold(pre.user@.username, ra, rb, a)
        },
        (UsersState::Forked, Event::JoinFailed) => {
            &&& post.st == UsersState::Finished
            &&& finishes_internal(a, "task join failed"@)
        },
        (_, Event::StreamEnded) | (_, Event::StreamFailed { .. }) => {
            &&& post.st == UsersState::Finished
            &&& mid_stream_failure(ev, a)
        },
        _ => false,
    }
}

impl UsersRun {
    /// Begin a users run: a fresh random identity and a connection to open.
    pub fn start(correlation_id: Vec<u8>) -> (r: (Self, Action))
        ensures
            r.0.st == UsersState::Connecting,
            r.0.user@.task_chain_id == correlation_id@,
            r.1 is Connect,
    {
        let user = NotebookUser::gen_random(correlation_id);
        (UsersRun { user, st: UsersState::Connecting }, Action::Connect)
    }

    /// Drive the run one step on the driver's answer to the last action.
    pub fn step(&mut self, event: Event) -> (a: Action)
        requires
            users_expects(old(self).st, event),
        ensures
            users_transition(*old(self), event, *final(self), a),
    {
        match (self.st, event) {
            (UsersState::Connecting, Event::Connected(b)) => {
                match check_banner(&b) {
                    Ok(()) => {
                        self.st = UsersState::Registering;
                        let cmd = build_register(&self.user.username, &self.user.password);
                        Action::Send(frame_command(&cmd))
                    },
                    Err(f) => {
                        self.st = UsersState::Finished;
                        Action::Finish(Err(f))
                    },
                }
            },
            (UsersState::Connecting, Event::ConnectFailed) => {
                self.st = UsersState::Finished;
                Action::Finish(Err(Fault::Offline("connection to service failed")))
            },
            (UsersState::Connecting, Event::StreamFailed { .. }) => {
                self.st = UsersState::Finished;
                Action::Finish(Err(Fault::Offline("connection to service failed")))
            },
            (UsersState::Connecting, Event::StreamEnded) => {
                self.st = UsersState::Finished;
                Action::Finish(Err(Fault::ProtocolFault("unexpected banner")))
            },
            (_, Event::StreamEnded) => {
                self.st = UsersState::Finished;
                Action::Finish(Err(Fault::ProtocolFault("delimiter not found")))
            },
            (_, Event::StreamFailed { connection_gone }) => {
                self.st = UsersState::Finished;
                mid_stream_action(connection_gone)
            },
            (UsersState::Registering, Event::Response(b)) => {
                match parse_register_response(&b) {
                    Ok(()) => {
                        self.st = UsersState::Forked;
                        Action::SpawnUserListTasks {
                            username: crate::record::copy_bytes(&self.user.username),
                            password: crate::record::copy_bytes(&self.user.password),
                        }
                    },
                    Err(f) => {
                        self.st = UsersState::Finished;
                        Action::Finish(Err(f))
                    },
                }
            },
            (UsersState::Forked, Event::UserLists(ra, rb)) => {
                self.st = UsersState::Finished;
                match ra {
                    Err(f) => Action::Finish(Err(f)),
                    Ok(la) => match rb {
                        Err(f) => Action::Finish(Err(f)),
                        Ok(lb) => {
                            let in_auth = contains_entry(&la, &self.user.username);
                            let in_unauth = contains_entry(&lb, &self.user.username);
                            if in_auth && in_unauth {
                                Action::Finish(Ok(()))
                            } else {
                                Action::Finish(
                                    Err(
                                        Fault::VerificationFault(
                                            "registered user missing from listing",
                                        ),
                                    ),
                                )
                            }
                        },
                    },
                }
            },
            (UsersState::Forked, Event::JoinFailed) => {
                self.st = UsersState::Finished;
                Action::Finish(Err(Fault::InternalFault("task join failed")))
            },
            _ => unreached(),
        }
    }
}


/// Progress marker of one user-listing sub-task.
#[derive(Debug, Clone, Copy, PartialEq, Eq, Structural)]
pub enum ListTaskState {
    Connecting,
    LoggingIn,
    Listing,
    Finished,
}

/// What a sub-task's driver must do next.
#[derive(Debug)]
pub enum ListTaskAction {
    /// Open a fresh byte stream and read the fixed-length banner.
    Connect,
    /// Write the framed command and read one prompt-delimited response.
    Send(Vec<u8>),
    /// The sub-task is over with this outcome; no further event.
    Yield(Result<Vec<Vec<u8>>, Fault>),
}

pub open spec fn task_sends(a: ListTaskAction, line: Seq<u8>) -> bool {
    a matches ListTaskAction::Send(cmd) && cmd@ == framed(line)
}

pub open spec fn yields_offline(a: ListTaskAction, m: Seq<char>) -> bool {
    a matches ListTaskAction::Yield(v) && v matches Err(f) && f matches Fault::Offline(s) && s@
        == m
}

pub open spec fn yields_protocol(a: ListTaskAction, m: Seq<char>) -> bool {
    a matches ListTaskAction::Yield(v) && v matches Err(f) && f matches Fault::ProtocolFault(s)
        && s@ == m
}

/// The stream-failure classification of `mid_stream_failure`, for a sub-task.
pub open spec fn task_mid_stream_failure(ev: Event, a: ListTaskAction) -> bool {
    match ev {
        Event::StreamEnded => yields_protocol(a, "delimiter not found"@),
        Event::StreamFailed { connection_gone } => if connection_gone {
            yields_offline(a, "connection lost"@)
        } else {
            yields_protocol(a, "timeout"@)
        },
        _ => false,
    }
}

/// The connect-failure classification of `connect_failure`, for a sub-task.
pub open spec fn task_connect_failure(ev: Event, a: ListTaskAction) -> bool {
    match ev {
        Event::ConnectFailed => yields_offline(a, "connection to service failed"@),
        Event::StreamFailed { .. } => yields_offline(a, "connection to service failed"@),
        Event::StreamEnded => yields_protocol(a, "unexpected banner"@),
        _ => false,
    }
}

/// One of the two concurrent user-listing attempts. The authenticated task
/// keeps the primary session, logs in with the registered identity and lists
/// users; the other opens an independent session and lists users without
/// authenticating. Each task owns its session; the outcomes meet again only
/// in `users_fold`.
#[derive(Debug)]
pub struct ListTask {
    pub username: Vec<u8>,
    pub password: Vec<u8>,
    pub st: ListTaskState,
}

/// Which events a sub-task can be answered with in each state.
pub open spec fn task_expects(st: ListTaskState, ev: Event) -> bool {
    match st {
        ListTaskState::Connecting => ev matches Event::Connected(_) || ev is ConnectFailed
            || ev matches Event::StreamFailed { .. } || ev is StreamEnded,
        ListTaskState::LoggingIn | ListTaskState::Listing => ev matches Event::Response(_)
            || ev matches Event::StreamFailed { .. } || ev is StreamEnded,
        ListTaskState::Finished => false,
    }
}

/// The full transition relation of a sub-task.
pub open spec fn task_transition(pre: ListTask, ev: Event, post: ListTask, a: ListTaskAction) -> bool {
    &&& post.username@ == pre.username@
    &&& post.password@ == pre.password@
    &&& match (pre.st, ev) {
        (ListTaskState::Connecting, Event::Connected(b)) => {
            if b@ == banner_bytes() {
                &&& post.st == ListTaskState::Listing
                &&& task_sends(a, list_users_line())
            } else {
                &&& post.st == ListTaskState::Finished
                &&& yields_protocol(a, "unexpected banner"@)
            }
        },
        (ListTaskState::Connecting, _) => {
            &&& post.st == ListTaskState::Finished
            &&& task_connect_failure(ev, a)
        },
        (ListTaskState::LoggingIn, Event::Response(b)) => {
            if b@ == login_success_bytes() {
                &&& post.st == ListTaskState::Listing
                &&& task_sends(a, list_users_line())
            } else {
                &&& post.st == ListTaskState::Finished
                &&& yields_protocol(a, "login rejected"@)
            }
        },
        (ListTaskState::Listing, Event::Response(b)) => {
            &&& post.st == ListTaskState::Finished
            &&& a matches ListTaskAction::Yield(v) && v matches Ok(l) && views_of(l@)
                == listing_entries(b@)
        },
        (_, Event::StreamEnded) | (_, Event::StreamFailed { .. }) => {
            &&& post.st == ListTaskState::Finished
            &&& task_mid_stream_failure(ev, a)
        },
        _ => false,
    }
}

impl ListTask {
    /// The authenticated attempt: it inherits the primary session, already
    /// past the banner, and must log in before listing.
    pub fn start_authenticated(username: Vec<u8>, password: Vec<u8>) -> (r: (Self, ListTaskAction))
        ensures
            r.0.st == ListTaskState::LoggingIn,
            r.0.username@ == username@,
            r.0.password@ == password@,
            task_sends(r.1, login_line(username@, password@)),
    {
        let cmd = build_login(&username, &password);
        let framed_cmd = frame_command(&cmd);
        (
            ListTask { username, password, st: ListTaskState::LoggingIn },
            ListTaskAction::Send(framed_cmd),
        )
    }

    /// The unauthenticated attempt: a fresh session, banner first, no login.
    pub fn start_fresh() -> (r: (Self, ListTaskAction))
        ensures
            r.0.st == ListTaskState::Connecting,
            r.1 is Connect,
    {
        (
            ListTask { username: Vec::new(), password: Vec::new(), st: ListTaskState::Connecting },
            ListTaskAction::Connect,
        )
    }

    /// Drive the sub-task one step on the driver's answer to the last action.
    pub fn step(&mut self, event: Event) -> (a: ListTaskAction)
        requires
            task_expects(old(self).st, event),
        ensures
            task_transition(*old(self), event, *final(self), a),
    {
        match (self.st, event) {
            (ListTaskState::Connecting, Event::Connected(b)) => {
                match check_banner(&b) {
                    Ok(()) => {
                        self.st = ListTaskState::Listing;
                        let cmd = build_list_users();
                        ListTaskAction::Send(frame_command(&cmd))
                    },
                    Err(f) => {
                        self.st = ListTaskState::Finished;
                        ListTaskAction::Yield(Err(f))
                    },
                }
            },
            (ListTaskState::Connecting, Event::ConnectFailed) => {
                self.st = ListTaskState::Finished;
                ListTaskAction::Yield(Err(Fault::Offline("connection to service failed")))
            },
            (ListTaskState::Connecting, Event::StreamFailed { .. }) => {
                self.st = ListTaskState::Finished;
                ListTaskAction::Yield(Err(Fault::Offline("connection to service failed")))
            },
            (ListTaskState::Connecting, Event::StreamEnded) => {
                self.st = ListTaskState::Finished;
                ListTaskAction::Yield(Err(Fault::ProtocolFault("unexpected banner")))
            },
            (_, Event::StreamEnded) => {
                self.st = ListTaskState::Finished;
                ListTaskAction::Yield(Err(Fault::ProtocolFault("delimiter not found")))
            },
            (_, Event::StreamFailed { connection_gone }) => {
                self.st = ListTaskState::Finished;
                if connection_gone {
                    ListTaskAction::Yield(Err(Fault::Offline("connection lost")))
                } else {
                    ListTaskAction::Yield(Err(Fault::ProtocolFault("timeout")))
                }
            },
            (ListTaskState::LoggingIn, Event::Response(b)) => {
                match parse_login_response(&b) {
                    Ok(()) => {
                        self.st = ListTaskState::Listing;
                        let cmd = build_list_users();
                        ListTaskAction::Send(frame_command(&cmd))
                    },
                    Err(f) => {
                        self.st = ListTaskState::Finished;
                        ListTaskAction::Yield(Err(f))
                    },
                }
            },
            (ListTaskState::Listing, Event::Response(b)) => {
                self.st = ListTaskState::Finished;
                ListTaskAction::Yield(Ok(parse_listing(&b)))
            },
            _ => unreached(),
        }
    }
}

/// The filler payload planted by the noise lifecycle.
pub open spec fn noise_payload_bytes() -> Seq<u8> {
    seq![115u8, 106u8, 103u8, 111u8, 114u8, 105u8, 115u8, 100u8, 114u8]
}

pub fn noise_payload() -> (r: Vec<u8>)
    ensures
        r@ == noise_payload_bytes(),
{
    let mut r = "sjgorisdr".as_bytes_vec();
    proof {
        reveal_strlit("sjgorisdr");
        assert(vstd::utf8::is_ascii_chars("sjgorisdr"@));
        vstd::utf8::is_ascii_chars_encode_utf8("sjgorisdr"@);
        assert(r@ =~= noise_payload_bytes());
    }
    r
}

/// One running phase, whichever machine the job selected.
#[derive(Debug)]
pub enum EngineRun {
    Plant(PlantRun),
    Recall(RecallRun),
    Help(HelpRun),
    Users(UsersRun),
}

pub open spec fn engine_wf(r: EngineRun) -> bool {
    match r {
        EngineRun::Recall(rr) => recall_wf(rr),
        _ => true,
    }
}

/// Which events a running phase can be answered with.
pub open spec fn engine_expects(r: EngineRun, ev: Event) -> bool {
    match r {
        EngineRun::Plant(p) => plant_expects(p.st, ev),
        EngineRun::Recall(rr) => recall_expects(rr.st, ev),
        EngineRun::Help(h) => help_expects(h.st, ev),
        EngineRun::Users(u) => users_expects(u.st, ev),
    }
}

/// True once the run has finished and no further event is expected.
pub open spec fn engine_finished(r: EngineRun) -> bool {
    match r {
        EngineRun::Plant(p) => p.st == PlantState::Finished,
        EngineRun::Recall(rr) => rr.st == RecallState::Finished,
        EngineRun::Help(h) => h.st == HelpState::Finished,
        EngineRun::Users(u) => u.st == UsersState::Finished,
    }
}

impl EngineRun {
    /// Select and begin the phase a job asks for. A plant-secret job must
    /// carry the secret payload; the noise lifecycle plants the fixed filler
    /// payload instead, and its recall skips the listing check.
    pub fn start(job: Job) -> (r: (EngineRun, Action))
        requires
            job.phase == Phase::PlantSecret ==> (job.secret matches Some(s)
                && crate::protocol::terminator_free(s@)),
        ensures
            engine_wf(r.0),
            match job.phase {
                Phase::PlantSecret => r.0 matches EngineRun::Plant(p) && {
                    &&& p.st == PlantState::Connecting
                    &&& p.user@.task_chain_id == job.correlation_id@
                    &&& p.user@.note is None
                    &&& p.user@.note_id is None
                    &&& job.secret matches Some(sec) && p.payload@ == sec@
                    &&& r.1 is Connect
                },
                Phase::PlantNoise => r.0 matches EngineRun::Plant(p) && {
                    &&& p.st == PlantState::Connecting
                    &&& p.user@.task_chain_id == job.correlation_id@
                    &&& p.user@.note is None
                    &&& p.user@.note_id is None
                    &&& p.payload@ == noise_payload_bytes()
                    &&& r.1 is Connect
                },
                Phase::RecallSecret => r.0 matches EngineRun::Recall(rr) && {
                    &&& rr.st == RecallState::Loading
                    &&& rr.check_listing
                    &&& r.1 matches Action::Lookup(k) && k@ == job.correlation_id@
                },
                Phase::RecallNoise => r.0 matches EngineRun::Recall(rr) && {
                    &&& rr.st == RecallState::Loading
                    &&& !rr.check_listing
                    &&& r.1 matches Action::Lookup(k) && k@ == job.correlation_id@
                },
                Phase::ExerciseHelp => r.0 matches EngineRun::Help(h) && {
                    &&& h.st == HelpState::Connecting
                    &&& h.user@.task_chain_id == job.correlation_id@
                    &&& r.1 is Connect
                },
                Phase::ExerciseUsers => r.0 matches EngineRun::Users(u) && {
                    &&& u.st == UsersState::Connecting
                    &&& u.user@.task_chain_id == job.correlation_id@
                    &&& r.1 is Connect
                },
            },
    {
        match job.phase {
            Phase::PlantSecret => {
                let secret = match job.secret {
                    Some(s) => s,
                    None => unreached(),
                };
                let (run, a) = PlantRun::start(job.correlation_id, secret);
                (EngineRun::Plant(run), a)
            },
            Phase::PlantNoise => {
                let (run, a) = PlantRun::start(job.correlation_id, noise_payload());
                (EngineRun::Plant(run), a)
            },
            Phase::RecallSecret => {
                let (run, a) = RecallRun::start(job.correlation_id, true);
                (EngineRun::Recall(run), a)
            },
            Phase::RecallNoise => {
                let (run, a) = RecallRun::start(job.correlation_id, false);
                (EngineRun::Recall(run), a)
            },
            Phase::ExerciseHelp => {
                let (run, a) = HelpRun::start(job.correlation_id);
                (EngineRun::Help(run), a)
            },
            Phase::ExerciseUsers => {
                let (run, a) = UsersRun::start(job.correlation_id);
                (EngineRun::Users(run), a)
            },
        }
    }

    /// Drive whichever machine is running one step.
    pub fn step(&mut self, event: Event) -> (a: Action)
        requires
            engine_wf(*old(self)),
            engine_expects(*old(self), event),
        ensures
            engine_wf(*final(self)),
            *old(self) matches EngineRun::Plant(p) ==> *final(self) matches EngineRun::Plant(q)
                && plant_transition(p, event, q, a),
            *old(self) matches EngineRun::Recall(p) ==> *final(self) matches EngineRun::Recall(q)
                && recall_transition(p, event, q, a),
            *old(self) matches EngineRun::Help(p) ==> *final(self) matches EngineRun::Help(q)
                && help_transition(p, event, q, a),
            *old(self) matches EngineRun::Users(p) ==> *final(self) matches EngineRun::Users(q)
                && users_transition(p, event, q, a),
    {
        match self {
            EngineRun::Plant(p) => p.step(event),
            EngineRun::Recall(p) => p.step(event),
            EngineRun::Help(p) => p.step(event),
            EngineRun::Users(p) => p.step(event),
        }
    }

    /// True once the run has finished and no further event is expected.
    pub fn finished(&self) -> (r: bool)
        ensures
            r == engine_finished(*self),
    {
        match self {
            EngineRun::Plant(p) => matches!(p.st, PlantState::Finished),
            EngineRun::Recall(p) => matches!(p.st, RecallState::Finished),
            EngineRun::Help(p) => matches!(p.st, HelpState::Finished),
            EngineRun::Users(p) => matches!(p.st, UsersState::Finished),
        }
    }
}

} // verus!
