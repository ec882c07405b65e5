//! The authentication / session state machine.
//!
//! An `Authenticator` owns one native transaction and the conversation
//! handler registered with it. It sequences authenticate → account check, and
//! establish credentials → open session → reinitialize credentials, rolling
//! back (deleting the credentials) when a step fails. Its disposal, `close`,
//! closes the session if asked to, deletes the credentials and ends the
//! transaction.
//!
//! Every call into the native library or the host goes through one place that
//! records it, with what it returned, in a ghost log: the contracts state the
//! order of the calls over that log.
use vstd::prelude::*;

use crate::conv::{Conversation, PasswordConv};
use crate::enums::{PamFlag, PamReturnCode, PamSetCredFlag};
use crate::types::{contains_nul, has_nul, PamError, PamResult};

verus! {

/// An account of the host's user database, as the session environment needs it.
pub struct UserAccount {
    pub name: String,
    pub home_dir: String,
    pub shell: String,
}

/// The native library and the host process, as the state machine drives them.
///
/// An implementation wraps one native transaction handle, created by `start`;
/// the state machine ends it exactly once, in `Authenticator::close`. Tests
/// implement it with scripted return codes.
pub trait PamBackend: Sized {
    /// Starts a transaction for `service`, registering the address of
    /// `conversation` as the context of the native conversation callback; the
    /// native library calls back through it only during the calls of this
    /// backend. `service` holds no nul character.
    fn start<C: Conversation>(service: &str, conversation: &C) -> Result<Self, PamReturnCode>;

    fn authenticate(&mut self, flags: PamFlag) -> PamReturnCode;

    fn acct_mgmt(&mut self, flags: PamFlag) -> PamReturnCode;

    fn setcred(&mut self, flags: PamSetCredFlag) -> PamReturnCode;

    fn open_session(&mut self, flags: PamFlag) -> PamReturnCode;

    fn close_session(&mut self, flags: PamFlag) -> PamReturnCode;

    /// Ends the transaction, with the last status as a hint; the handle is
    /// not used afterwards.
    fn end(&mut self, status: PamReturnCode) -> PamReturnCode;

    /// The value of a variable of the native environment, if it is set.
    fn getenv(&mut self, name: &str) -> Option<String>;

    /// Sets a variable of the native environment from `name=value`.
    fn putenv(&mut self, name_value: &str) -> PamReturnCode;

    /// Sets a variable of the host process's environment.
    fn set_process_env(&mut self, key: &str, value: &str);

    /// The value of a variable of the host process's environment, if it is set.
    fn process_env(&mut self, key: &str) -> Option<String>;

    /// Looks a user up in the host's account database.
    fn lookup_user(&mut self, name: &str) -> Option<UserAccount>;
}

/// One call of the state machine into the native library or the host, with
/// what it returned.
pub enum NativeCall {
    Authenticate(PamFlag, PamReturnCode),
    AcctMgmt(PamFlag, PamReturnCode),
    SetCred(PamSetCredFlag, PamReturnCode),
    OpenSession(PamFlag, PamReturnCode),
    CloseSession(PamFlag, PamReturnCode),
    /// The status handed to the end call.
    End(PamReturnCode),
    /// The user name, and the account found (name, home directory, shell).
    LookupUser(Seq<char>, Option<(Seq<char>, Seq<char>, Seq<char>)>),
    SetProcessEnv(Seq<char>, Seq<char>),
    /// A variable of the host process's environment, and its value if set.
    GetProcessEnv(Seq<char>, Option<Seq<char>>),
    /// The variable, and whether the native environment has it.
    GetEnv(Seq<char>, bool),
    /// The `name=value` text, and the return code.
    PutEnv(Seq<char>, PamReturnCode),
}

/// Whether construction called the native start, and with what outcome.
pub enum NativeStart<B> {
    /// The service name held a nul character: start was not called.
    Skipped,
    /// Start was called with this service name, and returned this.
    Started(Seq<char>, Result<B, PamReturnCode>),
}

pub open spec fn is_delete_cred(c: NativeCall) -> bool {
    c matches NativeCall::SetCred(PamSetCredFlag::Delete_Cred, _)
}

pub open spec fn pam_err<T>(code: PamReturnCode) -> PamResult<T> {
    Err(PamError(code))
}

/// `t` is what `authenticate` does, returning `r`: the authenticate call,
/// then, if it succeeded, the account check, and if that failed, the
/// credential deletion. The error is the failing step's code.
pub open spec fn authenticate_trace(t: Seq<NativeCall>, r: PamResult<()>) -> bool {
    &&& t.len() >= 1
    &&& t[0] matches NativeCall::Authenticate(PamFlag::NONE, c0)
    &&& if c0 != PamReturnCode::Success {
        t.len() == 1 && r == pam_err::<()>(c0)
    } else {
        &&& t.len() >= 2
        &&& t[1] matches NativeCall::AcctMgmt(PamFlag::NONE, c1)
        &&& if c1 != PamReturnCode::Success {
            t.len() == 3 && is_delete_cred(t[2]) && r == pam_err::<()>(c1)
        } else {
            t.len() == 2 && r == Ok::<(), PamError>(())
        }
    }
}

/// The code returned by the last step of `authenticate`.
pub open spec fn authenticate_last_code(t: Seq<NativeCall>) -> PamReturnCode {
    match t[if t.len() == 1 { 0int } else { 1int }] {
        NativeCall::Authenticate(_, c) => c,
        NativeCall::AcctMgmt(_, c) => c,
        _ => PamReturnCode::System_Err,
    }
}

/// The text `key=value` given to the native environment.
pub open spec fn name_value(key: Seq<char>, value: Seq<char>) -> Seq<char> {
    key + seq!['='] + value
}

/// `t` is what setting the variables `vars` in turn does, returning `r`.
///
/// Each variable is set in the host process, then looked up in the native
/// environment, and set there only when it is missing. The first failure of
/// the native set stops with its code.
pub open spec fn env_trace(vars: Seq<(Seq<char>, Seq<char>)>, t: Seq<NativeCall>, r: PamResult<()>) -> bool
    decreases vars.len(),
{
    if vars.len() == 0 {
        t.len() == 0 && r is Ok
    } else {
        let (k, v) = vars[0];
        &&& t.len() >= 2
        &&& t[0] == NativeCall::SetProcessEnv(k, v)
        &&& t[1] matches NativeCall::GetEnv(k1, present)
        &&& k1 == k
        &&& if present {
            env_trace(vars.drop_first(), t.skip(2), r)
        } else {
            &&& t.len() >= 3
            &&& t[2] matches NativeCall::PutEnv(nv, c)
            &&& nv == name_value(k, v)
            &&& if c == PamReturnCode::Success {
                env_trace(vars.drop_first(), t.skip(3), r)
            } else {
                t.len() == 3 && r == pam_err::<()>(c)
            }
        }
    }
}

/// The directories that a session adds to the search path.
pub open spec fn path_additions() -> Seq<char> {
    "/usr/local/sbin:/usr/local/bin:/usr/bin"@
}

/// The search path of a session: the host's `PATH` (when set) with the
/// session's directories appended.
pub open spec fn augmented_path(path: Option<Seq<char>>) -> Seq<char> {
    match path {
        Some(p) => p + seq![':'] + path_additions(),
        None => path_additions(),
    }
}

/// The mail path of the user `name`.
pub open spec fn mail_path(name: Seq<char>) -> Seq<char> {
    "/var/mail/"@ + name
}

/// The variables that opening a session sets for the account `(name, home,
/// shell)`, in order, when the host's `PATH` is `path`.
pub open spec fn session_vars(
    name: Seq<char>,
    home: Seq<char>,
    shell: Seq<char>,
    path: Option<Seq<char>>,
) -> Seq<(Seq<char>, Seq<char>)> {
    seq![
        ("USER"@, name),
        ("LOGNAME"@, name),
        ("HOME"@, home),
        ("SHELL"@, shell),
        ("MAIL"@, mail_path(name)),
        ("PATH"@, augmented_path(path)),
    ]
}

/// `t` is what setting up the environment of a new session does, returning
/// `r`: the account of the handler's user name is looked up (`User_Unknown`
/// when there is none), the host's `PATH` is read, then the variables are set.
pub open spec fn session_env_trace(t: Seq<NativeCall>, r: PamResult<()>) -> bool {
    &&& t.len() >= 1
    &&& t[0] matches NativeCall::LookupUser(_, found)
    &&& match found {
        None => t.len() == 1 && r == pam_err::<()>(PamReturnCode::User_Unknown),
        Some((name, home, shell)) => {
            &&& t.len() >= 2
            &&& t[1] matches NativeCall::GetProcessEnv(key, path)
            &&& key == "PATH"@
            &&& env_trace(session_vars(name, home, shell, path), t.skip(2), r)
        },
    }
}

/// The three steps of opening a session all succeeded.
pub open spec fn session_steps_succeeded(authenticated: bool, t: Seq<NativeCall>) -> bool {
    &&& authenticated
    &&& t.len() >= 3
    &&& t[0] == NativeCall::SetCred(PamSetCredFlag::Establish_Cred, PamReturnCode::Success)
    &&& t[1] == NativeCall::OpenSession(PamFlag::NONE, PamReturnCode::Success)
    &&& t[2] == NativeCall::SetCred(PamSetCredFlag::Reinitialize_Cred, PamReturnCode::Success)
}

/// `t` is what `open_session` does, returning `r`.
///
/// Unless authenticated, nothing is called and the result is `Perm_Denied`.
/// Otherwise: establish credentials, open the session, reinitialize
/// credentials, in this order; the first step that fails is followed by the
/// credential deletion alone, and its code is the error. When all three
/// succeed, the session environment is set up.
pub open spec fn open_session_trace(authenticated: bool, t: Seq<NativeCall>, r: PamResult<()>) -> bool {
    if !authenticated {
        t.len() == 0 && r == pam_err::<()>(PamReturnCode::Perm_Denied)
    } else {
        &&& t.len() >= 1
        &&& t[0] matches NativeCall::SetCred(PamSetCredFlag::Establish_Cred, c0)
        &&& if c0 != PamReturnCode::Success {
            t.len() == 2 && is_delete_cred(t[1]) && r == pam_err::<()>(c0)
        } else {
            &&& t.len() >= 2
            &&& t[1] matches NativeCall::OpenSession(PamFlag::NONE, c1)
            &&& if c1 != PamReturnCode::Success {
                t.len() == 3 && is_delete_cred(t[2]) && r == pam_err::<()>(c1)
            } else {
                &&& t.len() >= 3
                &&& t[2] matches NativeCall::SetCred(PamSetCredFlag::Reinitialize_Cred, c2)
                &&& if c2 != PamReturnCode::Success {
                    t.len() == 4 && is_delete_cred(t[3]) && r == pam_err::<()>(c2)
                } else {
                    session_env_trace(t.skip(3), r)
                }
            }
        }
    }
}

/// The code of the last step of `open_session` that ran.
pub open spec fn open_session_last_code(t: Seq<NativeCall>) -> PamReturnCode {
    match (t[0], t[1], t[2]) {
        (NativeCall::SetCred(_, c0), _, _) if c0 != PamReturnCode::Success => c0,
        (_, NativeCall::OpenSession(_, c1), _) if c1 != PamReturnCode::Success => c1,
        (_, _, NativeCall::SetCred(_, c2)) => c2,
        _ => PamReturnCode::System_Err,
    }
}

/// `t` is what disposing of the state machine does: the session is closed when
/// `close` holds, then the credentials are deleted, and the transaction is
/// ended with the deletion's code.
pub open spec fn release_trace(close: bool, t: Seq<NativeCall>) -> bool {
    if close {
        &&& t.len() == 3
        &&& t[0] matches NativeCall::CloseSession(PamFlag::NONE, _)
        &&& t[1] matches NativeCall::SetCred(PamSetCredFlag::Delete_Cred, c)
        &&& t[2] == NativeCall::End(c)
    } else {
        &&& t.len() == 2
        &&& t[0] matches NativeCall::SetCred(PamSetCredFlag::Delete_Cred, c)
        &&& t[1] == NativeCall::End(c)
    }
}

proof fn lemma_env_trace_append(
    a: Seq<(Seq<char>, Seq<char>)>,
    b: Seq<(Seq<char>, Seq<char>)>,
    t1: Seq<NativeCall>,
    t2: Seq<NativeCall>,
    r1: PamResult<()>,
    r: PamResult<()>,
)
    requires
        r1 is Ok,
        env_trace(a, t1, r1),
        env_trace(b, t2, r),
    ensures
        env_trace(a + b, t1 + t2, r),
    decreases a.len(),
{
    if a.len() == 0 {
        assert(a + b =~= b);
        assert(t1 + t2 =~= t2);
    } else {
        let (k, v) = a[0];
        assert((a + b)[0] == a[0]);
        assert((a + b).drop_first() =~= a.drop_first() + b);
        assert((t1 + t2)[0] == t1[0]);
        assert((t1 + t2)[1] == t1[1]);
        if let NativeCall::GetEnv(_, present) = t1[1] {
            if present {
                assert((t1 + t2).skip(2) =~= t1.skip(2) + t2);
                lemma_env_trace_append(a.drop_first(), b, t1.skip(2), t2, r1, r);
            } else {
                assert((t1 + t2)[2] == t1[2]);
                assert((t1 + t2).skip(3) =~= t1.skip(3) + t2);
                lemma_env_trace_append(a.drop_first(), b, t1.skip(3), t2, r1, r);
            }
        }
    }
}

proof fn lemma_env_trace_failure_extends(
    a: Seq<(Seq<char>, Seq<char>)>,
    c: Seq<(Seq<char>, Seq<char>)>,
    t: Seq<NativeCall>,
    e: PamError,
)
    requires
        env_trace(a, t, Err::<(), PamError>(e)),
    ensures
        env_trace(a + c, t, Err::<(), PamError>(e)),
    decreases a.len(),
{
    if a.len() > 0 {
        assert((a + c)[0] == a[0]);
        assert((a + c).drop_first() =~= a.drop_first() + c);
        if let NativeCall::GetEnv(_, present) = t[1] {
            if present {
                lemma_env_trace_failure_extends(a.drop_first(), c, t.skip(2), e);
            } else if let NativeCall::PutEnv(_, code) = t[2] {
                if code == PamReturnCode::Success {
                    lemma_env_trace_failure_extends(a.drop_first(), c, t.skip(3), e);
                }
            }
        }
    }
}

/// `authenticate` leaves the state machine authenticated only when it already
/// was, or when both the authenticate call and the account check reported
/// success.
pub proof fn lemma_authenticated_only_after_success(
    was: bool,
    now: bool,
    t: Seq<NativeCall>,
    r: PamResult<()>,
)
    requires
        authenticate_trace(t, r),
        now == (r is Ok || (was && t.len() == 1)),
    ensures
        now ==> was || (t.len() == 2 && t[0] == NativeCall::Authenticate(PamFlag::NONE, PamReturnCode::Success)
            && t[1] == NativeCall::AcctMgmt(PamFlag::NONE, PamReturnCode::Success)),
{
}

/// Closing a state machine closes the session exactly when one is open and
/// `close_on_drop` is set, and then before anything else; in every case it
/// deletes the credentials once and then ends the transaction once, with the
/// deletion's code, as its last call.
pub proof fn lemma_close_order(session_open: bool, close_on_drop: bool, t: Seq<NativeCall>)
    requires
        release_trace(session_open && close_on_drop, t),
    ensures
        (exists|i: int| 0 <= i < t.len() && #[trigger] t[i] is CloseSession) <==> (session_open
            && close_on_drop),
        session_open && close_on_drop ==> t[0] is CloseSession,
        t.len() >= 2,
        t[t.len() - 2] matches NativeCall::SetCred(PamSetCredFlag::Delete_Cred, c) && t.last()
            == NativeCall::End(c),
        forall|i: int|
            0 <= i < t.len() - 2 ==> !is_delete_cred(#[trigger] t[i]) && !(t[i] is End),
{
    if session_open && close_on_drop {
        assert(t[0] is CloseSession);
    }
}

/// Main struct to authenticate a user.
///
/// It owns the native transaction and the conversation handler registered
/// with it. `with_password` gives a handler that answers with a preset login
/// and password; `with_handler` takes any `Conversation`. By default an open
/// session is closed on disposal; set `close_on_drop` to `false` to keep it.
///
/// Disposal is `close`, which consumes the state machine: whoever owns one
/// over a native handle runs `close` when it goes away (the native glue wraps
/// it in a guard that does so on drop).
pub struct Authenticator<C: Conversation, B: PamBackend> {
    /// Whether disposal closes an open session.
    pub close_on_drop: bool,
    handle: B,
    conversation: Box<C>,
    is_authenticated: bool,
    has_open_session: bool,
    last_code: PamReturnCode,
    calls: Ghost<Seq<NativeCall>>,
}

impl<B: PamBackend> Authenticator<PasswordConv, B> {
    /// An authenticator for `service` whose handler answers with a preset
    /// login and password, empty until set through `handler_mut`.
    pub fn with_password(service: &str) -> (r: (
        PamResult<Authenticator<PasswordConv, B>>,
        Ghost<NativeStart<B>>,
    ))
        ensures
            Authenticator::<PasswordConv, B>::started_as(service@, r.0, r.1@),
            r.0 matches Ok(a) ==> a.handler_view().login() == Seq::<char>::empty()
                && a.handler_view().password() == Seq::<char>::empty(),
    {
        Authenticator::with_handler(service, PasswordConv::new())
    }
}

impl<C: Conversation, B: PamBackend> Authenticator<C, B> {
    pub closed spec fn authenticated(&self) -> bool {
        self.is_authenticated
    }

    pub closed spec fn session_open(&self) -> bool {
        self.has_open_session
    }

    pub closed spec fn last_status(&self) -> PamReturnCode {
        self.last_code
    }

    /// The calls made so far into the native library and the host.
    pub closed spec fn calls(&self) -> Seq<NativeCall> {
        self.calls@
    }

    /// The value of the public `close_on_drop` field.
    pub closed spec fn closes_on_drop(&self) -> bool {
        self.close_on_drop
    }

    pub closed spec fn handler_view(&self) -> C {
        *self.conversation
    }

    /// Just started: not authenticated, no session, closing the session on
    /// disposal, and no
    /// call made yet.
    pub open spec fn is_fresh(&self) -> bool {
        &&& !self.authenticated()
        &&& !self.session_open()
        &&& self.closes_on_drop()
        &&& self.last_status() == PamReturnCode::Success
        &&& self.calls() == Seq::<NativeCall>::empty()
    }

    /// The calls made since `old`, whose log is a prefix of this one.
    pub open spec fn calls_since(&self, old: &Self) -> Seq<NativeCall> {
        self.calls().skip(old.calls().len() as int)
    }

    spec fn keeps(&self, old: &Self) -> bool {
        &&& self.close_on_drop == old.close_on_drop
        &&& self.is_authenticated == old.is_authenticated
        &&& self.has_open_session == old.has_open_session
        &&& self.last_code == old.last_code
        &&& self.conversation == old.conversation
    }

    /// `r` is what construction for `service` gives, with `start` recording
    /// the native start.
    ///
    /// A service name with a nul character is refused with a buffer error
    /// and the native start is not called. Otherwise it is called with the
    /// service name: its failure code is the error, and its success gives a
    /// fresh state machine over the started handle.
    pub open spec fn started_as(
        service: Seq<char>,
        r: PamResult<Self>,
        start: NativeStart<B>,
    ) -> bool {
        if has_nul(service) {
            r == pam_err::<Self>(PamReturnCode::Buf_Err) && start == NativeStart::<B>::Skipped
        } else {
            &&& start matches NativeStart::Started(s, outcome)
            &&& s == service
            &&& match outcome {
                Ok(h) => r matches Ok(a) && a.backend_view() == h && a.is_fresh(),
                Err(c) => r == pam_err::<Self>(c),
            }
        }
    }

    /// Starts a transaction for `service` with `conversation` as the handler.
    /// The second result records the native start.
    pub fn with_handler(service: &str, conversation: C) -> (r: (PamResult<Self>, Ghost<NativeStart<B>>))
        ensures
            Self::started_as(service@, r.0, r.1@),
            r.0 matches Ok(a) ==> a.handler_view() == conversation,
    {
        if contains_nul(service) {
            return (Err(PamError(PamReturnCode::Buf_Err)), Ghost(NativeStart::Skipped));
        }
        let conversation = Box::new(conversation);
        let started = B::start(service, &*conversation);
        let ghost record = NativeStart::Started(service@, started);
        match started {
            Ok(handle) => (
                Ok(
                    Authenticator {
                        close_on_drop: true,
                        handle,
                        conversation,
                        is_authenticated: false,
                        has_open_session: false,
                        last_code: PamReturnCode::Success,
                        calls: Ghost(Seq::empty()),
                    },
                ),
                Ghost(record),
            ),
            Err(code) => (Err(PamError(code)), Ghost(record)),
        }
    }

    /// Whether the last `authenticate` succeeded and no rollback followed.
    pub fn is_authenticated(&self) -> (r: bool)
        ensures
            r == self.authenticated(),
    {
        self.is_authenticated
    }

    /// Whether a session was opened.
    pub fn has_open_session(&self) -> (r: bool)
        ensures
            r == self.session_open(),
    {
        self.has_open_session
    }

    /// The code of the last step of the last operation.
    pub fn last_code(&self) -> (r: PamReturnCode)
        ensures
            r == self.last_status(),
    {
        self.last_code
    }

    /// Sets whether disposal closes an open session.
    pub fn set_close_on_drop(&mut self, close: bool)
        ensures
            final(self).closes_on_drop() == close,
            final(self).authenticated() == old(self).authenticated(),
            final(self).session_open() == old(self).session_open(),
            final(self).last_status() == old(self).last_status(),
            final(self).handler_view() == old(self).handler_view(),
            final(self).calls() == old(self).calls(),
    {
        self.close_on_drop = close;
    }

    pub closed spec fn backend_view(&self) -> B {
        self.handle
    }

    /// Shared access to the backend that holds the native handle.
    pub fn handle(&self) -> (r: &B)
        ensures
            *r == self.backend_view(),
    {
        &self.handle
    }

    /// Immutable access to the conversation handler.
    pub fn handler(&self) -> (r: &C)
        ensures
            *r == self.handler_view(),
    {
        &*self.conversation
    }

    /// Mutable access to the conversation handler; nothing else changes.
    pub fn handler_mut(&mut self) -> (r: &mut C)
        ensures
            *r == old(self).handler_view(),
            final(self).handler_view() == *final(r),
            final(self).authenticated() == old(self).authenticated(),
            final(self).session_open() == old(self).session_open(),
            final(self).last_status() == old(self).last_status(),
            final(self).closes_on_drop() == old(self).closes_on_drop(),
            final(self).calls() == old(self).calls(),
    {
        &mut *self.conversation
    }

    fn native_authenticate(&mut self) -> (c: PamReturnCode)
        ensures
            final(self).calls@ == old(self).calls@.push(NativeCall::Authenticate(PamFlag::NONE, c)),
            final(self).keeps(old(self)),
    {
        let c = self.handle.authenticate(PamFlag::NONE);
        self.record(Ghost(NativeCall::Authenticate(PamFlag::NONE, c)));
        c
    }

    fn native_acct_mgmt(&mut self) -> (c: PamReturnCode)
        ensures
            final(self).calls@ == old(self).calls@.push(NativeCall::AcctMgmt(PamFlag::NONE, c)),
            final(self).keeps(old(self)),
    {
        let c = self.handle.acct_mgmt(PamFlag::NONE);
        self.record(Ghost(NativeCall::AcctMgmt(PamFlag::NONE, c)));
        c
    }

    fn native_setcred(&mut self, flags: PamSetCredFlag) -> (c: PamReturnCode)
        ensures
            final(self).calls@ == old(self).calls@.push(NativeCall::SetCred(flags, c)),
            final(self).keeps(old(self)),
    {
        let c = self.handle.setcred(flags);
        self.record(Ghost(NativeCall::SetCred(flags, c)));
        c
    }

    fn native_open_session(&mut self) -> (c: PamReturnCode)
        ensures
            final(self).calls@ == old(self).calls@.push(NativeCall::OpenSession(PamFlag::NONE, c)),
            final(self).keeps(old(self)),
    {
        let c = self.handle.open_session(PamFlag::NONE);
        self.record(Ghost(NativeCall::OpenSession(PamFlag::NONE, c)));
        c
    }

    fn native_close_session(&mut self) -> (c: PamReturnCode)
        ensures
            final(self).calls@ == old(self).calls@.push(NativeCall::CloseSession(PamFlag::NONE, c)),
            final(self).keeps(old(self)),
    {
        let c = self.handle.close_session(PamFlag::NONE);
        self.record(Ghost(NativeCall::CloseSession(PamFlag::NONE, c)));
        c
    }

    fn native_end(&mut self, status: PamReturnCode)
        ensures
            final(self).calls@ == old(self).calls@.push(NativeCall::End(status)),
            final(self).keeps(old(self)),
    {
        let _ = self.handle.end(status);
        self.record(Ghost(NativeCall::End(status)));
    }

    fn native_lookup_user(&mut self, name: &str) -> (r: Option<UserAccount>)
        ensures
            final(self).calls@ == old(self).calls@.push(
                NativeCall::LookupUser(
                    name@,
                    match r {
                        Some(u) => Some((u.name@, u.home_dir@, u.shell@)),
                        None => None,
                    },
                ),
            ),
            final(self).keeps(old(self)),
    {
        let r = self.handle.lookup_user(name);
        let ghost found = match r {
            Some(ref u) => Some((u.name@, u.home_dir@, u.shell@)),
            None => None,
        };
        self.record(Ghost(NativeCall::LookupUser(name@, found)));
        r
    }

    fn native_set_process_env(&mut self, key: &str, value: &str)
        ensures
            final(self).calls@ == old(self).calls@.push(NativeCall::SetProcessEnv(key@, value@)),
            final(self).keeps(old(self)),
    {
        self.handle.set_process_env(key, value);
        self.record(Ghost(NativeCall::SetProcessEnv(key@, value@)));
    }

    fn native_process_env(&mut self, key: &str) -> (r: Option<String>)
        ensures
            final(self).calls@ == old(self).calls@.push(
                NativeCall::GetProcessEnv(
                    key@,
                    match r {
                        Some(v) => Some(v@),
                        None => None,
                    },
                ),
            ),
            final(self).keeps(old(self)),
    {
        let r = self.handle.process_env(key);
        let ghost value = match r {
            Some(ref v) => Some(v@),
            None => None,
        };
        self.record(Ghost(NativeCall::GetProcessEnv(key@, value)));
        r
    }

    fn native_has_env(&mut self, name: &str) -> (present: bool)
        ensures
            final(self).calls@ == old(self).calls@.push(NativeCall::GetEnv(name@, present)),
            final(self).keeps(old(self)),
    {
        let present = self.handle.getenv(name).is_some();
        self.record(Ghost(NativeCall::GetEnv(name@, present)));
        present
    }

    fn native_putenv(&mut self, name_value: &str) -> (c: PamReturnCode)
        ensures
            final(self).calls@ == old(self).calls@.push(NativeCall::PutEnv(name_value@, c)),
            final(self).keeps(old(self)),
    {
        let c = self.handle.putenv(name_value);
        self.record(Ghost(NativeCall::PutEnv(name_value@, c)));
        c
    }

    /// Rolls back after a failed step: deletes the credentials, ignoring the
    /// result, and fails with the step's code.
    fn reset(&mut self) -> (r: PamResult<()>)
        ensures
            r == pam_err::<()>(old(self).last_code),
            final(self).calls@.len() == old(self).calls@.len() + 1,
            final(self).calls@.drop_last() == old(self).calls@,
            is_delete_cred(final(self).calls@.last()),
            !final(self).is_authenticated,
            final(self).close_on_drop == old(self).close_on_drop,
            final(self).has_open_session == old(self).has_open_session,
            final(self).last_code == old(self).last_code,
            final(self).conversation == old(self).conversation,
    {
        let ghost before = self.calls@;
        let _ = self.native_setcred(PamSetCredFlag::Delete_Cred);
        assert(self.calls@.drop_last() =~= before);
        self.is_authenticated = false;
        Err(PamError(self.last_code))
    }

    /// Authenticates with the native library, then checks the account.
    ///
    /// A failed authentication returns its error with nothing rolled back. A
    /// failed account check deletes the credentials, clears the authenticated
    /// state and returns the check's error. The state machine ends up
    /// authenticated only when both calls succeeded.
    pub fn authenticate(&mut self) -> (r: PamResult<()>)
        ensures
            old(self).calls().is_prefix_of(final(self).calls()),
            authenticate_trace(final(self).calls_since(old(self)), r),
            final(self).authenticated() == (r is Ok || (old(self).authenticated()
                && final(self).calls_since(old(self)).len() == 1)),
            final(self).last_status() == authenticate_last_code(final(self).calls_since(old(self))),
            final(self).session_open() == old(self).session_open(),
            final(self).closes_on_drop() == old(self).closes_on_drop(),
            final(self).handler_view() == old(self).handler_view(),
    {
        let ghost start = self.calls@;
        let code = self.native_authenticate();
        self.last_code = code;
        if code != PamReturnCode::Success {
            assert(self.calls@.skip(start.len() as int) =~= seq![NativeCall::Authenticate(PamFlag::NONE, code)]);
            return Err(PamError(code));
        }
        self.is_authenticated = true;
        let code1 = self.native_acct_mgmt();
        self.last_code = code1;
        if code1 != PamReturnCode::Success {
            let r = self.reset();
            assert(self.calls@ =~= start.push(NativeCall::Authenticate(PamFlag::NONE, code)).push(
                NativeCall::AcctMgmt(PamFlag::NONE, code1),
            ).push(self.calls@.last()));
            assert(self.calls@.skip(start.len() as int) =~= seq![
                NativeCall::Authenticate(PamFlag::NONE, code),
                NativeCall::AcctMgmt(PamFlag::NONE, code1),
                self.calls@.last(),
            ]);
            return r;
        }
        assert(self.calls@.skip(start.len() as int) =~= seq![
            NativeCall::Authenticate(PamFlag::NONE, code),
            NativeCall::AcctMgmt(PamFlag::NONE, code1),
        ]);
        Ok(())
    }

    /// Sets `key` to `value` in the host process, and in the native
    /// environment unless it already has the variable.
    fn set_env(&mut self, key: &str, value: &str) -> (r: PamResult<()>)
        ensures
            final(self).calls@.take(old(self).calls@.len() as int) == old(self).calls@,
            final(self).calls@.len() >= old(self).calls@.len(),
            env_trace(seq![(key@, value@)], final(self).calls@.skip(old(self).calls@.len() as int), r),
            final(self).keeps(old(self)),
    {
        let ghost start = self.calls@;
        self.native_set_process_env(key, value);
        let present = self.native_has_env(key);
        let ghost vars = seq![(key@, value@)];
        assert(vars.drop_first() =~= Seq::<(Seq<char>, Seq<char>)>::empty());
        proof {
            reveal_with_fuel(env_trace, 2);
        }
        if present {
            assert(self.calls@.take(start.len() as int) =~= start);
            assert(self.calls@.skip(start.len() as int) =~= seq![
                NativeCall::SetProcessEnv(key@, value@),
                NativeCall::GetEnv(key@, present),
            ]);
            assert(self.calls@.skip(start.len() as int).skip(2) =~= Seq::<NativeCall>::empty());
            return Ok(());
        }
        let text = String::from_str(key).concat("=").concat(value);
        proof {
            reveal_strlit("=");
        }
        assert(text@ =~= name_value(key@, value@));
        let c = self.native_putenv(text.as_str());
        assert(self.calls@.take(start.len() as int) =~= start);
        assert(self.calls@.skip(start.len() as int) =~= seq![
            NativeCall::SetProcessEnv(key@, value@),
            NativeCall::GetEnv(key@, present),
            NativeCall::PutEnv(text@, c),
        ]);
        assert(self.calls@.skip(start.len() as int).skip(3) =~= Seq::<NativeCall>::empty());
        if c != PamReturnCode::Success {
            return Err(PamError(c));
        }
        Ok(())
    }

    /// Sets up the environment of a newly opened session from the account
    /// of the handler's user name.
    fn initialize_environment(&mut self) -> (r: PamResult<()>)
        ensures
            final(self).calls@.take(old(self).calls@.len() as int) == old(self).calls@,
            final(self).calls@.len() >= old(self).calls@.len(),
            session_env_trace(final(self).calls@.skip(old(self).calls@.len() as int), r),
            final(self).keeps(old(self)),
    {
        let ghost start = self.calls@;
        let name = self.conversation.username().to_owned();
        let user = match self.native_lookup_user(name.as_str()) {
            Some(u) => u,
            None => {
                assert(self.calls@.take(start.len() as int) =~= start);
                assert(self.calls@.skip(start.len() as int) =~= seq![self.calls@.last()]);
                return Err(PamError(PamReturnCode::User_Unknown));
            },
        };
        let ghost lookup = self.calls@.last();
        let host_path = self.native_process_env("PATH");
        let ghost path = match host_path {
            Some(ref p) => Some(p@),
            None => None,
        };
        let ghost base = self.calls@;
        let ghost svars = session_vars(user.name@, user.home_dir@, user.shell@, path);
        let mail = String::from_str("/var/mail/").concat(user.name.as_str());
        let search_path = match host_path {
            Some(p) => p.concat(":").concat("/usr/local/sbin:/usr/local/bin:/usr/bin"),
            None => String::from_str("/usr/local/sbin:/usr/local/bin:/usr/bin"),
        };
        proof {
            reveal_strlit(":");
        }
        assert(search_path@ =~= augmented_path(path));
        let vars: Vec<(String, String)> = vec![
            ("USER".to_owned(), user.name.clone()),
            ("LOGNAME".to_owned(), user.name.clone()),
            ("HOME".to_owned(), user.home_dir.clone()),
            ("SHELL".to_owned(), user.shell.clone()),
            ("MAIL".to_owned(), mail),
            ("PATH".to_owned(), search_path),
        ];
        assert(svars.take(0) =~= Seq::<(Seq<char>, Seq<char>)>::empty());
        assert(self.calls@.skip(base.len() as int) =~= Seq::<NativeCall>::empty());
        let ghost mut ok: PamResult<()> = Ok(());
        let mut i: usize = 0;
        while i < vars.len()
            invariant
                vars@.len() == 6,
                svars.len() == 6,
                i <= 6,
                forall|j: int|
                    0 <= j < 6 ==> (#[trigger] vars@[j]).0@ == svars[j].0 && vars@[j].1@ == svars[j].1,
                start == old(self).calls@,
                svars == session_vars(user.name@, user.home_dir@, user.shell@, path),
                base.len() == start.len() + 2,
                base.take(start.len() as int) == start,
                base[start.len() as int] == lookup,
                lookup == NativeCall::LookupUser(
                    name@,
                    Some((user.name@, user.home_dir@, user.shell@)),
                ),
                base.last() == NativeCall::GetProcessEnv("PATH"@, path),
                self.calls@.len() >= base.len(),
                self.calls@.take(base.len() as int) == base,
                ok is Ok,
                env_trace(svars.take(i as int), self.calls@.skip(base.len() as int), ok),
                self.keeps(old(self)),
            decreases 6 - i,
        {
            let ghost before = self.calls@;
            let r = self.set_env(vars[i].0.as_str(), vars[i].1.as_str());
            proof {
                let t1 = before.skip(base.len() as int);
                let t2 = self.calls@.skip(before.len() as int);
                assert(vars@[i as int].0@ == svars[i as int].0 && vars@[i as int].1@ == svars[i as int].1);
                assert(seq![(vars@[i as int].0@, vars@[i as int].1@)] =~= seq![svars[i as int]]);
                assert(before.take(base.len() as int) == base);
                assert(self.calls@.take(before.len() as int) == before);
                assert(self.calls@ =~= before + t2);
                assert(before =~= base + t1);
                lemma_env_trace_append(svars.take(i as int), seq![svars[i as int]], t1, t2, ok, r);
                assert(svars.take(i as int) + seq![svars[i as int]] =~= svars.take(i + 1));
                assert(self.calls@.skip(base.len() as int) =~= t1 + t2);
                assert(self.calls@.take(base.len() as int) =~= base);
                assert(env_trace(svars.take(i + 1), self.calls@.skip(base.len() as int), r));
            }
            if r.is_err() {
                let e = match r {
                    Err(e) => e,
                    Ok(()) => PamError(PamReturnCode::Success),
                };
                proof {
                    lemma_env_trace_failure_extends(
                        svars.take(i + 1),
                        svars.skip(i + 1),
                        self.calls@.skip(base.len() as int),
                        e,
                    );
                    assert(svars.take(i + 1) + svars.skip(i + 1) =~= svars);
                    assert(self.calls@.take(start.len() as int) =~= base.take(start.len() as int));
                    assert(self.calls@.skip(start.len() as int).skip(2) =~= self.calls@.skip(
                        base.len() as int,
                    ));
                    assert(self.calls@.skip(start.len() as int)[0] == base[start.len() as int]);
                    assert(self.calls@.skip(start.len() as int)[1] == base.last());
                }
                return Err(e);
            }
            proof {
                ok = r;
            }
            i += 1;
        }
        proof {
            let empty_vars = Seq::<(Seq<char>, Seq<char>)>::empty();
            let empty_calls = Seq::<NativeCall>::empty();
            let t = self.calls@.skip(base.len() as int);
            lemma_env_trace_append(svars.take(6), empty_vars, t, empty_calls, ok, Ok(()));
            assert(svars.take(6) + empty_vars =~= svars.take(6));
            assert(t + empty_calls =~= t);
            assert(svars.take(6) =~= svars);
            assert(self.calls@.take(start.len() as int) =~= base.take(start.len() as int));
            assert(self.calls@.skip(start.len() as int).skip(2) =~= self.calls@.skip(
                base.len() as int,
            ));
            assert(self.calls@.skip(start.len() as int)[0] == base[start.len() as int]);
            assert(self.calls@.skip(start.len() as int)[1] == base.last());
        }
        Ok(())
    }

    /// Opens a session for an authenticated user, and sets up its
    /// environment in the native library and the host process.
    ///
    /// Unless authenticated, fails with `Perm_Denied` without any call.
    /// Otherwise establishes credentials, opens the session and reinitializes
    /// the credentials, in this order; the first step that fails stops the
    /// sequence, deletes the credentials, clears the authenticated state and
    /// returns its error. When all three succeed the session is open, and the
    /// result is that of the environment setup.
    pub fn open_session(&mut self) -> (r: PamResult<()>)
        ensures
            old(self).calls().is_prefix_of(final(self).calls()),
            open_session_trace(old(self).authenticated(), final(self).calls_since(old(self)), r),
            final(self).authenticated() == session_steps_succeeded(
                old(self).authenticated(),
                final(self).calls_since(old(self)),
            ),
            final(self).session_open() == (old(self).session_open() || session_steps_succeeded(
                old(self).authenticated(),
                final(self).calls_since(old(self)),
            )),
            final(self).calls_since(old(self)).len() == 0 ==> final(self).last_status() == old(
                self,
            ).last_status(),
            final(self).calls_since(old(self)).len() > 0 ==> final(self).last_status()
                == open_session_last_code(final(self).calls_since(old(self))),
            final(self).closes_on_drop() == old(self).closes_on_drop(),
            final(self).handler_view() == old(self).handler_view(),
    {
        let ghost start = self.calls@;
        if !self.is_authenticated {
            assert(self.calls@.skip(start.len() as int) =~= Seq::<NativeCall>::empty());
            return Err(PamError(PamReturnCode::Perm_Denied));
        }
        let c0 = self.native_setcred(PamSetCredFlag::Establish_Cred);
        self.last_code = c0;
        if c0 != PamReturnCode::Success {
            let r = self.reset();
            assert(self.calls@ =~= start.push(
                NativeCall::SetCred(PamSetCredFlag::Establish_Cred, c0),
            ).push(self.calls@.last()));
            assert(self.calls@.skip(start.len() as int) =~= seq![
                NativeCall::SetCred(PamSetCredFlag::Establish_Cred, c0),
                self.calls@.last(),
            ]);
            return r;
        }
        let c1 = self.native_open_session();
        self.last_code = c1;
        if c1 != PamReturnCode::Success {
            let r = self.reset();
            assert(self.calls@ =~= start.push(
                NativeCall::SetCred(PamSetCredFlag::Establish_Cred, c0),
            ).push(NativeCall::OpenSession(PamFlag::NONE, c1)).push(self.calls@.last()));
            assert(self.calls@.skip(start.len() as int) =~= seq![
                NativeCall::SetCred(PamSetCredFlag::Establish_Cred, c0),
                NativeCall::OpenSession(PamFlag::NONE, c1),
                self.calls@.last(),
            ]);
            return r;
        }
        let c2 = self.native_setcred(PamSetCredFlag::Reinitialize_Cred);
        self.last_code = c2;
        if c2 != PamReturnCode::Success {
            let r = self.reset();
            assert(self.calls@ =~= start.push(
                NativeCall::SetCred(PamSetCredFlag::Establish_Cred, c0),
            ).push(NativeCall::OpenSession(PamFlag::NONE, c1)).push(
                NativeCall::SetCred(PamSetCredFlag::Reinitialize_Cred, c2),
            ).push(self.calls@.last()));
            assert(self.calls@.skip(start.len() as int) =~= seq![
                NativeCall::SetCred(PamSetCredFlag::Establish_Cred, c0),
                NativeCall::OpenSession(PamFlag::NONE, c1),
                NativeCall::SetCred(PamSetCredFlag::Reinitialize_Cred, c2),
                self.calls@.last(),
            ]);
            return r;
        }
        self.has_open_session = true;
        let ghost mid = self.calls@;
        let r = self.initialize_environment();
        proof {
            let steps = seq![
                NativeCall::SetCred(PamSetCredFlag::Establish_Cred, c0),
                NativeCall::OpenSession(PamFlag::NONE, c1),
                NativeCall::SetCred(PamSetCredFlag::Reinitialize_Cred, c2),
            ];
            assert(mid =~= start + steps);
            assert(self.calls@ =~= mid + self.calls@.skip(mid.len() as int));
            assert(self.calls@.skip(start.len() as int) =~= steps + self.calls@.skip(
                mid.len() as int,
            ));
            assert(self.calls@.skip(start.len() as int).skip(3) =~= self.calls@.skip(
                mid.len() as int,
            ));
        }
        r
    }

    /// Ends the transaction: closes the session if one is open and
    /// `close_on_drop` is set, ignoring the result; deletes the credentials;
    /// ends the transaction with the deletion's code. The state machine is
    /// consumed, so the handle cannot be used afterwards. The result is the
    /// sequence of calls made.
    pub fn close(self) -> (t: Ghost<Seq<NativeCall>>)
        ensures
            release_trace(self.session_open() && self.closes_on_drop(), t@),
    {
        let mut this = self;
        let ghost start = this.calls@;
        this.release();
        Ghost(this.calls@.skip(start.len() as int))
    }

    fn release(&mut self)
        ensures
            old(self).calls@.is_prefix_of(final(self).calls@),
            release_trace(
                old(self).has_open_session && old(self).close_on_drop,
                final(self).calls@.skip(old(self).calls@.len() as int),
            ),
    {
        let ghost start = self.calls@;
        let close = self.has_open_session && self.close_on_drop;
        if close {
            let _ = self.native_close_session();
        }
        let code = self.native_setcred(PamSetCredFlag::Delete_Cred);
        self.native_end(code);
        proof {
            let t = self.calls@.skip(start.len() as int);
            if close {
                assert(t =~= seq![
                    self.calls@[start.len() as int],
                    NativeCall::SetCred(PamSetCredFlag::Delete_Cred, code),
                    NativeCall::End(code),
                ]);
            } else {
                assert(t =~= seq![
                    NativeCall::SetCred(PamSetCredFlag::Delete_Cred, code),
                    NativeCall::End(code),
                ]);
            }
        }
    }

    fn record(&mut self, call: Ghost<NativeCall>)
        ensures
            final(self).calls@ == old(self).calls@.push(call@),
            final(self).keeps(old(self)),
    {
        self.calls = Ghost(self.calls@.push(call@));
    }
}

} // verus!
