//! The conversation: the handler that answers the native library's prompts,
//! and the bridge that dispatches a batch of messages to it.
use std::io::Write;

use vstd::prelude::*;

use crate::enums::{PamMessageStyle, PamReturnCode};
use crate::types::{contains_nul, has_nul, PamError, PamResult};

verus! {

/// The answers to the native library's questions during authentication.
///
/// The native library asks questions and reports messages; an implementation
/// answers them. `PasswordConv` is a non-interactive one.
pub trait Conversation {
    /// A value that should be echoed to the user as it is typed, typically
    /// the user name; `msg` is the question. `Err` declines to answer.
    fn prompt_echo(&mut self, msg: &str) -> Result<String, ()>;

    /// A value that should be typed blindly, typically the password; `msg`
    /// is the question. `Err` declines to answer.
    fn prompt_blind(&mut self, msg: &str) -> Result<String, ()>;

    /// An informational message.
    fn info(&mut self, msg: &str);

    /// An error message.
    fn error(&mut self, msg: &str);

    /// The user name being authenticated, used to set up the environment of
    /// a session.
    fn username(&self) -> &str;
}

/// Relies on `std::io::stderr` (through `writeln!`): the line is written to
/// the process's standard error; nothing comes back, and a failed write is
/// ignored.
#[verifier::external_body]
fn write_diagnostic(msg: &str) {
    let _ = writeln!(std::io::stderr(), "[PAM ERROR] {}", msg);
}

/// A conversation that answers with a preset login and password.
///
/// Every echoed prompt is answered with the login and every blind prompt
/// with the password, whatever the question: this assumes that the modules
/// ask for the user name first and the password second.
pub struct PasswordConv {
    login: String,
    passwd: String,
}

impl PasswordConv {
    pub closed spec fn login(&self) -> Seq<char> {
        self.login@
    }

    pub closed spec fn password(&self) -> Seq<char> {
        self.passwd@
    }

    /// A handler with an empty login and password.
    pub fn new() -> (r: PasswordConv)
        ensures
            r.login() == Seq::<char>::empty(),
            r.password() == Seq::<char>::empty(),
    {
        PasswordConv { login: String::new(), passwd: String::new() }
    }

    /// Sets the login and password that the handler will answer with.
    ///
    /// A string with a nul character cannot reach the native library: then
    /// nothing changes and the result is a buffer error.
    pub fn set_credentials(&mut self, login: &str, password: &str) -> (r: PamResult<()>)
        ensures
            has_nul(login@) || has_nul(password@) ==> r == Err::<(), PamError>(
                PamError(PamReturnCode::Buf_Err),
            ) && final(self).login() == old(self).login() && final(self).password() == old(
                self,
            ).password(),
            !has_nul(login@) && !has_nul(password@) ==> r == Ok::<(), PamError>(())
                && final(self).login() == login@ && final(self).password() == password@,
    {
        if contains_nul(login) || contains_nul(password) {
            return Err(PamError(PamReturnCode::Buf_Err));
        }
        self.login = login.to_owned();
        self.passwd = password.to_owned();
        Ok(())
    }
}

impl Conversation for PasswordConv {
    fn prompt_echo(&mut self, _msg: &str) -> (r: Result<String, ()>)
        ensures
            r matches Ok(s) && s@ == old(self).login(),
            final(self).login() == old(self).login(),
            final(self).password() == old(self).password(),
    {
        Ok(self.login.clone())
    }

    fn prompt_blind(&mut self, _msg: &str) -> (r: Result<String, ()>)
        ensures
            r matches Ok(s) && s@ == old(self).password(),
            final(self).login() == old(self).login(),
            final(self).password() == old(self).password(),
    {
        Ok(self.passwd.clone())
    }

    fn info(&mut self, _msg: &str)
        ensures
            final(self).login() == old(self).login(),
            final(self).password() == old(self).password(),
    {
    }

    fn error(&mut self, msg: &str)
        ensures
            final(self).login() == old(self).login(),
            final(self).password() == old(self).password(),
    {
        write_diagnostic(msg);
    }

    fn username(&self) -> (r: &str)
        ensures
            r@ == self.login(),
    {
        self.login.as_str()
    }
}

/// A message from the native library to the conversation: its style, as
/// the native integer (see `PamMessageStyle`), and its text.
pub struct PamMessage {
    pub style: i32,
    pub msg: String,
}

/// One message as the bridge handed it to the handler, with the handler's
/// answer for a prompt (`None`: it declined).
pub enum HandlerCall {
    PromptEcho(Seq<char>, Option<Seq<char>>),
    PromptBlind(Seq<char>, Option<Seq<char>>),
    Info(Seq<char>),
    Error(Seq<char>),
    /// No handler method was called: the style is malformed.
    NotAsked,
}

/// `c` is the handler call that the message `m` calls for: the method that
/// its style names, with its text.
pub open spec fn call_for(m: PamMessage, c: HandlerCall) -> bool {
    match PamMessageStyle::spec_known(m.style) {
        Some(PamMessageStyle::Prompt_Echo_On) => c matches HandlerCall::PromptEcho(text, _) && text
            == m.msg@,
        Some(PamMessageStyle::Prompt_Echo_Off) => c matches HandlerCall::PromptBlind(text, _) && text
            == m.msg@,
        Some(PamMessageStyle::Error_Msg) => c == HandlerCall::Error(m.msg@),
        Some(PamMessageStyle::Text_Info) => c == HandlerCall::Info(m.msg@),
        None => c == HandlerCall::NotAsked,
    }
}

/// The handler's answer in a call, for a prompt.
pub open spec fn answer_of(c: HandlerCall) -> Option<Seq<char>> {
    match c {
        HandlerCall::PromptEcho(_, a) => a,
        HandlerCall::PromptBlind(_, a) => a,
        _ => None,
    }
}

pub open spec fn answers_of(log: Seq<HandlerCall>) -> Seq<Option<Seq<char>>> {
    Seq::new(log.len(), |i: int| answer_of(log[i]))
}

/// The responses of the bridge, as sequences of characters.
pub open spec fn responses_view(v: Seq<Option<String>>) -> Seq<Option<Seq<char>>> {
    Seq::new(
        v.len(),
        |i: int|
            match v[i] {
                Some(s) => Some(s@),
                None => None,
            },
    )
}

/// What the bridge makes of one message of style `style` (the native
/// integer), when the handler's answer to it is `answer` (`None`: it
/// declined; not asked for messages that are not prompts).
///
/// An informational message gets an empty slot; an error message, or a
/// malformed style, aborts with `Conv_Err`; a prompt gets the handler's
/// answer, and aborts with `Conv_Err` when the handler declines or answers
/// with a string that holds a nul character, which no native string can carry.
pub open spec fn step(style: i32, answer: Option<Seq<char>>) -> Result<
    Option<Seq<char>>,
    PamReturnCode,
> {
    match PamMessageStyle::spec_known(style) {
        None => Err(PamReturnCode::Conv_Err),
        Some(PamMessageStyle::Text_Info) => Ok(None),
        Some(PamMessageStyle::Error_Msg) => Err(PamReturnCode::Conv_Err),
        Some(_) => match answer {
            Some(a) => if has_nul(a) {
                Err(PamReturnCode::Conv_Err)
            } else {
                Ok(Some(a))
            },
            None => Err(PamReturnCode::Conv_Err),
        },
    }
}

/// What the bridge hands back for `msgs` when the handler's answer to the
/// prompt at index `i` is `answers[i]`: each message is taken in order by
/// `step`, and the first abort hands back its error and no response at all.
pub open spec fn bridge(msgs: Seq<PamMessage>, answers: Seq<Option<Seq<char>>>) -> Result<
    Seq<Option<Seq<char>>>,
    PamReturnCode,
>
    decreases msgs.len(),
{
    if msgs.len() == 0 {
        Ok(Seq::empty())
    } else {
        match bridge(msgs.drop_last(), answers.drop_last()) {
            Err(e) => Err(e),
            Ok(done) => match step(msgs.last().style, answers.last()) {
                Ok(slot) => Ok(done.push(slot)),
                Err(e) => Err(e),
            },
        }
    }
}

/// The response slot for one message, given the handler's answer to it; see
/// `step`.
pub fn respond(style: i32, answer: Option<String>) -> (r: Result<
    Option<String>,
    PamReturnCode,
>)
    ensures
        match r {
            Ok(Some(s)) => step(style, opt_view(answer)) == Ok::<
                Option<Seq<char>>,
                PamReturnCode,
            >(Some(s@)),
            Ok(None) => step(style, opt_view(answer)) == Ok::<Option<Seq<char>>, PamReturnCode>(
                None,
            ),
            Err(e) => step(style, opt_view(answer)) == Err::<Option<Seq<char>>, PamReturnCode>(e),
        },
{
    match PamMessageStyle::from_known(style) {
        None => Err(PamReturnCode::Conv_Err),
        Some(PamMessageStyle::Text_Info) => Ok(None),
        Some(PamMessageStyle::Error_Msg) => Err(PamReturnCode::Conv_Err),
        Some(_) => match answer {
            Some(a) => {
                if contains_nul(a.as_str()) {
                    Err(PamReturnCode::Conv_Err)
                } else {
                    Ok(Some(a))
                }
            },
            None => Err(PamReturnCode::Conv_Err),
        },
    }
}

pub open spec fn opt_view(s: Option<String>) -> Option<Seq<char>> {
    match s {
        Some(s) => Some(s@),
        None => None,
    }
}

pub open spec fn bridge_outcome(r: Result<Vec<Option<String>>, PamReturnCode>) -> Result<
    Seq<Option<Seq<char>>>,
    PamReturnCode,
> {
    match r {
        Ok(v) => Ok(responses_view(v@)),
        Err(e) => Err(e),
    }
}

proof fn lemma_bridge_abort_persists(
    msgs: Seq<PamMessage>,
    answers: Seq<Option<Seq<char>>>,
    k: int,
    e: PamReturnCode,
)
    requires
        0 <= k <= msgs.len(),
        answers.len() == msgs.len(),
        bridge(msgs.take(k), answers.take(k)) == Err::<Seq<Option<Seq<char>>>, PamReturnCode>(e),
    ensures
        bridge(msgs, answers) == Err::<Seq<Option<Seq<char>>>, PamReturnCode>(e),
    decreases msgs.len() - k,
{
    if k < msgs.len() {
        assert(msgs.take(k + 1).drop_last() =~= msgs.take(k));
        assert(answers.take(k + 1).drop_last() =~= answers.take(k));
        lemma_bridge_abort_persists(msgs, answers, k + 1, e);
    } else {
        assert(msgs.take(k) =~= msgs);
        assert(answers.take(k) =~= answers);
    }
}

/// Dispatches the messages of one call of the native conversation callback
/// to `handler`, in order, and collects the responses.
///
/// Each message goes to the handler method that its style names, with its
/// text: `prompt_echo`, `prompt_blind`, `error` or `info`; a message of a
/// malformed style goes to none. The second result records these calls, one
/// per message handled, with the handler's answers. The first message whose
/// `step` aborts (an error message, a malformed style, a declined prompt)
/// is the last one handled: the responses gathered so far are dropped and its
/// error comes back. On success there is one slot per message, empty for the
/// informational ones.
pub fn converse<C: Conversation>(handler: &mut C, msgs: &Vec<PamMessage>) -> (r: (
    Result<Vec<Option<String>>, PamReturnCode>,
    Ghost<Seq<HandlerCall>>,
))
    ensures
        r.1@.len() <= msgs@.len(),
        forall|i: int| 0 <= i < r.1@.len() ==> call_for(msgs@[i], #[trigger] r.1@[i]),
        bridge_outcome(r.0) == bridge(msgs@.take(r.1@.len() as int), answers_of(r.1@)),
        r.0 is Ok ==> r.1@.len() == msgs@.len(),
        r.0 is Err ==> r.1@.len() > 0 && bridge(
            msgs@.take(r.1@.len() - 1),
            answers_of(r.1@).drop_last(),
        ) is Ok,
{
    let mut out: Vec<Option<String>> = Vec::new();
    let ghost mut log: Seq<HandlerCall> = Seq::empty();
    let n = msgs.len();
    let mut i: usize = 0;
    assert(msgs@.take(0) =~= Seq::<PamMessage>::empty());
    assert(answers_of(log) =~= Seq::<Option<Seq<char>>>::empty());
    assert(responses_view(out@) =~= Seq::<Option<Seq<char>>>::empty());
    while i < n
        invariant
            n == msgs@.len(),
            i <= n,
            log.len() == i,
            forall|j: int| 0 <= j < i ==> call_for(msgs@[j], #[trigger] log[j]),
            bridge(msgs@.take(i as int), answers_of(log)) == Ok::<
                Seq<Option<Seq<char>>>,
                PamReturnCode,
            >(responses_view(out@)),
        decreases n - i,
    {
        let m = &msgs[i];
        let known = PamMessageStyle::from_known(m.style);
        let answer: Option<String> = match known {
            Some(PamMessageStyle::Prompt_Echo_On) => match handler.prompt_echo(m.msg.as_str()) {
                Ok(a) => Some(a),
                Err(()) => None,
            },
            Some(PamMessageStyle::Prompt_Echo_Off) => match handler.prompt_blind(m.msg.as_str()) {
                Ok(a) => Some(a),
                Err(()) => None,
            },
            Some(PamMessageStyle::Error_Msg) => {
                handler.error(m.msg.as_str());
                None
            },
            Some(PamMessageStyle::Text_Info) => {
                handler.info(m.msg.as_str());
                None
            },
            None => None,
        };
        let ghost entry = match known {
            Some(PamMessageStyle::Prompt_Echo_On) => HandlerCall::PromptEcho(m.msg@, opt_view(answer)),
            Some(PamMessageStyle::Prompt_Echo_Off) => HandlerCall::PromptBlind(m.msg@, opt_view(answer)),
            Some(PamMessageStyle::Error_Msg) => HandlerCall::Error(m.msg@),
            Some(PamMessageStyle::Text_Info) => HandlerCall::Info(m.msg@),
            None => HandlerCall::NotAsked,
        };
        let ghost next = log.push(entry);
        assert(answers_of(next) =~= answers_of(log).push(answer_of(entry)));
        assert(answers_of(next).drop_last() =~= answers_of(log));
        assert(answer_of(entry) == opt_view(answer));
        assert(msgs@.take(i + 1).drop_last() =~= msgs@.take(i as int));
        assert(msgs@.take(i + 1).last() == msgs@[i as int]);
        assert forall|j: int| 0 <= j < i + 1 implies call_for(msgs@[j], #[trigger] next[j]) by {
            if j < i {
                assert(next[j] == log[j]);
            }
        }
        let ghost before = out@;
        match respond(m.style, answer) {
            Ok(slot) => {
                out.push(slot);
                assert(responses_view(out@) =~= responses_view(before).push(opt_view(slot)));
            },
            Err(e) => {
                assert(next.len() - 1 == i);
                assert(msgs@.take(next.len() - 1) =~= msgs@.take(i as int));
                return (Err(e), Ghost(next));
            },
        }
        proof {
            log = next;
        }
        i += 1;
    }
    assert(msgs@.take(n as int) =~= msgs@);
    (Ok(out), Ghost(log))
}

/// `style` is a known style other than an error message.
pub open spec fn answerable(style: i32) -> bool {
    PamMessageStyle::spec_known(style) is Some && PamMessageStyle::spec_known(style) != Some(
        PamMessageStyle::Error_Msg,
    )
}

/// The bridge fails only with `Conv_Err`.
pub proof fn lemma_bridge_fails_with_conv_err(msgs: Seq<PamMessage>, answers: Seq<Option<Seq<char>>>)
    ensures
        bridge(msgs, answers) is Err ==> bridge(msgs, answers) == Err::<
            Seq<Option<Seq<char>>>,
            PamReturnCode,
        >(PamReturnCode::Conv_Err),
    decreases msgs.len(),
{
    if msgs.len() > 0 {
        lemma_bridge_fails_with_conv_err(msgs.drop_last(), answers.drop_last());
    }
}

/// An error-styled message anywhere in a batch aborts the whole conversation
/// with `Conv_Err`, whatever the handler answers: no response comes back,
/// neither for the prompts before it nor after it.
pub proof fn lemma_bridge_error_message_aborts(
    msgs: Seq<PamMessage>,
    answers: Seq<Option<Seq<char>>>,
    k: int,
)
    requires
        answers.len() == msgs.len(),
        0 <= k < msgs.len(),
        PamMessageStyle::spec_known(msgs[k].style) == Some(PamMessageStyle::Error_Msg),
    ensures
        bridge(msgs, answers) == Err::<Seq<Option<Seq<char>>>, PamReturnCode>(
            PamReturnCode::Conv_Err,
        ),
{
    let m = msgs.take(k + 1);
    let a = answers.take(k + 1);
    lemma_bridge_fails_with_conv_err(m, a);
    assert(m.drop_last() =~= msgs.take(k));
    assert(m.last() == msgs[k]);
    lemma_bridge_fails_with_conv_err(msgs.take(k), answers.take(k));
    assert(a.drop_last() =~= answers.take(k));
    lemma_bridge_abort_persists(msgs, answers, k + 1, PamReturnCode::Conv_Err);
}

/// When every message has a known style, none is error-styled, and the handler answers every prompt with
/// a string free of nul characters, the bridge succeeds with one slot per
/// message, in the order of the messages: the handler's answer for a prompt,
/// and an empty slot for an informational message.
pub proof fn lemma_bridge_all_answered(msgs: Seq<PamMessage>, answers: Seq<Option<Seq<char>>>)
    requires
        answers.len() == msgs.len(),
        forall|i: int|
            0 <= i < msgs.len() ==> answerable(#[trigger] msgs[i].style),
        forall|i: int|
            0 <= i < msgs.len() && PamMessageStyle::spec_known(msgs[i].style) != Some(
                PamMessageStyle::Text_Info,
            ) ==> (
            #[trigger] answers[i] matches Some(a) && !has_nul(a)),
    ensures
        bridge(msgs, answers) matches Ok(r) && r.len() == msgs.len() && (forall|i: int|
            0 <= i < msgs.len() ==> if PamMessageStyle::spec_known(msgs[i].style) == Some(
                PamMessageStyle::Text_Info,
            ) {
                #[trigger] r[i] == None::<Seq<char>>
            } else {
                r[i] == answers[i]
            }),
    decreases msgs.len(),
{
    if msgs.len() > 0 {
        let m = msgs.drop_last();
        let a = answers.drop_last();
        assert forall|i: int| 0 <= i < m.len() implies answerable(#[trigger] m[i].style) by {
            assert(m[i] == msgs[i]);
        }
        assert forall|i: int|
            0 <= i < m.len() && PamMessageStyle::spec_known(m[i].style) != Some(PamMessageStyle::Text_Info) implies (
            #[trigger] a[i] matches Some(x) && !has_nul(x)) by {
            assert(m[i] == msgs[i]);
            assert(a[i] == answers[i]);
        }
        lemma_bridge_all_answered(m, a);
        let last = msgs.len() - 1;
        assert(msgs.last() == msgs[last]);
        assert(answers.last() == answers[last]);
        assert(answerable(msgs[last].style));
        if PamMessageStyle::spec_known(msgs[last].style) != Some(PamMessageStyle::Text_Info) {
            assert(answers[last] matches Some(x) && !has_nul(x));
        }
    }
}

} // verus!
