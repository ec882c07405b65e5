use pam::{
    converse, respond, Conversation, PamMessage, PamMessageStyle, PamReturnCode, PasswordConv,
};

struct Recorder {
    answers: Vec<Result<String, ()>>,
    seen: Vec<String>,
}

impl Recorder {
    fn new(answers: Vec<Result<String, ()>>) -> Recorder {
        Recorder { answers, seen: Vec::new() }
    }

    fn answer(&mut self) -> Result<String, ()> {
        if self.answers.is_empty() {
            Err(())
        } else {
            self.answers.remove(0)
        }
    }
}

impl Conversation for Recorder {
    fn prompt_echo(&mut self, msg: &str) -> Result<String, ()> {
        self.seen.push(format!("echo:{}", msg));
        self.answer()
    }
    fn prompt_blind(&mut self, msg: &str) -> Result<String, ()> {
        self.seen.push(format!("blind:{}", msg));
        self.answer()
    }
    fn info(&mut self, msg: &str) {
        self.seen.push(format!("info:{}", msg));
    }
    fn error(&mut self, msg: &str) {
        self.seen.push(format!("error:{}", msg));
    }
    fn username(&self) -> &str {
        "recorder"
    }
}

fn msg(style: PamMessageStyle, text: &str) -> PamMessage {
    PamMessage { style: style.code(), msg: text.to_string() }
}

fn run<C: Conversation>(h: &mut C, msgs: &Vec<PamMessage>) -> Result<Vec<Option<String>>, PamReturnCode> {
    converse(h, msgs).0
}

#[test]
fn bridge_answers_each_prompt_in_order() {
    let msgs = vec![
        msg(PamMessageStyle::Prompt_Echo_On, "login:"),
        msg(PamMessageStyle::Text_Info, "welcome"),
        msg(PamMessageStyle::Prompt_Echo_Off, "password:"),
    ];
    let mut h = Recorder::new(vec![Ok("alice".to_string()), Ok("secret".to_string())]);
    let r = run(&mut h, &msgs);
    assert_eq!(
        r,
        Ok(vec![Some("alice".to_string()), None, Some("secret".to_string())])
    );
    assert_eq!(h.seen, vec!["echo:login:", "info:welcome", "blind:password:"]);
}

#[test]
fn bridge_empty_batch_succeeds_with_no_response() {
    let mut h = Recorder::new(Vec::new());
    assert_eq!(run(&mut h, &Vec::new()), Ok(Vec::new()));
    assert!(h.seen.is_empty());
}

#[test]
fn bridge_info_only_gives_no_allocation() {
    let msgs = vec![
        msg(PamMessageStyle::Text_Info, "a"),
        msg(PamMessageStyle::Text_Info, "b"),
    ];
    let mut h = Recorder::new(Vec::new());
    assert_eq!(run(&mut h, &msgs), Ok(vec![None, None]));
}

#[test]
fn bridge_error_message_aborts_with_conversation_error() {
    let msgs = vec![
        msg(PamMessageStyle::Prompt_Echo_On, "login:"),
        msg(PamMessageStyle::Error_Msg, "locked"),
        msg(PamMessageStyle::Prompt_Echo_Off, "password:"),
    ];
    let mut h = Recorder::new(vec![Ok("alice".to_string()), Ok("secret".to_string())]);
    assert_eq!(run(&mut h, &msgs), Err(PamReturnCode::Conv_Err));
    // Only the message before the error was answered; nothing after it ran.
    assert_eq!(h.seen, vec!["echo:login:", "error:locked"]);
}

#[test]
fn bridge_refused_prompt_stops_processing() {
    let msgs = vec![
        msg(PamMessageStyle::Prompt_Echo_On, "login:"),
        msg(PamMessageStyle::Prompt_Echo_Off, "password:"),
        msg(PamMessageStyle::Text_Info, "never seen"),
    ];
    let mut h = Recorder::new(vec![Ok("alice".to_string()), Err(())]);
    assert_eq!(run(&mut h, &msgs), Err(PamReturnCode::Conv_Err));
    assert_eq!(h.seen, vec!["echo:login:", "blind:password:"]);
}

#[test]
fn bridge_answer_with_nul_is_a_conversation_error() {
    let msgs = vec![msg(PamMessageStyle::Prompt_Echo_On, "login:")];
    let mut h = Recorder::new(vec![Ok("al\0ice".to_string())]);
    assert_eq!(run(&mut h, &msgs), Err(PamReturnCode::Conv_Err));
}

#[test]
fn password_conv_answers_login_then_password() {
    let mut c = PasswordConv::new();
    assert_eq!(c.username(), "");
    assert_eq!(c.set_credentials("alice", "secret"), Ok(()));
    assert_eq!(c.username(), "alice");
    let msgs = vec![
        msg(PamMessageStyle::Prompt_Echo_On, "Login: "),
        msg(PamMessageStyle::Text_Info, "motd"),
        msg(PamMessageStyle::Prompt_Echo_Off, "Password: "),
    ];
    assert_eq!(
        run(&mut c, &msgs),
        Ok(vec![Some("alice".to_string()), None, Some("secret".to_string())])
    );
}

#[test]
fn password_conv_error_message_aborts() {
    let mut c = PasswordConv::new();
    assert_eq!(c.set_credentials("alice", "secret"), Ok(()));
    let msgs = vec![msg(PamMessageStyle::Error_Msg, "account locked")];
    assert_eq!(run(&mut c, &msgs), Err(PamReturnCode::Conv_Err));
}

#[test]
fn password_conv_rejects_nul_credentials() {
    let mut c = PasswordConv::new();
    assert_eq!(c.set_credentials("alice", "secret"), Ok(()));
    assert_eq!(
        c.set_credentials("bo\0b", "pw"),
        Err(pam::PamError(PamReturnCode::Buf_Err))
    );
    assert_eq!(
        c.set_credentials("bob", "p\0w"),
        Err(pam::PamError(PamReturnCode::Buf_Err))
    );
    assert_eq!(c.username(), "alice");
    assert_eq!(c.prompt_blind("Password: "), Ok("secret".to_string()));
}

#[test]
fn respond_decides_each_message() {
    assert_eq!(respond(PamMessageStyle::Text_Info.code(), None), Ok(None));
    assert_eq!(
        respond(PamMessageStyle::Error_Msg.code(), Some("x".to_string())),
        Err(PamReturnCode::Conv_Err)
    );
    assert_eq!(
        respond(PamMessageStyle::Prompt_Echo_On.code(), Some("alice".to_string())),
        Ok(Some("alice".to_string()))
    );
    assert_eq!(
        respond(PamMessageStyle::Prompt_Echo_Off.code(), None),
        Err(PamReturnCode::Conv_Err)
    );
    assert_eq!(
        respond(PamMessageStyle::Prompt_Echo_Off.code(), Some("a\0b".to_string())),
        Err(PamReturnCode::Conv_Err)
    );
}

#[test]
fn bridge_malformed_style_is_a_conversation_error() {
    let msgs = vec![
        msg(PamMessageStyle::Prompt_Echo_On, "login:"),
        PamMessage { style: 99, msg: "what".to_string() },
        msg(PamMessageStyle::Prompt_Echo_Off, "password:"),
    ];
    let mut h = Recorder::new(vec![Ok("alice".to_string()), Ok("secret".to_string())]);
    assert_eq!(run(&mut h, &msgs), Err(PamReturnCode::Conv_Err));
    // The malformed message reaches no handler method, and nothing follows it.
    assert_eq!(h.seen, vec!["echo:login:"]);
    assert_eq!(respond(0, Some("x".to_string())), Err(PamReturnCode::Conv_Err));
}

#[test]
fn password_conv_answers_ignore_prompt_text() {
    let mut c = PasswordConv::new();
    assert_eq!(c.set_credentials("bob", "pw"), Ok(()));
    assert_eq!(c.prompt_echo("anything"), Ok("bob".to_string()));
    assert_eq!(c.prompt_echo("Password: "), Ok("bob".to_string()));
    assert_eq!(c.prompt_blind("Login: "), Ok("pw".to_string()));
    c.info("note");
    assert_eq!(c.username(), "bob");
}
