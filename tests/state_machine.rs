use std::cell::RefCell;
use std::rc::Rc;

use pam::{
    Authenticator, Conversation, PamBackend, PamError, PamFlag, PamReturnCode, PamSetCredFlag,
    PasswordConv, UserAccount,
};

const OK: PamReturnCode = PamReturnCode::Success;

#[derive(Clone)]
struct Script {
    authenticate: PamReturnCode,
    acct_mgmt: PamReturnCode,
    establish: PamReturnCode,
    open: PamReturnCode,
    reinit: PamReturnCode,
    delete: PamReturnCode,
    close: PamReturnCode,
    putenv: PamReturnCode,
    present: Vec<String>,
    user: Option<(String, String, String)>,
    host_path: Option<String>,
}

fn all_success() -> Script {
    Script {
        authenticate: OK,
        acct_mgmt: OK,
        establish: OK,
        open: OK,
        reinit: OK,
        delete: OK,
        close: OK,
        putenv: OK,
        present: Vec::new(),
        user: Some((
            "alice".to_string(),
            "/home/alice".to_string(),
            "/bin/sh".to_string(),
        )),
        host_path: Some("/bin".to_string()),
    }
}

struct Fake {
    script: RefCell<Script>,
    log: Rc<RefCell<Vec<String>>>,
}

impl Fake {
    fn note(&self, s: String) {
        self.log.borrow_mut().push(s);
    }
}

impl PamBackend for Fake {
    fn start<C: Conversation>(service: &str, _conversation: &C) -> Result<Fake, PamReturnCode> {
        if service == "missing" {
            return Err(PamReturnCode::Service_Err);
        }
        Ok(Fake { script: RefCell::new(all_success()), log: Rc::new(RefCell::new(Vec::new())) })
    }
    fn authenticate(&mut self, _flags: PamFlag) -> PamReturnCode {
        self.note("authenticate".to_string());
        self.script.borrow().authenticate
    }
    fn acct_mgmt(&mut self, _flags: PamFlag) -> PamReturnCode {
        self.note("acct_mgmt".to_string());
        self.script.borrow().acct_mgmt
    }
    fn setcred(&mut self, flags: PamSetCredFlag) -> PamReturnCode {
        self.note(format!("setcred:{:?}", flags));
        let s = self.script.borrow();
        match flags {
            PamSetCredFlag::Establish_Cred => s.establish,
            PamSetCredFlag::Delete_Cred => s.delete,
            PamSetCredFlag::Reinitialize_Cred => s.reinit,
            PamSetCredFlag::Refresh_Cred => OK,
        }
    }
    fn open_session(&mut self, _flags: PamFlag) -> PamReturnCode {
        self.note("open_session".to_string());
        self.script.borrow().open
    }
    fn close_session(&mut self, _flags: PamFlag) -> PamReturnCode {
        self.note("close_session".to_string());
        self.script.borrow().close
    }
    fn end(&mut self, status: PamReturnCode) -> PamReturnCode {
        self.note(format!("end:{:?}", status));
        OK
    }
    fn getenv(&mut self, name: &str) -> Option<String> {
        self.note(format!("getenv:{}", name));
        if self.script.borrow().present.iter().any(|p| p == name) {
            Some("preset".to_string())
        } else {
            None
        }
    }
    fn putenv(&mut self, name_value: &str) -> PamReturnCode {
        self.note(format!("putenv:{}", name_value));
        self.script.borrow().putenv
    }
    fn set_process_env(&mut self, key: &str, value: &str) {
        self.note(format!("setenv:{}={}", key, value));
    }
    fn process_env(&mut self, key: &str) -> Option<String> {
        self.note(format!("getprocessenv:{}", key));
        if key == "PATH" {
            self.script.borrow().host_path.clone()
        } else {
            None
        }
    }
    fn lookup_user(&mut self, name: &str) -> Option<UserAccount> {
        self.note(format!("lookup:{}", name));
        self.script.borrow().user.clone().map(|(name, home_dir, shell)| UserAccount {
            name,
            home_dir,
            shell,
        })
    }
}

type Auth = Authenticator<PasswordConv, Fake>;

fn started() -> Auth {
    let mut a = Auth::with_password("login").0.expect("fake start succeeds");
    assert_eq!(a.handler_mut().set_credentials("alice", "secret"), Ok(()));
    a
}

fn script(a: &Auth, f: impl FnOnce(&mut Script)) {
    f(&mut a.handle().script.borrow_mut());
}

fn log(a: &Auth) -> Vec<String> {
    a.handle().log.borrow().clone()
}

fn env_calls() -> Vec<String> {
    let mut v = vec!["lookup:alice".to_string(), "getprocessenv:PATH".to_string()];
    for (k, val) in [
        ("USER", "alice"),
        ("LOGNAME", "alice"),
        ("HOME", "/home/alice"),
        ("SHELL", "/bin/sh"),
        ("MAIL", "/var/mail/alice"),
        ("PATH", "/bin:/usr/local/sbin:/usr/local/bin:/usr/bin"),
    ] {
        v.push(format!("setenv:{}={}", k, val));
        v.push(format!("getenv:{}", k));
        v.push(format!("putenv:{}={}", k, val));
    }
    v
}

#[test]
fn start_gives_fresh_state_and_no_call() {
    let a = started();
    assert!(!a.is_authenticated());
    assert!(!a.has_open_session());
    assert!(a.close_on_drop);
    assert_eq!(a.last_code(), OK);
    assert!(log(&a).is_empty());
    assert_eq!(a.handler().username(), "alice");
}

#[test]
fn start_with_nul_service_is_buffer_error() {
    let r = Auth::with_password("sys\0tem").0;
    assert!(matches!(r, Err(PamError(PamReturnCode::Buf_Err))));
}

#[test]
fn start_failure_is_reported() {
    let r = Auth::with_password("missing").0;
    assert!(matches!(r, Err(PamError(PamReturnCode::Service_Err))));
}

#[test]
fn authenticate_success_checks_account() {
    let mut a = started();
    assert_eq!(a.authenticate(), Ok(()));
    assert!(a.is_authenticated());
    assert_eq!(log(&a), vec!["authenticate", "acct_mgmt"]);
}

#[test]
fn authenticate_failure_returns_without_rollback() {
    let mut a = started();
    script(&a, |s| s.authenticate = PamReturnCode::Auth_Err);
    assert_eq!(a.authenticate(), Err(PamError(PamReturnCode::Auth_Err)));
    assert!(!a.is_authenticated());
    assert_eq!(a.last_code(), PamReturnCode::Auth_Err);
    assert_eq!(log(&a), vec!["authenticate"]);
}

#[test]
fn account_check_failure_rolls_back() {
    let mut a = started();
    script(&a, |s| {
        s.acct_mgmt = PamReturnCode::Acct_Expired;
        s.delete = PamReturnCode::Cred_Err;
    });
    assert_eq!(a.authenticate(), Err(PamError(PamReturnCode::Acct_Expired)));
    assert!(!a.is_authenticated());
    assert_eq!(a.last_code(), PamReturnCode::Acct_Expired);
    assert_eq!(log(&a), vec!["authenticate", "acct_mgmt", "setcred:Delete_Cred"]);
}

#[test]
fn open_session_before_authenticate_is_denied_without_calls() {
    let mut a = started();
    assert_eq!(a.open_session(), Err(PamError(PamReturnCode::Perm_Denied)));
    assert!(!a.has_open_session());
    assert!(log(&a).is_empty());
}

#[test]
fn open_session_after_failed_authenticate_is_denied() {
    let mut a = started();
    script(&a, |s| s.acct_mgmt = PamReturnCode::Acct_Expired);
    assert!(a.authenticate().is_err());
    let before = log(&a).len();
    assert_eq!(a.open_session(), Err(PamError(PamReturnCode::Perm_Denied)));
    assert_eq!(log(&a).len(), before);
}

#[test]
fn open_session_runs_steps_in_order_then_environment() {
    let mut a = started();
    assert_eq!(a.authenticate(), Ok(()));
    assert_eq!(a.open_session(), Ok(()));
    assert!(a.has_open_session());
    assert!(a.is_authenticated());
    let mut expected: Vec<String> = vec![
        "authenticate",
        "acct_mgmt",
        "setcred:Establish_Cred",
        "open_session",
        "setcred:Reinitialize_Cred",
    ]
    .into_iter()
    .map(String::from)
    .collect();
    expected.extend(env_calls());
    assert_eq!(log(&a), expected);
}

fn failing_step(step: &str, code: PamReturnCode) -> (Auth, Vec<String>) {
    let mut a = started();
    assert_eq!(a.authenticate(), Ok(()));
    script(&a, |s| match step {
        "establish" => s.establish = code,
        "open" => s.open = code,
        _ => s.reinit = code,
    });
    assert_eq!(a.open_session(), Err(PamError(code)));
    assert!(!a.is_authenticated());
    assert!(!a.has_open_session());
    assert_eq!(a.last_code(), code);
    let l = log(&a);
    (a, l[2..].to_vec())
}

#[test]
fn establish_failure_rolls_back_and_stops() {
    let (_a, l) = failing_step("establish", PamReturnCode::Cred_Err);
    assert_eq!(l, vec!["setcred:Establish_Cred", "setcred:Delete_Cred"]);
}

#[test]
fn open_failure_rolls_back_and_stops() {
    let (_a, l) = failing_step("open", PamReturnCode::Session_Err);
    assert_eq!(l, vec!["setcred:Establish_Cred", "open_session", "setcred:Delete_Cred"]);
}

#[test]
fn reinit_failure_rolls_back_and_stops() {
    let (_a, l) = failing_step("reinit", PamReturnCode::Cred_Expired);
    assert_eq!(
        l,
        vec![
            "setcred:Establish_Cred",
            "open_session",
            "setcred:Reinitialize_Cred",
            "setcred:Delete_Cred"
        ]
    );
}

#[test]
fn environment_skips_variables_already_present() {
    let mut a = started();
    script(&a, |s| s.present = vec!["HOME".to_string(), "PATH".to_string()]);
    assert_eq!(a.authenticate(), Ok(()));
    assert_eq!(a.open_session(), Ok(()));
    let l = log(&a);
    assert!(l.contains(&"getenv:HOME".to_string()));
    assert!(!l.iter().any(|c| c.starts_with("putenv:HOME=")));
    assert!(!l.iter().any(|c| c.starts_with("putenv:PATH=")));
    assert!(l.contains(&"putenv:MAIL=/var/mail/alice".to_string()));
    assert!(l.contains(&"setenv:HOME=/home/alice".to_string()));
}

#[test]
fn environment_putenv_failure_is_returned_and_session_stays_open() {
    let mut a = started();
    script(&a, |s| s.putenv = PamReturnCode::Buf_Err);
    assert_eq!(a.authenticate(), Ok(()));
    assert_eq!(a.open_session(), Err(PamError(PamReturnCode::Buf_Err)));
    assert!(a.has_open_session());
    let l = log(&a);
    assert_eq!(l.last().unwrap(), "putenv:USER=alice");
}

#[test]
fn environment_unknown_user_is_reported() {
    let mut a = started();
    script(&a, |s| s.user = None);
    assert_eq!(a.authenticate(), Ok(()));
    assert_eq!(a.open_session(), Err(PamError(PamReturnCode::User_Unknown)));
    assert!(a.has_open_session());
    assert_eq!(log(&a).last().unwrap(), "lookup:alice");
}

#[test]
fn close_without_session_deletes_credentials_and_ends_once() {
    let a = started();
    script(&a, |s| s.delete = PamReturnCode::Cred_Err);
    let shared = a.handle().log.clone();
    let _ = a.close();
    assert_eq!(*shared.borrow(), vec!["setcred:Delete_Cred", "end:Cred_Err"]);
}

#[test]
fn close_with_session_closes_it_first() {
    let mut a = started();
    assert_eq!(a.authenticate(), Ok(()));
    assert_eq!(a.open_session(), Ok(()));
    let shared = a.handle().log.clone();
    let before = shared.borrow().len();
    let _ = a.close();
    assert_eq!(
        shared.borrow()[before..].to_vec(),
        vec!["close_session", "setcred:Delete_Cred", "end:Success"]
    );
}

#[test]
fn close_with_session_but_no_close_on_drop_keeps_it() {
    let mut a = started();
    assert_eq!(a.authenticate(), Ok(()));
    assert_eq!(a.open_session(), Ok(()));
    a.close_on_drop = false;
    let shared = a.handle().log.clone();
    let before = shared.borrow().len();
    let _ = a.close();
    assert_eq!(
        shared.borrow()[before..].to_vec(),
        vec!["setcred:Delete_Cred", "end:Success"]
    );
}

#[test]
fn set_close_on_drop_changes_disposal() {
    let mut a = started();
    assert_eq!(a.authenticate(), Ok(()));
    assert_eq!(a.open_session(), Ok(()));
    a.set_close_on_drop(false);
    assert!(!a.close_on_drop);
    let shared = a.handle().log.clone();
    let _ = a.close();
    assert!(!shared.borrow().contains(&"close_session".to_string()));
}

#[test]
fn path_without_host_path_is_the_session_directories() {
    let mut a = started();
    script(&a, |s| s.host_path = None);
    assert_eq!(a.authenticate(), Ok(()));
    assert_eq!(a.open_session(), Ok(()));
    let l = log(&a);
    assert!(l.contains(&"setenv:PATH=/usr/local/sbin:/usr/local/bin:/usr/bin".to_string()));
    assert!(l.contains(&"putenv:PATH=/usr/local/sbin:/usr/local/bin:/usr/bin".to_string()));
    assert!(!l.iter().any(|c| c.contains("PWD")));
}

#[test]
fn constructed_state_machine_holds_the_given_handler() {
    let mut conv = PasswordConv::new();
    assert_eq!(conv.set_credentials("carol", "pw"), Ok(()));
    let a = Authenticator::<PasswordConv, Fake>::with_handler("login", conv).0.unwrap();
    assert_eq!(a.handler().username(), "carol");
    assert!(log(&a).is_empty());
}
