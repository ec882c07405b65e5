//! The closed vocabularies of the native authentication library: return
//! codes, operation flags, item types and message styles.
//!
//! Each enumeration converts from the native integer with `From<i32>`, which
//! is total (an integer outside the known domain maps to a fixed fallback),
//! and back with `code`.
use vstd::prelude::*;

verus! {

/// The decimal digit `d`.
pub open spec fn digit(d: nat) -> char {
    if d == 0 {
        '0'
    } else if d == 1 {
        '1'
    } else if d == 2 {
        '2'
    } else if d == 3 {
        '3'
    } else if d == 4 {
        '4'
    } else if d == 5 {
        '5'
    } else if d == 6 {
        '6'
    } else if d == 7 {
        '7'
    } else if d == 8 {
        '8'
    } else {
        '9'
    }
}

/// The decimal text of `n`, without leading zeros.
pub open spec fn decimal(n: nat) -> Seq<char>
    decreases n,
{
    if n < 10 {
        seq![digit(n)]
    } else {
        decimal(n / 10) + seq![digit(n % 10)]
    }
}

fn digit_text(d: u32) -> (r: &'static str)
    requires
        d < 10,
    ensures
        r@ == seq![digit(d as nat)],
{
    proof {
        reveal_strlit("0");
        reveal_strlit("1");
        reveal_strlit("2");
        reveal_strlit("3");
        reveal_strlit("4");
        reveal_strlit("5");
        reveal_strlit("6");
        reveal_strlit("7");
        reveal_strlit("8");
        reveal_strlit("9");
    }
    match d {
        0 => "0",
        1 => "1",
        2 => "2",
        3 => "3",
        4 => "4",
        5 => "5",
        6 => "6",
        7 => "7",
        8 => "8",
        _ => "9",
    }
}

/// The decimal text of `n`.
pub fn decimal_text(n: u32) -> (r: String)
    ensures
        r@ == decimal(n as nat),
    decreases n,
{
    if n < 10 {
        String::from_str(digit_text(n))
    } else {
        let high = decimal_text(n / 10);
        high.concat(digit_text(n % 10))
    }
}

/// The report text `name (code)` of a value whose name and code are given.
pub open spec fn report(name: Seq<char>, code: i32) -> Seq<char> {
    name + seq![' ', '('] + decimal(code as nat) + seq![')']
}

fn report_text(name: &str, code: i32) -> (r: String)
    requires
        code >= 0,
    ensures
        r@ == report(name@, code),
{
    proof {
        reveal_strlit(" (");
        reveal_strlit(")");
    }
    let number = decimal_text(code as u32);
    let r = String::from_str(name).concat(" (").concat(number.as_str()).concat(")");
    assert(r@ =~= report(name@, code));
    r
}

/// The return values of the native library.
#[derive(Clone, Copy, Debug, PartialEq, Eq, Structural)]
pub enum PamReturnCode {
    /// System error
    System_Err,
    /// Successful function return
    Success,
    /// dlopen() failure when dynamically loading a service module
    Open_Err,
    /// Symbol not found
    Symbol_Err,
    /// Error in service module
    Service_Err,
    /// Memory buffer error
    Buf_Err,
    /// Permission denied
    Perm_Denied,
    /// Authentication failure
    Auth_Err,
    /// Can not access authentication data due to insufficient credentials
    Cred_Insufficient,
    /// Underlying authentication service can not retrieve authentication information
    Authinfo_Unavail,
    /// User not known to the underlying authentication module
    User_Unknown,
    /// An authentication service has maintained a retry count which has been reached
    MaxTries,
    /// New authentication token required
    New_Authtok_Reqd,
    /// User account has expired
    Acct_Expired,
    /// Can not make/remove an entry for the specified session
    Session_Err,
    /// Underlying authentication service can not retrieve user credentials
    Cred_Unavail,
    /// User credentials expired
    Cred_Expired,
    /// Failure setting user credentials
    Cred_Err,
    /// No module specific data is present
    No_Module_Data,
    /// Conversation error
    Conv_Err,
    /// Authentication token manipulation error
    AuthTok_Err,
    /// Authentication information cannot be recovered
    AuthTok_Recovery_Err,
    /// Authentication token lock busy
    AuthTok_Lock_Busy,
    /// Authentication token aging disabled
    AuthTok_Disable_Aging,
    /// Preliminary check by password service
    Try_Again,
    /// Ignore underlying account module
    Ignore,
    /// The user's authentication token has expired
    AuthTok_Expired,
    /// Critical error, the module fails now
    Abort,
    /// Module is not known
    Module_Unknown,
    /// Bad item passed to pam_*_item()
    Bad_Item,
    /// Conversation function is event driven and data is not available yet
    Conv_Again,
    /// Call this function again to complete the authentication stack
    Incomplete,
}

impl PamReturnCode {
    /// The report text of the value, `name (code)`, such as `Perm_Denied (6)`.
    pub fn to_string(self) -> (r: String)
        ensures
            r@ == report(self.spec_name(), self.spec_code()),
    {
        report_text(self.name(), self.code())
    }

    /// The symbolic name of the value.
    pub open spec fn spec_name(self) -> Seq<char> {
        match self {
            PamReturnCode::System_Err => "System_Err"@,
            PamReturnCode::Success => "Success"@,
            PamReturnCode::Open_Err => "Open_Err"@,
            PamReturnCode::Symbol_Err => "Symbol_Err"@,
            PamReturnCode::Service_Err => "Service_Err"@,
            PamReturnCode::Buf_Err => "Buf_Err"@,
            PamReturnCode::Perm_Denied => "Perm_Denied"@,
            PamReturnCode::Auth_Err => "Auth_Err"@,
            PamReturnCode::Cred_Insufficient => "Cred_Insufficient"@,
            PamReturnCode::Authinfo_Unavail => "Authinfo_Unavail"@,
            PamReturnCode::User_Unknown => "User_Unknown"@,
            PamReturnCode::MaxTries => "MaxTries"@,
            PamReturnCode::New_Authtok_Reqd => "New_Authtok_Reqd"@,
            PamReturnCode::Acct_Expired => "Acct_Expired"@,
            PamReturnCode::Session_Err => "Session_Err"@,
            PamReturnCode::Cred_Unavail => "Cred_Unavail"@,
            PamReturnCode::Cred_Expired => "Cred_Expired"@,
            PamReturnCode::Cred_Err => "Cred_Err"@,
            PamReturnCode::No_Module_Data => "No_Module_Data"@,
            PamReturnCode::Conv_Err => "Conv_Err"@,
            PamReturnCode::AuthTok_Err => "AuthTok_Err"@,
            PamReturnCode::AuthTok_Recovery_Err => "AuthTok_Recovery_Err"@,
            PamReturnCode::AuthTok_Lock_Busy => "AuthTok_Lock_Busy"@,
            PamReturnCode::AuthTok_Disable_Aging => "AuthTok_Disable_Aging"@,
            PamReturnCode::Try_Again => "Try_Again"@,
            PamReturnCode::Ignore => "Ignore"@,
            PamReturnCode::AuthTok_Expired => "AuthTok_Expired"@,
            PamReturnCode::Abort => "Abort"@,
            PamReturnCode::Module_Unknown => "Module_Unknown"@,
            PamReturnCode::Bad_Item => "Bad_Item"@,
            PamReturnCode::Conv_Again => "Conv_Again"@,
            PamReturnCode::Incomplete => "Incomplete"@,
        }
    }

    /// The symbolic name of the value, for error reports.
    pub fn name(self) -> (r: &'static str)
        ensures
            r@ == self.spec_name(),
    {
        match self {
            PamReturnCode::System_Err => "System_Err",
            PamReturnCode::Success => "Success",
            PamReturnCode::Open_Err => "Open_Err",
            PamReturnCode::Symbol_Err => "Symbol_Err",
            PamReturnCode::Service_Err => "Service_Err",
            PamReturnCode::Buf_Err => "Buf_Err",
            PamReturnCode::Perm_Denied => "Perm_Denied",
            PamReturnCode::Auth_Err => "Auth_Err",
            PamReturnCode::Cred_Insufficient => "Cred_Insufficient",
            PamReturnCode::Authinfo_Unavail => "Authinfo_Unavail",
            PamReturnCode::User_Unknown => "User_Unknown",
            PamReturnCode::MaxTries => "MaxTries",
            PamReturnCode::New_Authtok_Reqd => "New_Authtok_Reqd",
            PamReturnCode::Acct_Expired => "Acct_Expired",
            PamReturnCode::Session_Err => "Session_Err",
            PamReturnCode::Cred_Unavail => "Cred_Unavail",
            PamReturnCode::Cred_Expired => "Cred_Expired",
            PamReturnCode::Cred_Err => "Cred_Err",
            PamReturnCode::No_Module_Data => "No_Module_Data",
            PamReturnCode::Conv_Err => "Conv_Err",
            PamReturnCode::AuthTok_Err => "AuthTok_Err",
            PamReturnCode::AuthTok_Recovery_Err => "AuthTok_Recovery_Err",
            PamReturnCode::AuthTok_Lock_Busy => "AuthTok_Lock_Busy",
            PamReturnCode::AuthTok_Disable_Aging => "AuthTok_Disable_Aging",
            PamReturnCode::Try_Again => "Try_Again",
            PamReturnCode::Ignore => "Ignore",
            PamReturnCode::AuthTok_Expired => "AuthTok_Expired",
            PamReturnCode::Abort => "Abort",
            PamReturnCode::Module_Unknown => "Module_Unknown",
            PamReturnCode::Bad_Item => "Bad_Item",
            PamReturnCode::Conv_Again => "Conv_Again",
            PamReturnCode::Incomplete => "Incomplete",
        }
    }

    pub open spec fn spec_code(self) -> i32 {
        match self {
            PamReturnCode::Success => 0,
            PamReturnCode::Open_Err => 1,
            PamReturnCode::Symbol_Err => 2,
            PamReturnCode::Service_Err => 3,
            PamReturnCode::System_Err => 4,
            PamReturnCode::Buf_Err => 5,
            PamReturnCode::Perm_Denied => 6,
            PamReturnCode::Auth_Err => 7,
            PamReturnCode::Cred_Insufficient => 8,
            PamReturnCode::Authinfo_Unavail => 9,
            PamReturnCode::User_Unknown => 10,
            PamReturnCode::MaxTries => 11,
            PamReturnCode::New_Authtok_Reqd => 12,
            PamReturnCode::Acct_Expired => 13,
            PamReturnCode::Session_Err => 14,
            PamReturnCode::Cred_Unavail => 15,
            PamReturnCode::Cred_Expired => 16,
            PamReturnCode::Cred_Err => 17,
            PamReturnCode::No_Module_Data => 18,
            PamReturnCode::Conv_Err => 19,
            PamReturnCode::AuthTok_Err => 20,
            PamReturnCode::AuthTok_Recovery_Err => 21,
            PamReturnCode::AuthTok_Lock_Busy => 22,
            PamReturnCode::AuthTok_Disable_Aging => 23,
            PamReturnCode::Try_Again => 24,
            PamReturnCode::Ignore => 25,
            PamReturnCode::Abort => 26,
            PamReturnCode::AuthTok_Expired => 27,
            PamReturnCode::Module_Unknown => 28,
            PamReturnCode::Bad_Item => 29,
            PamReturnCode::Conv_Again => 30,
            PamReturnCode::Incomplete => 31,
        }
    }

    /// The native integer of this code.
    #[verifier::when_used_as_spec(spec_code)]
    pub fn code(self) -> (r: i32)
        ensures
            r == self.spec_code(),
    {
        match self {
            PamReturnCode::Success => 0,
            PamReturnCode::Open_Err => 1,
            PamReturnCode::Symbol_Err => 2,
            PamReturnCode::Service_Err => 3,
            PamReturnCode::System_Err => 4,
            PamReturnCode::Buf_Err => 5,
            PamReturnCode::Perm_Denied => 6,
            PamReturnCode::Auth_Err => 7,
            PamReturnCode::Cred_Insufficient => 8,
            PamReturnCode::Authinfo_Unavail => 9,
            PamReturnCode::User_Unknown => 10,
            PamReturnCode::MaxTries => 11,
            PamReturnCode::New_Authtok_Reqd => 12,
            PamReturnCode::Acct_Expired => 13,
            PamReturnCode::Session_Err => 14,
            PamReturnCode::Cred_Unavail => 15,
            PamReturnCode::Cred_Expired => 16,
            PamReturnCode::Cred_Err => 17,
            PamReturnCode::No_Module_Data => 18,
            PamReturnCode::Conv_Err => 19,
            PamReturnCode::AuthTok_Err => 20,
            PamReturnCode::AuthTok_Recovery_Err => 21,
            PamReturnCode::AuthTok_Lock_Busy => 22,
            PamReturnCode::AuthTok_Disable_Aging => 23,
            PamReturnCode::Try_Again => 24,
            PamReturnCode::Ignore => 25,
            PamReturnCode::Abort => 26,
            PamReturnCode::AuthTok_Expired => 27,
            PamReturnCode::Module_Unknown => 28,
            PamReturnCode::Bad_Item => 29,
            PamReturnCode::Conv_Again => 30,
            PamReturnCode::Incomplete => 31,
        }
    }

    /// The symbolic value of a native integer; unknown integers give `System_Err`.
    pub open spec fn spec_from_code(value: i32) -> PamReturnCode {
        match value {
            0 => PamReturnCode::Success,
            1 => PamReturnCode::Open_Err,
            2 => PamReturnCode::Symbol_Err,
            3 => PamReturnCode::Service_Err,
            4 => PamReturnCode::System_Err,
            5 => PamReturnCode::Buf_Err,
            6 => PamReturnCode::Perm_Denied,
            7 => PamReturnCode::Auth_Err,
            8 => PamReturnCode::Cred_Insufficient,
            9 => PamReturnCode::Authinfo_Unavail,
            10 => PamReturnCode::User_Unknown,
            11 => PamReturnCode::MaxTries,
            12 => PamReturnCode::New_Authtok_Reqd,
            13 => PamReturnCode::Acct_Expired,
            14 => PamReturnCode::Session_Err,
            15 => PamReturnCode::Cred_Unavail,
            16 => PamReturnCode::Cred_Expired,
            17 => PamReturnCode::Cred_Err,
            18 => PamReturnCode::No_Module_Data,
            19 => PamReturnCode::Conv_Err,
            20 => PamReturnCode::AuthTok_Err,
            21 => PamReturnCode::AuthTok_Recovery_Err,
            22 => PamReturnCode::AuthTok_Lock_Busy,
            23 => PamReturnCode::AuthTok_Disable_Aging,
            24 => PamReturnCode::Try_Again,
            25 => PamReturnCode::Ignore,
            26 => PamReturnCode::Abort,
            27 => PamReturnCode::AuthTok_Expired,
            28 => PamReturnCode::Module_Unknown,
            29 => PamReturnCode::Bad_Item,
            30 => PamReturnCode::Conv_Again,
            31 => PamReturnCode::Incomplete,
            _ => PamReturnCode::System_Err,
        }
    }
}

impl From<i32> for PamReturnCode {
    /// Unknown integers map to `System_Err`.
    fn from(value: i32) -> PamReturnCode {
        match value {
            0 => PamReturnCode::Success,
            1 => PamReturnCode::Open_Err,
            2 => PamReturnCode::Symbol_Err,
            3 => PamReturnCode::Service_Err,
            4 => PamReturnCode::System_Err,
            5 => PamReturnCode::Buf_Err,
            6 => PamReturnCode::Perm_Denied,
            7 => PamReturnCode::Auth_Err,
            8 => PamReturnCode::Cred_Insufficient,
            9 => PamReturnCode::Authinfo_Unavail,
            10 => PamReturnCode::User_Unknown,
            11 => PamReturnCode::MaxTries,
            12 => PamReturnCode::New_Authtok_Reqd,
            13 => PamReturnCode::Acct_Expired,
            14 => PamReturnCode::Session_Err,
            15 => PamReturnCode::Cred_Unavail,
            16 => PamReturnCode::Cred_Expired,
            17 => PamReturnCode::Cred_Err,
            18 => PamReturnCode::No_Module_Data,
            19 => PamReturnCode::Conv_Err,
            20 => PamReturnCode::AuthTok_Err,
            21 => PamReturnCode::AuthTok_Recovery_Err,
            22 => PamReturnCode::AuthTok_Lock_Busy,
            23 => PamReturnCode::AuthTok_Disable_Aging,
            24 => PamReturnCode::Try_Again,
            25 => PamReturnCode::Ignore,
            26 => PamReturnCode::Abort,
            27 => PamReturnCode::AuthTok_Expired,
            28 => PamReturnCode::Module_Unknown,
            29 => PamReturnCode::Bad_Item,
            30 => PamReturnCode::Conv_Again,
            31 => PamReturnCode::Incomplete,
            _ => PamReturnCode::System_Err,
        }
    }
}

impl vstd::std_specs::convert::FromSpecImpl<i32> for PamReturnCode {
    open spec fn obeys_from_spec() -> bool {
        true
    }

    open spec fn from_spec(value: i32) -> PamReturnCode {
        PamReturnCode::spec_from_code(value)
    }
}

/// Flags of the credential-setting call.
#[derive(Clone, Copy, Debug, PartialEq, Eq, Structural)]
pub enum PamSetCredFlag {
    /// Set user credentials for an authentication service
    Establish_Cred,
    /// Delete user credentials associated with an authentication service
    Delete_Cred,
    /// Reinitialize user credentials
    Reinitialize_Cred,
    /// Extend the lifetime of user credentials
    Refresh_Cred,
}

impl PamSetCredFlag {
    /// The report text of the value, `name (code)`, such as `Perm_Denied (6)`.
    pub fn to_string(self) -> (r: String)
        ensures
            r@ == report(self.spec_name(), self.spec_code()),
    {
        report_text(self.name(), self.code())
    }

    /// The symbolic name of the value.
    pub open spec fn spec_name(self) -> Seq<char> {
        match self {
            PamSetCredFlag::Establish_Cred => "Establish_Cred"@,
            PamSetCredFlag::Delete_Cred => "Delete_Cred"@,
            PamSetCredFlag::Reinitialize_Cred => "Reinitialize_Cred"@,
            PamSetCredFlag::Refresh_Cred => "Refresh_Cred"@,
        }
    }

    /// The symbolic name of the value, for error reports.
    pub fn name(self) -> (r: &'static str)
        ensures
            r@ == self.spec_name(),
    {
        match self {
            PamSetCredFlag::Establish_Cred => "Establish_Cred",
            PamSetCredFlag::Delete_Cred => "Delete_Cred",
            PamSetCredFlag::Reinitialize_Cred => "Reinitialize_Cred",
            PamSetCredFlag::Refresh_Cred => "Refresh_Cred",
        }
    }

    pub open spec fn spec_code(self) -> i32 {
        match self {
            PamSetCredFlag::Establish_Cred => 2,
            PamSetCredFlag::Delete_Cred => 4,
            PamSetCredFlag::Reinitialize_Cred => 8,
            PamSetCredFlag::Refresh_Cred => 0x10,
        }
    }

    /// The value that stands for `self` in a native call.
    #[verifier::when_used_as_spec(spec_code)]
    pub fn code(self) -> (r: i32)
        ensures
            r == self.spec_code(),
    {
        match self {
            PamSetCredFlag::Establish_Cred => 2,
            PamSetCredFlag::Delete_Cred => 4,
            PamSetCredFlag::Reinitialize_Cred => 8,
            PamSetCredFlag::Refresh_Cred => 0x10,
        }
    }

    /// The symbolic value of a native integer; unknown integers give `Establish_Cred`.
    pub open spec fn spec_from_code(value: i32) -> PamSetCredFlag {
        match value {
            2 => PamSetCredFlag::Establish_Cred,
            4 => PamSetCredFlag::Delete_Cred,
            8 => PamSetCredFlag::Reinitialize_Cred,
            0x10 => PamSetCredFlag::Refresh_Cred,
            _ => PamSetCredFlag::Establish_Cred,
        }
    }
}

impl From<i32> for PamSetCredFlag {
    fn from(value: i32) -> PamSetCredFlag {
        match value {
            2 => PamSetCredFlag::Establish_Cred,
            4 => PamSetCredFlag::Delete_Cred,
            8 => PamSetCredFlag::Reinitialize_Cred,
            0x10 => PamSetCredFlag::Refresh_Cred,
            _ => PamSetCredFlag::Establish_Cred,
        }
    }
}

impl vstd::std_specs::convert::FromSpecImpl<i32> for PamSetCredFlag {
    open spec fn obeys_from_spec() -> bool {
        true
    }

    open spec fn from_spec(value: i32) -> PamSetCredFlag {
        PamSetCredFlag::spec_from_code(value)
    }
}

/// Flags of the authenticate call.
#[derive(Clone, Copy, Debug, PartialEq, Eq, Structural)]
pub enum PamAuthenticateFlag {
    /// Default value, if no specific flags should be passed
    NONE,
    /// Fail with `Auth_Err` if the user has a null authentication token
    Disallow_Null_AuthTok,
}

impl PamAuthenticateFlag {
    /// The report text of the value, `name (code)`, such as `Perm_Denied (6)`.
    pub fn to_string(self) -> (r: String)
        ensures
            r@ == report(self.spec_name(), self.spec_code()),
    {
        report_text(self.name(), self.code())
    }

    /// The symbolic name of the value.
    pub open spec fn spec_name(self) -> Seq<char> {
        match self {
            PamAuthenticateFlag::NONE => "NONE"@,
            PamAuthenticateFlag::Disallow_Null_AuthTok => "Disallow_Null_AuthTok"@,
        }
    }

    /// The symbolic name of the value, for error reports.
    pub fn name(self) -> (r: &'static str)
        ensures
            r@ == self.spec_name(),
    {
        match self {
            PamAuthenticateFlag::NONE => "NONE",
            PamAuthenticateFlag::Disallow_Null_AuthTok => "Disallow_Null_AuthTok",
        }
    }

    pub open spec fn spec_code(self) -> i32 {
        match self {
            PamAuthenticateFlag::NONE => 0,
            PamAuthenticateFlag::Disallow_Null_AuthTok => 1,
        }
    }

    /// The value that stands for `self` in a native call.
    #[verifier::when_used_as_spec(spec_code)]
    pub fn code(self) -> (r: i32)
        ensures
            r == self.spec_code(),
    {
        match self {
            PamAuthenticateFlag::NONE => 0,
            PamAuthenticateFlag::Disallow_Null_AuthTok => 1,
        }
    }

    /// The symbolic value of a native integer; unknown integers give `NONE`.
    pub open spec fn spec_from_code(value: i32) -> PamAuthenticateFlag {
        match value {
            0 => PamAuthenticateFlag::NONE,
            1 => PamAuthenticateFlag::Disallow_Null_AuthTok,
            _ => PamAuthenticateFlag::NONE,
        }
    }
}

impl From<i32> for PamAuthenticateFlag {
    fn from(value: i32) -> PamAuthenticateFlag {
        match value {
            0 => PamAuthenticateFlag::NONE,
            1 => PamAuthenticateFlag::Disallow_Null_AuthTok,
            _ => PamAuthenticateFlag::NONE,
        }
    }
}

impl vstd::std_specs::convert::FromSpecImpl<i32> for PamAuthenticateFlag {
    open spec fn obeys_from_spec() -> bool {
        true
    }

    open spec fn from_spec(value: i32) -> PamAuthenticateFlag {
        PamAuthenticateFlag::spec_from_code(value)
    }
}

/// Flags of the authentication-token change call.
#[derive(Clone, Copy, Debug, PartialEq, Eq, Structural)]
pub enum PamAuthTokFlag {
    /// Default value, if no specific flags should be passed
    NONE,
    /// The password service should only perform preliminary checks
    Prelim_Check,
    /// The password service should only update those passwords that have aged
    Change_Expired_AuthTok,
    /// The password service should update passwords
    Update_AuthTok,
}

impl PamAuthTokFlag {
    /// The report text of the value, `name (code)`, such as `Perm_Denied (6)`.
    pub fn to_string(self) -> (r: String)
        ensures
            r@ == report(self.spec_name(), self.spec_code()),
    {
        report_text(self.name(), self.code())
    }

    /// The symbolic name of the value.
    pub open spec fn spec_name(self) -> Seq<char> {
        match self {
            PamAuthTokFlag::NONE => "NONE"@,
            PamAuthTokFlag::Prelim_Check => "Prelim_Check"@,
            PamAuthTokFlag::Change_Expired_AuthTok => "Change_Expired_AuthTok"@,
            PamAuthTokFlag::Update_AuthTok => "Update_AuthTok"@,
        }
    }

    /// The symbolic name of the value, for error reports.
    pub fn name(self) -> (r: &'static str)
        ensures
            r@ == self.spec_name(),
    {
        match self {
            PamAuthTokFlag::NONE => "NONE",
            PamAuthTokFlag::Prelim_Check => "Prelim_Check",
            PamAuthTokFlag::Change_Expired_AuthTok => "Change_Expired_AuthTok",
            PamAuthTokFlag::Update_AuthTok => "Update_AuthTok",
        }
    }

    pub open spec fn spec_code(self) -> i32 {
        match self {
            PamAuthTokFlag::NONE => 0,
            PamAuthTokFlag::Prelim_Check => 0x4000,
            PamAuthTokFlag::Change_Expired_AuthTok => 0x20,
            PamAuthTokFlag::Update_AuthTok => 0x2000,
        }
    }

    /// The value that stands for `self` in a native call.
    #[verifier::when_used_as_spec(spec_code)]
    pub fn code(self) -> (r: i32)
        ensures
            r == self.spec_code(),
    {
        match self {
            PamAuthTokFlag::NONE => 0,
            PamAuthTokFlag::Prelim_Check => 0x4000,
            PamAuthTokFlag::Change_Expired_AuthTok => 0x20,
            PamAuthTokFlag::Update_AuthTok => 0x2000,
        }
    }

    /// The symbolic value of a native integer; unknown integers give `NONE`.
    pub open spec fn spec_from_code(value: i32) -> PamAuthTokFlag {
        match value {
            0 => PamAuthTokFlag::NONE,
            0x4000 => PamAuthTokFlag::Prelim_Check,
            0x20 => PamAuthTokFlag::Change_Expired_AuthTok,
            0x2000 => PamAuthTokFlag::Update_AuthTok,
            _ => PamAuthTokFlag::NONE,
        }
    }
}

impl From<i32> for PamAuthTokFlag {
    fn from(value: i32) -> PamAuthTokFlag {
        match value {
            0 => PamAuthTokFlag::NONE,
            0x4000 => PamAuthTokFlag::Prelim_Check,
            0x20 => PamAuthTokFlag::Change_Expired_AuthTok,
            0x2000 => PamAuthTokFlag::Update_AuthTok,
            _ => PamAuthTokFlag::NONE,
        }
    }
}

impl vstd::std_specs::convert::FromSpecImpl<i32> for PamAuthTokFlag {
    open spec fn obeys_from_spec() -> bool {
        true
    }

    open spec fn from_spec(value: i32) -> PamAuthTokFlag {
        PamAuthTokFlag::spec_from_code(value)
    }
}

/// The general flags.
#[derive(Clone, Copy, Debug, PartialEq, Eq, Structural)]
pub enum PamFlag {
    /// Default value, if no specific flags should be passed
    NONE,
    /// Authentication service should not generate any messages
    Silent,
}

impl PamFlag {
    /// The report text of the value, `name (code)`, such as `Perm_Denied (6)`.
    pub fn to_string(self) -> (r: String)
        ensures
            r@ == report(self.spec_name(), self.spec_code()),
    {
        report_text(self.name(), self.code())
    }

    /// The symbolic name of the value.
    pub open spec fn spec_name(self) -> Seq<char> {
        match self {
            PamFlag::NONE => "NONE"@,
            PamFlag::Silent => "Silent"@,
        }
    }

    /// The symbolic name of the value, for error reports.
    pub fn name(self) -> (r: &'static str)
        ensures
            r@ == self.spec_name(),
    {
        match self {
            PamFlag::NONE => "NONE",
            PamFlag::Silent => "Silent",
        }
    }

    pub open spec fn spec_code(self) -> i32 {
        match self {
            PamFlag::NONE => 0,
            PamFlag::Silent => 0x8000,
        }
    }

    /// The value that stands for `self` in a native call.
    #[verifier::when_used_as_spec(spec_code)]
    pub fn code(self) -> (r: i32)
        ensures
            r == self.spec_code(),
    {
        match self {
            PamFlag::NONE => 0,
            PamFlag::Silent => 0x8000,
        }
    }

    /// The symbolic value of a native integer; unknown integers give `NONE`.
    pub open spec fn spec_from_code(value: i32) -> PamFlag {
        match value {
            0 => PamFlag::NONE,
            0x8000 => PamFlag::Silent,
            _ => PamFlag::NONE,
        }
    }
}

impl From<i32> for PamFlag {
    fn from(value: i32) -> PamFlag {
        match value {
            0 => PamFlag::NONE,
            0x8000 => PamFlag::Silent,
            _ => PamFlag::NONE,
        }
    }
}

impl vstd::std_specs::convert::FromSpecImpl<i32> for PamFlag {
    open spec fn obeys_from_spec() -> bool {
        true
    }

    open spec fn from_spec(value: i32) -> PamFlag {
        PamFlag::spec_from_code(value)
    }
}

/// The item types of the item get / set calls.
#[derive(Clone, Copy, Debug, PartialEq, Eq, Structural)]
pub enum PamItemType {
    /// The service name
    Service,
    /// The user name
    User,
    /// The tty name
    TTY,
    /// The remote host name
    RHost,
    /// The conversation structure
    Conv,
    /// The authentication token (password)
    AuthTok,
    /// The old authentication token
    OldAuthTok,
    /// The remote user name
    RUser,
    /// The prompt for getting a username
    User_Prompt,
    /// Application supplied function to override failure delays
    Fail_Delay,
    /// X display name
    XDisplay,
    /// X server authentication data
    XAuthData,
    /// The type for pam_get_authtok
    AuthTok_Type,
}

impl PamItemType {
    /// The report text of the value, `name (code)`, such as `Perm_Denied (6)`.
    pub fn to_string(self) -> (r: String)
        ensures
            r@ == report(self.spec_name(), self.spec_code()),
    {
        report_text(self.name(), self.code())
    }

    /// The symbolic name of the value.
    pub open spec fn spec_name(self) -> Seq<char> {
        match self {
            PamItemType::Service => "Service"@,
            PamItemType::User => "User"@,
            PamItemType::TTY => "TTY"@,
            PamItemType::RHost => "RHost"@,
            PamItemType::Conv => "Conv"@,
            PamItemType::AuthTok => "AuthTok"@,
            PamItemType::OldAuthTok => "OldAuthTok"@,
            PamItemType::RUser => "RUser"@,
            PamItemType::User_Prompt => "User_Prompt"@,
            PamItemType::Fail_Delay => "Fail_Delay"@,
            PamItemType::XDisplay => "XDisplay"@,
            PamItemType::XAuthData => "XAuthData"@,
            PamItemType::AuthTok_Type => "AuthTok_Type"@,
        }
    }

    /// The symbolic name of the value, for error reports.
    pub fn name(self) -> (r: &'static str)
        ensures
            r@ == self.spec_name(),
    {
        match self {
            PamItemType::Service => "Service",
            PamItemType::User => "User",
            PamItemType::TTY => "TTY",
            PamItemType::RHost => "RHost",
            PamItemType::Conv => "Conv",
            PamItemType::AuthTok => "AuthTok",
            PamItemType::OldAuthTok => "OldAuthTok",
            PamItemType::RUser => "RUser",
            PamItemType::User_Prompt => "User_Prompt",
            PamItemType::Fail_Delay => "Fail_Delay",
            PamItemType::XDisplay => "XDisplay",
            PamItemType::XAuthData => "XAuthData",
            PamItemType::AuthTok_Type => "AuthTok_Type",
        }
    }

    pub open spec fn spec_code(self) -> i32 {
        match self {
            PamItemType::Service => 1,
            PamItemType::User => 2,
            PamItemType::TTY => 3,
            PamItemType::RHost => 4,
            PamItemType::Conv => 5,
            PamItemType::AuthTok => 6,
            PamItemType::OldAuthTok => 7,
            PamItemType::RUser => 8,
            PamItemType::User_Prompt => 9,
            PamItemType::Fail_Delay => 10,
            PamItemType::XDisplay => 11,
            PamItemType::XAuthData => 12,
            PamItemType::AuthTok_Type => 13,
        }
    }

    /// The value that stands for `self` in a native call.
    #[verifier::when_used_as_spec(spec_code)]
    pub fn code(self) -> (r: i32)
        ensures
            r == self.spec_code(),
    {
        match self {
            PamItemType::Service => 1,
            PamItemType::User => 2,
            PamItemType::TTY => 3,
            PamItemType::RHost => 4,
            PamItemType::Conv => 5,
            PamItemType::AuthTok => 6,
            PamItemType::OldAuthTok => 7,
            PamItemType::RUser => 8,
            PamItemType::User_Prompt => 9,
            PamItemType::Fail_Delay => 10,
            PamItemType::XDisplay => 11,
            PamItemType::XAuthData => 12,
            PamItemType::AuthTok_Type => 13,
        }
    }

    /// The symbolic value of a native integer; unknown integers give `Service`.
    pub open spec fn spec_from_code(value: i32) -> PamItemType {
        match value {
            1 => PamItemType::Service,
            2 => PamItemType::User,
            3 => PamItemType::TTY,
            4 => PamItemType::RHost,
            5 => PamItemType::Conv,
            6 => PamItemType::AuthTok,
            7 => PamItemType::OldAuthTok,
            8 => PamItemType::RUser,
            9 => PamItemType::User_Prompt,
            10 => PamItemType::Fail_Delay,
            11 => PamItemType::XDisplay,
            12 => PamItemType::XAuthData,
            13 => PamItemType::AuthTok_Type,
            _ => PamItemType::Service,
        }
    }
}

impl From<i32> for PamItemType {
    fn from(value: i32) -> PamItemType {
        match value {
            1 => PamItemType::Service,
            2 => PamItemType::User,
            3 => PamItemType::TTY,
            4 => PamItemType::RHost,
            5 => PamItemType::Conv,
            6 => PamItemType::AuthTok,
            7 => PamItemType::OldAuthTok,
            8 => PamItemType::RUser,
            9 => PamItemType::User_Prompt,
            10 => PamItemType::Fail_Delay,
            11 => PamItemType::XDisplay,
            12 => PamItemType::XAuthData,
            13 => PamItemType::AuthTok_Type,
            _ => PamItemType::Service,
        }
    }
}

impl vstd::std_specs::convert::FromSpecImpl<i32> for PamItemType {
    open spec fn obeys_from_spec() -> bool {
        true
    }

    open spec fn from_spec(value: i32) -> PamItemType {
        PamItemType::spec_from_code(value)
    }
}

/// The styles of the messages that the library sends to the conversation.
#[derive(Clone, Copy, Debug, PartialEq, Eq, Structural)]
pub enum PamMessageStyle {
    /// A prompt whose answer is echoed, typically the user name
    Prompt_Echo_On,
    /// A prompt whose answer is typed blindly, typically the password
    Prompt_Echo_Off,
    /// An error message
    Error_Msg,
    /// An informational message
    Text_Info,
}

impl PamMessageStyle {
    /// The style of a native integer, or `None` for an integer that is no
    /// known style.
    pub open spec fn spec_known(value: i32) -> Option<PamMessageStyle> {
        match value {
            2 => Some(PamMessageStyle::Prompt_Echo_On),
            1 => Some(PamMessageStyle::Prompt_Echo_Off),
            3 => Some(PamMessageStyle::Error_Msg),
            4 => Some(PamMessageStyle::Text_Info),
            _ => None,
        }
    }

    /// The style of a native integer, or `None` for an integer that is no
    /// known style (where `From` falls back to `Prompt_Echo_On`).
    pub fn from_known(value: i32) -> (r: Option<PamMessageStyle>)
        ensures
            r == PamMessageStyle::spec_known(value),
    {
        match value {
            2 => Some(PamMessageStyle::Prompt_Echo_On),
            1 => Some(PamMessageStyle::Prompt_Echo_Off),
            3 => Some(PamMessageStyle::Error_Msg),
            4 => Some(PamMessageStyle::Text_Info),
            _ => None,
        }
    }

    /// The report text of the value, `name (code)`, such as `Perm_Denied (6)`.
    pub fn to_string(self) -> (r: String)
        ensures
            r@ == report(self.spec_name(), self.spec_code()),
    {
        report_text(self.name(), self.code())
    }

    /// The symbolic name of the value.
    pub open spec fn spec_name(self) -> Seq<char> {
        match self {
            PamMessageStyle::Prompt_Echo_On => "Prompt_Echo_On"@,
            PamMessageStyle::Prompt_Echo_Off => "Prompt_Echo_Off"@,
            PamMessageStyle::Error_Msg => "Error_Msg"@,
            PamMessageStyle::Text_Info => "Text_Info"@,
        }
    }

    /// The symbolic name of the value, for error reports.
    pub fn name(self) -> (r: &'static str)
        ensures
            r@ == self.spec_name(),
    {
        match self {
            PamMessageStyle::Prompt_Echo_On => "Prompt_Echo_On",
            PamMessageStyle::Prompt_Echo_Off => "Prompt_Echo_Off",
            PamMessageStyle::Error_Msg => "Error_Msg",
            PamMessageStyle::Text_Info => "Text_Info",
        }
    }

    pub open spec fn spec_code(self) -> i32 {
        match self {
            PamMessageStyle::Prompt_Echo_On => 2,
            PamMessageStyle::Prompt_Echo_Off => 1,
            PamMessageStyle::Error_Msg => 3,
            PamMessageStyle::Text_Info => 4,
        }
    }

    /// The value that stands for `self` in a native call.
    #[verifier::when_used_as_spec(spec_code)]
    pub fn code(self) -> (r: i32)
        ensures
            r == self.spec_code(),
    {
        match self {
            PamMessageStyle::Prompt_Echo_On => 2,
            PamMessageStyle::Prompt_Echo_Off => 1,
            PamMessageStyle::Error_Msg => 3,
            PamMessageStyle::Text_Info => 4,
        }
    }

    /// The symbolic value of a native integer; unknown integers give `Prompt_Echo_On`.
    pub open spec fn spec_from_code(value: i32) -> PamMessageStyle {
        match value {
            2 => PamMessageStyle::Prompt_Echo_On,
            1 => PamMessageStyle::Prompt_Echo_Off,
            3 => PamMessageStyle::Error_Msg,
            4 => PamMessageStyle::Text_Info,
            _ => PamMessageStyle::Prompt_Echo_On,
        }
    }
}

impl From<i32> for PamMessageStyle {
    fn from(value: i32) -> PamMessageStyle {
        match value {
            2 => PamMessageStyle::Prompt_Echo_On,
            1 => PamMessageStyle::Prompt_Echo_Off,
            3 => PamMessageStyle::Error_Msg,
            4 => PamMessageStyle::Text_Info,
            _ => PamMessageStyle::Prompt_Echo_On,
        }
    }
}

impl vstd::std_specs::convert::FromSpecImpl<i32> for PamMessageStyle {
    open spec fn obeys_from_spec() -> bool {
        true
    }

    open spec fn from_spec(value: i32) -> PamMessageStyle {
        PamMessageStyle::spec_from_code(value)
    }
}

/// Converting a native integer of the known domain to its symbolic return code
/// and back gives the integer again.
pub proof fn lemma_return_code_round_trip(value: i32)
    requires
        0 <= value <= 31,
    ensures
        PamReturnCode::spec_from_code(value).spec_code() == value,
{
}

/// Every symbolic return code survives the trip through its native integer.
pub proof fn lemma_return_code_symbol_round_trip(code: PamReturnCode)
    ensures
        PamReturnCode::spec_from_code(code.spec_code()) == code,
{
}

/// An integer outside the known domain always maps to the same fallback,
/// `System_Err`.
pub proof fn lemma_return_code_fallback(value: i32)
    requires
        value < 0 || value > 31,
    ensures
        PamReturnCode::spec_from_code(value) == PamReturnCode::System_Err,
{
}

} // verus!
