use pam::{
    buffer_error, contains_nul, PamAuthTokFlag, PamAuthenticateFlag, PamError, PamFlag,
    PamItemType, PamMessageStyle, PamReturnCode, PamSetCredFlag,
};

#[test]
fn return_code_round_trip_over_known_domain() {
    for v in 0..=31 {
        assert_eq!(PamReturnCode::from(v).code(), v);
    }
}

#[test]
fn return_code_known_values() {
    assert_eq!(PamReturnCode::from(0), PamReturnCode::Success);
    assert_eq!(PamReturnCode::from(5), PamReturnCode::Buf_Err);
    assert_eq!(PamReturnCode::from(6), PamReturnCode::Perm_Denied);
    assert_eq!(PamReturnCode::from(19), PamReturnCode::Conv_Err);
    assert_eq!(PamReturnCode::Abort.code(), 26);
    assert_eq!(PamReturnCode::AuthTok_Expired.code(), 27);
    assert_eq!(PamReturnCode::Incomplete.code(), 31);
}

#[test]
fn return_code_unknown_integers_fall_back_to_system_error() {
    for v in [-1, 32, 100, i32::MIN, i32::MAX] {
        assert_eq!(PamReturnCode::from(v), PamReturnCode::System_Err);
        assert_eq!(PamReturnCode::from(v), PamReturnCode::from(v));
    }
    assert_eq!(PamReturnCode::from(-1).code(), 4);
}

#[test]
fn flag_values() {
    assert_eq!(PamSetCredFlag::Establish_Cred.code(), 0x2);
    assert_eq!(PamSetCredFlag::Delete_Cred.code(), 0x4);
    assert_eq!(PamSetCredFlag::Reinitialize_Cred.code(), 0x8);
    assert_eq!(PamSetCredFlag::Refresh_Cred.code(), 0x10);
    assert_eq!(PamSetCredFlag::from(0x8), PamSetCredFlag::Reinitialize_Cred);
    assert_eq!(PamSetCredFlag::from(3), PamSetCredFlag::Establish_Cred);
    assert_eq!(PamFlag::NONE.code(), 0);
    assert_eq!(PamFlag::Silent.code(), 0x8000);
    assert_eq!(PamFlag::from(0x8000), PamFlag::Silent);
    assert_eq!(PamFlag::from(7), PamFlag::NONE);
    assert_eq!(PamAuthenticateFlag::Disallow_Null_AuthTok.code(), 1);
    assert_eq!(PamAuthenticateFlag::from(9), PamAuthenticateFlag::NONE);
    assert_eq!(PamAuthTokFlag::Prelim_Check.code(), 0x4000);
    assert_eq!(PamAuthTokFlag::Update_AuthTok.code(), 0x2000);
    assert_eq!(PamAuthTokFlag::Change_Expired_AuthTok.code(), 0x20);
    assert_eq!(PamAuthTokFlag::from(0x2000), PamAuthTokFlag::Update_AuthTok);
}

#[test]
fn item_types_and_message_styles() {
    assert_eq!(PamItemType::from(2), PamItemType::User);
    assert_eq!(PamItemType::AuthTok_Type.code(), 13);
    assert_eq!(PamItemType::from(0), PamItemType::Service);
    assert_eq!(PamMessageStyle::from(1), PamMessageStyle::Prompt_Echo_Off);
    assert_eq!(PamMessageStyle::from(2), PamMessageStyle::Prompt_Echo_On);
    assert_eq!(PamMessageStyle::from(3), PamMessageStyle::Error_Msg);
    assert_eq!(PamMessageStyle::from(4), PamMessageStyle::Text_Info);
    assert_eq!(PamMessageStyle::from(99), PamMessageStyle::Prompt_Echo_On);
    assert_eq!(PamMessageStyle::Text_Info.code(), 4);
}

#[test]
fn errors_carry_their_code() {
    let e = PamError::from(PamReturnCode::Auth_Err);
    assert_eq!(e, PamError(PamReturnCode::Auth_Err));
    assert_eq!(e.code(), PamReturnCode::Auth_Err);
    assert_eq!(e.description(), "PAM returned an error code");
    let r: Result<u8, PamError> = buffer_error();
    assert_eq!(r, Err(PamError(PamReturnCode::Buf_Err)));
}

#[test]
fn nul_detection() {
    assert!(!contains_nul("system-auth"));
    assert!(!contains_nul(""));
    assert!(contains_nul("sys\0tem"));
    assert!(contains_nul("\0"));
    assert!(contains_nul("é\0"));
}

#[test]
fn symbolic_names() {
    assert_eq!(PamReturnCode::Perm_Denied.name(), "Perm_Denied");
    assert_eq!(PamReturnCode::from(19).name(), "Conv_Err");
    assert_eq!(PamFlag::NONE.name(), "NONE");
    assert_eq!(PamSetCredFlag::Delete_Cred.name(), "Delete_Cred");
    assert_eq!(PamMessageStyle::Text_Info.name(), "Text_Info");
    assert_eq!(PamItemType::TTY.name(), "TTY");
    assert_eq!(PamAuthTokFlag::Prelim_Check.name(), "Prelim_Check");
    assert_eq!(PamAuthenticateFlag::Disallow_Null_AuthTok.name(), "Disallow_Null_AuthTok");
}

#[test]
fn report_text_is_name_and_code() {
    assert_eq!(PamReturnCode::Perm_Denied.to_string(), "Perm_Denied (6)");
    assert_eq!(PamReturnCode::Success.to_string(), "Success (0)");
    assert_eq!(PamReturnCode::Incomplete.to_string(), "Incomplete (31)");
    assert_eq!(PamFlag::Silent.to_string(), "Silent (32768)");
    assert_eq!(PamSetCredFlag::Refresh_Cred.to_string(), "Refresh_Cred (16)");
    assert_eq!(PamItemType::AuthTok_Type.to_string(), "AuthTok_Type (13)");
    assert_eq!(PamError(PamReturnCode::Conv_Err).to_string(), "Conv_Err (19)");
}

#[test]
fn known_message_styles() {
    assert_eq!(PamMessageStyle::from_known(1), Some(PamMessageStyle::Prompt_Echo_Off));
    assert_eq!(PamMessageStyle::from_known(4), Some(PamMessageStyle::Text_Info));
    assert_eq!(PamMessageStyle::from_known(0), None);
    assert_eq!(PamMessageStyle::from_known(99), None);
}
