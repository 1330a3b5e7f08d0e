use hisi_rf_core::text::{append_decimal, append_hexadecimal};
use hisi_rf_core::{
    BackendError, BackendErrorClass, DiagnosticCode, DiagnosticStage, Error, RecoveryAction,
    DIAGNOSTIC_SCHEMA,
};

#[test]
fn unknown_backend_codes_remain_lossless_and_actionable() {
    let error = BackendError {
        class: BackendErrorClass::Other,
        code: 0xdeaf_0042,
    };
    let diagnostic = error.diagnostic();

    assert_eq!(diagnostic.code(), DiagnosticCode::BackendOther);
    assert_eq!(diagnostic.stage(), DiagnosticStage::Backend);
    assert_eq!(diagnostic.action(), RecoveryAction::InspectBackendCode);
    assert_eq!(diagnostic.backend_code(), Some(0xdeaf_0042));
}

#[test]
fn json_is_deterministic_and_contains_no_configuration_text() {
    let mut json = String::new();
    Error::Backend(BackendError {
        class: BackendErrorClass::Timeout,
        code: 7,
    })
    .diagnostic()
    .write_json(&mut json);

    assert_eq!(
        json,
        "{\"schema\":\"hisi-rf-error/v1\",\"code\":\"backend.timeout\",\"stage\":\"operation\",\"action\":\"retry_operation\",\"backend_code\":7,\"docs\":\"errors-backend-timeout\"}"
    );
    assert!(!json.contains("ssid"));
    assert!(!json.contains("passphrase"));
    assert!(!json.contains("secret"));
}

#[test]
fn local_errors_do_not_invent_backend_codes() {
    let diagnostic = Error::AlreadyInitialized.diagnostic();

    assert_eq!(diagnostic.backend_code(), None);
    assert_eq!(diagnostic.action(), RecoveryAction::UseExistingController);
    assert_eq!(diagnostic.docs_anchor(), "errors-radio-already-initialized");
}

#[test]
fn json_spells_a_missing_backend_code_as_null() {
    let mut json = String::from("> ");
    Error::Protocol.diagnostic().write_json(&mut json);
    assert_eq!(
        json,
        "> {\"schema\":\"hisi-rf-error/v1\",\"code\":\"radio.protocol\",\"stage\":\"control_plane\",\"action\":\"recreate_controller\",\"backend_code\":null,\"docs\":\"errors-radio-protocol\"}"
    );
    assert_eq!(Error::Protocol.diagnostic().schema(), DIAGNOSTIC_SCHEMA);
}

#[test]
fn text_line_carries_the_code_in_eight_hexadecimal_digits() {
    let error = BackendError::new(BackendErrorClass::Connect, 0x1f);
    assert_eq!(
        error.text(),
        "wifi.connection_failed at connect; next action: inspect_network_and_retry; backend code: 0x0000001f"
    );
    assert_eq!(Error::Backend(error).text(), error.text());
    assert_eq!(
        Error::AlreadyInitialized.text(),
        "radio.already_initialized at control_plane; next action: use_existing_controller"
    );
    assert_eq!(Error::Protocol.diagnostic().text(), Error::Protocol.text());
}

#[test]
fn every_backend_class_has_its_own_diagnostic() {
    let expected = [
        (
            BackendErrorClass::Initialize,
            "backend.initialize",
            "initialize",
            "reinitialize",
        ),
        (
            BackendErrorClass::Busy,
            "backend.busy",
            "operation",
            "wait_and_retry",
        ),
        (
            BackendErrorClass::Timeout,
            "backend.timeout",
            "operation",
            "retry_operation",
        ),
        (
            BackendErrorClass::UnsupportedSecurity,
            "wifi.unsupported_security",
            "connect",
            "select_supported_security",
        ),
        (
            BackendErrorClass::Connect,
            "wifi.connection_failed",
            "connect",
            "inspect_network_and_retry",
        ),
        (
            BackendErrorClass::Cancelled,
            "operation.cancelled",
            "operation",
            "retry_operation",
        ),
        (
            BackendErrorClass::Other,
            "backend.other",
            "backend",
            "inspect_backend_code",
        ),
    ];
    for (class, code, stage, action) in expected {
        let diagnostic = BackendError::new(class, 1).diagnostic();
        assert_eq!(diagnostic.code().as_str(), code);
        assert_eq!(diagnostic.stage().as_str(), stage);
        assert_eq!(diagnostic.action().as_str(), action);
        assert_eq!(diagnostic.backend_code(), Some(1));
        assert_eq!(
            diagnostic.docs_anchor(),
            format!("errors-{}", code.replace(['.', '_'], "-"))
        );
    }
}

#[test]
fn numbers_render_like_the_standard_formatter() {
    for number in [0, 1, 9, 10, 99, 100, 65_535, 1_000_000_007, u32::MAX] {
        let mut text = String::new();
        append_decimal(&mut text, number);
        assert_eq!(text, format!("{number}"));
        let mut text = String::from("0x");
        append_hexadecimal(&mut text, number, 8);
        assert_eq!(text, format!("0x{number:08x}"));
    }
}
