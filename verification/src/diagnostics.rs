//! Secret-free diagnostics for the public radio facade.

use vstd::prelude::*;

use crate::text::{append_decimal, append_hexadecimal};
use crate::wifi::{BackendError, BackendErrorClass};
use crate::Error;

verus! {

/// Versioned machine-readable diagnostic schema.
pub const DIAGNOSTIC_SCHEMA: &'static str = "hisi-rf-error/v1";

/// Stable identity for a public RF failure.
#[derive(Clone, Copy, Debug, PartialEq, Eq, Structural)]
pub enum DiagnosticCode {
    /// The caller tried to claim an already-owned radio state.
    AlreadyInitialized,
    /// A backend initialization step failed.
    BackendInitialize,
    /// Another operation currently owns the backend.
    BackendBusy,
    /// A bounded backend operation timed out.
    BackendTimeout,
    /// The selected security mode is unsupported by this build or target.
    UnsupportedSecurity,
    /// Association or authorization failed.
    ConnectionFailed,
    /// The operation was cancelled before it completed.
    OperationCancelled,
    /// A backend-specific failure has no more specific stable classification.
    BackendOther,
    /// The runner observed an invalid command/completion sequence.
    Protocol,
}

impl DiagnosticCode {
    /// The stable name.
    pub open spec fn name(self) -> Seq<char> {
        match self {
            DiagnosticCode::AlreadyInitialized => "radio.already_initialized"@,
            DiagnosticCode::BackendInitialize => "backend.initialize"@,
            DiagnosticCode::BackendBusy => "backend.busy"@,
            DiagnosticCode::BackendTimeout => "backend.timeout"@,
            DiagnosticCode::UnsupportedSecurity => "wifi.unsupported_security"@,
            DiagnosticCode::ConnectionFailed => "wifi.connection_failed"@,
            DiagnosticCode::OperationCancelled => "operation.cancelled"@,
            DiagnosticCode::BackendOther => "backend.other"@,
            DiagnosticCode::Protocol => "radio.protocol"@,
        }
    }

    /// Stable identifier used by JSON output, logs, and support tooling.
    pub fn as_str(self) -> (name: &'static str)
        ensures
            name@ == self.name(),
    {
        match self {
            DiagnosticCode::AlreadyInitialized => "radio.already_initialized",
            DiagnosticCode::BackendInitialize => "backend.initialize",
            DiagnosticCode::BackendBusy => "backend.busy",
            DiagnosticCode::BackendTimeout => "backend.timeout",
            DiagnosticCode::UnsupportedSecurity => "wifi.unsupported_security",
            DiagnosticCode::ConnectionFailed => "wifi.connection_failed",
            DiagnosticCode::OperationCancelled => "operation.cancelled",
            DiagnosticCode::BackendOther => "backend.other",
            DiagnosticCode::Protocol => "radio.protocol",
        }
    }
}

/// Stable stage at which a public RF failure was reported.
#[derive(Clone, Copy, Debug, PartialEq, Eq, Structural)]
pub enum DiagnosticStage {
    /// Radio/backend construction and initialization.
    Initialize,
    /// Radio ownership or runner command/completion handling.
    ControlPlane,
    /// Wi-Fi association or authorization.
    Connect,
    /// A bounded backend operation whose protocol-specific stage is unknown.
    Operation,
    /// A backend-specific stage that is not represented by the schema.
    Backend,
}

impl DiagnosticStage {
    /// The stable name.
    pub open spec fn name(self) -> Seq<char> {
        match self {
            DiagnosticStage::Initialize => "initialize"@,
            DiagnosticStage::ControlPlane => "control_plane"@,
            DiagnosticStage::Connect => "connect"@,
            DiagnosticStage::Operation => "operation"@,
            DiagnosticStage::Backend => "backend"@,
        }
    }

    /// Stable machine-readable stage name.
    pub fn as_str(self) -> (name: &'static str)
        ensures
            name@ == self.name(),
    {
        match self {
            DiagnosticStage::Initialize => "initialize",
            DiagnosticStage::ControlPlane => "control_plane",
            DiagnosticStage::Connect => "connect",
            DiagnosticStage::Operation => "operation",
            DiagnosticStage::Backend => "backend",
        }
    }
}

/// Action a caller or operator can take after a failure.
#[derive(Clone, Copy, Debug, PartialEq, Eq, Structural)]
pub enum RecoveryAction {
    /// Keep using the controller that already owns the supplied state.
    UseExistingController,
    /// Recreate the radio controller and reinitialize the backend.
    Reinitialize,
    /// Wait for the current operation to finish before retrying.
    WaitAndRetry,
    /// Retry the bounded operation; repeated failures require deeper inspection.
    RetryOperation,
    /// Select a security profile supported by the target and build.
    SelectSupportedSecurity,
    /// Inspect network status and the lossless backend code before retrying.
    InspectNetworkAndRetry,
    /// Preserve and report the backend code with target/profile information.
    InspectBackendCode,
    /// Recreate the controller and report a repeated protocol failure.
    RecreateController,
}

impl RecoveryAction {
    /// The stable name.
    pub open spec fn name(self) -> Seq<char> {
        match self {
            RecoveryAction::UseExistingController => "use_existing_controller"@,
            RecoveryAction::Reinitialize => "reinitialize"@,
            RecoveryAction::WaitAndRetry => "wait_and_retry"@,
            RecoveryAction::RetryOperation => "retry_operation"@,
            RecoveryAction::SelectSupportedSecurity => "select_supported_security"@,
            RecoveryAction::InspectNetworkAndRetry => "inspect_network_and_retry"@,
            RecoveryAction::InspectBackendCode => "inspect_backend_code"@,
            RecoveryAction::RecreateController => "recreate_controller"@,
        }
    }

    /// Stable machine-readable action name.
    pub fn as_str(self) -> (name: &'static str)
        ensures
            name@ == self.name(),
    {
        match self {
            RecoveryAction::UseExistingController => "use_existing_controller",
            RecoveryAction::Reinitialize => "reinitialize",
            RecoveryAction::WaitAndRetry => "wait_and_retry",
            RecoveryAction::RetryOperation => "retry_operation",
            RecoveryAction::SelectSupportedSecurity => "select_supported_security",
            RecoveryAction::InspectNetworkAndRetry => "inspect_network_and_retry",
            RecoveryAction::InspectBackendCode => "inspect_backend_code",
            RecoveryAction::RecreateController => "recreate_controller",
        }
    }
}

/// What a diagnostic says.
pub struct DiagnosticModel {
    /// Stable error identity.
    pub code: DiagnosticCode,
    /// Stable operation stage.
    pub stage: DiagnosticStage,
    /// Recommended next action.
    pub action: RecoveryAction,
    /// Chip-specific code of a backend failure.
    pub backend_code: Option<u32>,
}

/// Documentation fragment of a failure.
pub open spec fn docs_anchor_of(code: DiagnosticCode) -> Seq<char> {
    match code {
        DiagnosticCode::AlreadyInitialized => "errors-radio-already-initialized"@,
        DiagnosticCode::BackendInitialize => "errors-backend-initialize"@,
        DiagnosticCode::BackendBusy => "errors-backend-busy"@,
        DiagnosticCode::BackendTimeout => "errors-backend-timeout"@,
        DiagnosticCode::UnsupportedSecurity => "errors-wifi-unsupported-security"@,
        DiagnosticCode::ConnectionFailed => "errors-wifi-connection-failed"@,
        DiagnosticCode::OperationCancelled => "errors-operation-cancelled"@,
        DiagnosticCode::BackendOther => "errors-backend-other"@,
        DiagnosticCode::Protocol => "errors-radio-protocol"@,
    }
}

/// A character of a failure's name as its documentation fragment spells it.
pub open spec fn anchored(character: char) -> char {
    if character == '.' || character == '_' {
        '-'
    } else {
        character
    }
}

/// The documentation fragment follows from the stable name: the prefix
/// `errors-`, then the name with dots and underscores as hyphens.
pub proof fn docs_anchor_follows_the_name(code: DiagnosticCode)
    ensures
        docs_anchor_of(code) == "errors-"@ + code.name().map_values(
            |character: char| anchored(character),
        ),
{
    reveal_strlit("errors-");
    reveal_strlit("radio.already_initialized");
    reveal_strlit("errors-radio-already-initialized");
    reveal_strlit("backend.initialize");
    reveal_strlit("errors-backend-initialize");
    reveal_strlit("backend.busy");
    reveal_strlit("errors-backend-busy");
    reveal_strlit("backend.timeout");
    reveal_strlit("errors-backend-timeout");
    reveal_strlit("wifi.unsupported_security");
    reveal_strlit("errors-wifi-unsupported-security");
    reveal_strlit("wifi.connection_failed");
    reveal_strlit("errors-wifi-connection-failed");
    reveal_strlit("operation.cancelled");
    reveal_strlit("errors-operation-cancelled");
    reveal_strlit("backend.other");
    reveal_strlit("errors-backend-other");
    reveal_strlit("radio.protocol");
    reveal_strlit("errors-radio-protocol");
    assert(docs_anchor_of(code) =~= "errors-"@ + code.name().map_values(
        |character: char| anchored(character),
    ));
}

impl DiagnosticModel {
    /// The JSON form.
    pub open spec fn json(self) -> Seq<char> {
        "{\"schema\":\""@ + DIAGNOSTIC_SCHEMA@ + "\",\"code\":\""@ + self.code.name()
            + "\",\"stage\":\""@ + self.stage.name() + "\",\"action\":\""@ + self.action.name()
            + "\",\"backend_code\":"@ + (match self.backend_code {
            Some(code) => crate::text::decimal(code as nat),
            None => "null"@,
        }) + ",\"docs\":\""@ + docs_anchor_of(self.code) + "\"}"@
    }

    /// The one-line form.
    pub open spec fn line(self) -> Seq<char> {
        self.code.name() + " at "@ + self.stage.name() + "; next action: "@ + self.action.name() + (
        match self.backend_code {
            Some(code) => "; backend code: 0x"@ + crate::text::hexadecimal(code as nat, 8),
            None => Seq::empty(),
        })
    }
}

/// Diagnostic view of a public RF [`Error`].
///
/// The view intentionally contains no SSID, passphrase, key material, or
/// arbitrary backend text. Unknown chip failures retain their numeric code so
/// support tooling can identify them without losing information.
#[derive(Clone, Copy, Debug, PartialEq, Eq)]
pub struct Diagnostic {
    code: DiagnosticCode,
    stage: DiagnosticStage,
    action: RecoveryAction,
    backend_code: Option<u32>,
}

impl Diagnostic {
    /// What the diagnostic says.
    pub closed spec fn view(&self) -> DiagnosticModel {
        DiagnosticModel {
            code: self.code,
            stage: self.stage,
            action: self.action,
            backend_code: self.backend_code,
        }
    }

    /// Schema used by [`Self::write_json`].
    pub fn schema(self) -> (schema: &'static str)
        ensures
            schema@ == DIAGNOSTIC_SCHEMA@,
    {
        DIAGNOSTIC_SCHEMA
    }

    /// Stable error identity.
    pub fn code(self) -> (code: DiagnosticCode)
        ensures
            code == self@.code,
    {
        self.code
    }

    /// Stable operation stage.
    pub fn stage(self) -> (stage: DiagnosticStage)
        ensures
            stage == self@.stage,
    {
        self.stage
    }

    /// Recommended next action.
    pub fn action(self) -> (action: RecoveryAction)
        ensures
            action == self@.action,
    {
        self.action
    }

    /// Lossless chip/backend-specific code, when the failure came from a backend.
    pub fn backend_code(self) -> (backend_code: Option<u32>)
        ensures
            backend_code == self@.backend_code,
    {
        self.backend_code
    }

    /// Stable documentation fragment for this diagnostic.
    pub fn docs_anchor(self) -> (anchor: &'static str)
        ensures
            anchor@ == docs_anchor_of(self@.code),
    {
        match self.code {
            DiagnosticCode::AlreadyInitialized => "errors-radio-already-initialized",
            DiagnosticCode::BackendInitialize => "errors-backend-initialize",
            DiagnosticCode::BackendBusy => "errors-backend-busy",
            DiagnosticCode::BackendTimeout => "errors-backend-timeout",
            DiagnosticCode::UnsupportedSecurity => "errors-wifi-unsupported-security",
            DiagnosticCode::ConnectionFailed => "errors-wifi-connection-failed",
            DiagnosticCode::OperationCancelled => "errors-operation-cancelled",
            DiagnosticCode::BackendOther => "errors-backend-other",
            DiagnosticCode::Protocol => "errors-radio-protocol",
        }
    }

    /// Append one deterministic JSON object.
    pub fn write_json(self, output: &mut String)
        ensures
            final(output)@ == old(output)@ + self@.json(),
    {
        output.append("{\"schema\":\"");
        output.append(self.schema());
        output.append("\",\"code\":\"");
        output.append(self.code.as_str());
        output.append("\",\"stage\":\"");
        output.append(self.stage.as_str());
        output.append("\",\"action\":\"");
        output.append(self.action.as_str());
        output.append("\",\"backend_code\":");
        match self.backend_code {
            Some(code) => append_decimal(output, code),
            None => output.append("null"),
        }
        output.append(",\"docs\":\"");
        output.append(self.docs_anchor());
        output.append("\"}");
        assert(output@ =~= old(output)@ + self@.json());
    }

    /// One line for logs and operators.
    pub fn text(self) -> (line: String)
        ensures
            line@ == self@.line(),
    {
        let mut line = String::new();
        line.append(self.code.as_str());
        line.append(" at ");
        line.append(self.stage.as_str());
        line.append("; next action: ");
        line.append(self.action.as_str());
        if let Some(code) = self.backend_code {
            line.append("; backend code: 0x");
            append_hexadecimal(&mut line, code, 8);
        }
        assert(line@ =~= self@.line());
        line
    }
}

/// The diagnostic of an error.
pub open spec fn diagnosis(error: Error) -> DiagnosticModel {
    match error {
        Error::AlreadyInitialized => DiagnosticModel {
            code: DiagnosticCode::AlreadyInitialized,
            stage: DiagnosticStage::ControlPlane,
            action: RecoveryAction::UseExistingController,
            backend_code: None,
        },
        Error::Backend(inner) => backend_diagnosis(inner),
        Error::Protocol => DiagnosticModel {
            code: DiagnosticCode::Protocol,
            stage: DiagnosticStage::ControlPlane,
            action: RecoveryAction::RecreateController,
            backend_code: None,
        },
    }
}

/// The diagnostic of a backend error.
pub open spec fn backend_diagnosis(error: BackendError) -> DiagnosticModel {
    let (code, stage, action) = match error.class {
        BackendErrorClass::Initialize => (
            DiagnosticCode::BackendInitialize,
            DiagnosticStage::Initialize,
            RecoveryAction::Reinitialize,
        ),
        BackendErrorClass::Busy => (
            DiagnosticCode::BackendBusy,
            DiagnosticStage::Operation,
            RecoveryAction::WaitAndRetry,
        ),
        BackendErrorClass::Timeout => (
            DiagnosticCode::BackendTimeout,
            DiagnosticStage::Operation,
            RecoveryAction::RetryOperation,
        ),
        BackendErrorClass::UnsupportedSecurity => (
            DiagnosticCode::UnsupportedSecurity,
            DiagnosticStage::Connect,
            RecoveryAction::SelectSupportedSecurity,
        ),
        BackendErrorClass::Connect => (
            DiagnosticCode::ConnectionFailed,
            DiagnosticStage::Connect,
            RecoveryAction::InspectNetworkAndRetry,
        ),
        BackendErrorClass::Cancelled => (
            DiagnosticCode::OperationCancelled,
            DiagnosticStage::Operation,
            RecoveryAction::RetryOperation,
        ),
        BackendErrorClass::Other => (
            DiagnosticCode::BackendOther,
            DiagnosticStage::Backend,
            RecoveryAction::InspectBackendCode,
        ),
    };
    DiagnosticModel { code, stage, action, backend_code: Some(error.code) }
}

impl Error {
    /// Convert this error into the stable diagnostic schema.
    pub fn diagnostic(self) -> (diagnostic: Diagnostic)
        ensures
            diagnostic@ == diagnosis(self),
    {
        match self {
            Error::AlreadyInitialized => Diagnostic {
                code: DiagnosticCode::AlreadyInitialized,
                stage: DiagnosticStage::ControlPlane,
                action: RecoveryAction::UseExistingController,
                backend_code: None,
            },
            Error::Backend(error) => error.diagnostic(),
            Error::Protocol => Diagnostic {
                code: DiagnosticCode::Protocol,
                stage: DiagnosticStage::ControlPlane,
                action: RecoveryAction::RecreateController,
                backend_code: None,
            },
        }
    }

    /// One line for logs and operators.
    pub fn text(self) -> (line: String)
        ensures
            line@ == diagnosis(self).line(),
    {
        self.diagnostic().text()
    }
}

impl BackendError {
    /// Convert this backend error into the stable diagnostic schema.
    pub fn diagnostic(self) -> (diagnostic: Diagnostic)
        ensures
            diagnostic@ == backend_diagnosis(self),
    {
        let (code, stage, action) = match self.class {
            BackendErrorClass::Initialize => (
                DiagnosticCode::BackendInitialize,
                DiagnosticStage::Initialize,
                RecoveryAction::Reinitialize,
            ),
            BackendErrorClass::Busy => (
                DiagnosticCode::BackendBusy,
                DiagnosticStage::Operation,
                RecoveryAction::WaitAndRetry,
            ),
            BackendErrorClass::Timeout => (
                DiagnosticCode::BackendTimeout,
                DiagnosticStage::Operation,
                RecoveryAction::RetryOperation,
            ),
            BackendErrorClass::UnsupportedSecurity => (
                DiagnosticCode::UnsupportedSecurity,
                DiagnosticStage::Connect,
                RecoveryAction::SelectSupportedSecurity,
            ),
            BackendErrorClass::Connect => (
                DiagnosticCode::ConnectionFailed,
                DiagnosticStage::Connect,
                RecoveryAction::InspectNetworkAndRetry,
            ),
            BackendErrorClass::Cancelled => (
                DiagnosticCode::OperationCancelled,
                DiagnosticStage::Operation,
                RecoveryAction::RetryOperation,
            ),
            BackendErrorClass::Other => (
                DiagnosticCode::BackendOther,
                DiagnosticStage::Backend,
                RecoveryAction::InspectBackendCode,
            ),
        };
        Diagnostic { code, stage, action, backend_code: Some(self.code) }
    }

    /// One line for logs and operators.
    pub fn text(self) -> (line: String)
        ensures
            line@ == backend_diagnosis(self).line(),
    {
        self.diagnostic().text()
    }
}

/// A backend failure keeps its class and its chip code: backend errors with
/// the same diagnostic are the same error.
pub proof fn backend_diagnosis_is_lossless(a: BackendError, b: BackendError)
    requires
        backend_diagnosis(a) == backend_diagnosis(b),
    ensures
        a == b,
{
}

/// Only backend failures carry a chip code: a local failure does not invent
/// one.
pub proof fn local_errors_have_no_backend_code(error: Error)
    ensures
        diagnosis(error).backend_code is Some <==> error is Backend,
{
}

/// What a failure advises fits what failed: each class of backend failure has its own
/// code, stage, and action, a backend failure keeps its chip code, and a local one
/// has none.
pub proof fn diagnosis_fits_the_failure(error: Error)
    ensures
        ({
            let said = diagnosis(error);
            match error {
                Error::AlreadyInitialized => {
                    &&& said.code is AlreadyInitialized
                    &&& said.stage is ControlPlane
                    &&& said.action is UseExistingController
                    &&& said.backend_code is None
                },
                Error::Protocol => {
                    &&& said.code is Protocol
                    &&& said.stage is ControlPlane
                    &&& said.action is RecreateController
                    &&& said.backend_code is None
                },
                Error::Backend(inner) => {
                    &&& said == backend_diagnosis(inner)
                    &&& said.backend_code == Some(inner.code)
                    &&& match inner.class {
                        BackendErrorClass::Initialize => said.code is BackendInitialize
                            && said.stage is Initialize && said.action is Reinitialize,
                        BackendErrorClass::Busy => said.code is BackendBusy
                            && said.stage is Operation && said.action is WaitAndRetry,
                        BackendErrorClass::Timeout => said.code is BackendTimeout
                            && said.stage is Operation && said.action is RetryOperation,
                        BackendErrorClass::UnsupportedSecurity => said.code is UnsupportedSecurity
                            && said.stage is Connect && said.action is SelectSupportedSecurity,
                        BackendErrorClass::Connect => said.code is ConnectionFailed
                            && said.stage is Connect && said.action is InspectNetworkAndRetry,
                        BackendErrorClass::Cancelled => said.code is OperationCancelled
                            && said.stage is Operation && said.action is RetryOperation,
                        BackendErrorClass::Other => said.code is BackendOther
                            && said.stage is Backend && said.action is InspectBackendCode,
                    }
                },
            }
        }),
{
}

/// The stable names are identities: different codes, stages, and actions have
/// different names.
pub proof fn stable_names_differ(
    code: DiagnosticCode,
    other_code: DiagnosticCode,
    stage: DiagnosticStage,
    other_stage: DiagnosticStage,
    action: RecoveryAction,
    other_action: RecoveryAction,
)
    ensures
        code.name() == other_code.name() ==> code == other_code,
        stage.name() == other_stage.name() ==> stage == other_stage,
        action.name() == other_action.name() ==> action == other_action,
{
    reveal_strlit("radio.already_initialized");
    reveal_strlit("backend.initialize");
    reveal_strlit("backend.busy");
    reveal_strlit("backend.timeout");
    reveal_strlit("wifi.unsupported_security");
    reveal_strlit("wifi.connection_failed");
    reveal_strlit("operation.cancelled");
    reveal_strlit("backend.other");
    reveal_strlit("radio.protocol");
    reveal_strlit("initialize");
    reveal_strlit("control_plane");
    reveal_strlit("connect");
    reveal_strlit("operation");
    reveal_strlit("backend");
    reveal_strlit("use_existing_controller");
    reveal_strlit("reinitialize");
    reveal_strlit("wait_and_retry");
    reveal_strlit("retry_operation");
    reveal_strlit("select_supported_security");
    reveal_strlit("inspect_network_and_retry");
    reveal_strlit("inspect_backend_code");
    reveal_strlit("recreate_controller");
    if code.name() =~= other_code.name() {
        assert(code.name().len() == other_code.name().len());
        assert(code.name()[0] == other_code.name()[0]);
    }
    if stage.name() =~= other_stage.name() {
        assert(stage.name().len() == other_stage.name().len());
        assert(stage.name()[0] == other_stage.name()[0]);
    }
    if action.name() =~= other_action.name() {
        assert(action.name().len() == other_action.name().len());
        assert(action.name()[0] == other_action.name()[0]);
    }
}

/// A log line names the code first and then the stage, and ends with the action or,
/// for a backend failure, with its chip code in eight hexadecimal digits.
pub proof fn line_names_code_stage_and_action(said: DiagnosticModel)
    ensures
        (said.code.name() + " at "@ + said.stage.name()).is_prefix_of(said.line()),
        said.backend_code is None ==> (said.code.name() + " at "@ + said.stage.name()
            + "; next action: "@ + said.action.name()) == said.line(),
        said.backend_code matches Some(code) ==> {
            &&& (said.code.name() + " at "@ + said.stage.name() + "; next action: "@
                + said.action.name() + "; backend code: 0x"@).is_prefix_of(said.line())
            &&& crate::text::hexadecimal(code as nat, 8).is_suffix_of(said.line())
        },
{
    let head = said.code.name() + " at "@ + said.stage.name();
    let body = head + "; next action: "@ + said.action.name();
    assert(said.line().take(head.len() as int) =~= head);
    match said.backend_code {
        None => {
            assert(said.line() =~= body);
        },
        Some(code) => {
            let told = body + "; backend code: 0x"@;
            let digits = crate::text::hexadecimal(code as nat, 8);
            assert(said.line() =~= told + digits);
            assert(said.line().take(told.len() as int) =~= told);
        },
    }
}

/// The JSON form is one object of six members in a fixed order, whose values are the
/// schema, the stable names, the chip code or null, and the documentation fragment.
pub proof fn json_holds_its_members_in_order(said: DiagnosticModel)
    ensures
        ({
            let head = "{\"schema\":\""@ + DIAGNOSTIC_SCHEMA@ + "\",\"code\":\""@
                + said.code.name();
            let stage = "\",\"stage\":\""@ + said.stage.name();
            let action = "\",\"action\":\""@ + said.action.name();
            let chip = "\",\"backend_code\":"@ + (if said.backend_code is Some {
                crate::text::decimal(said.backend_code->Some_0 as nat)
            } else {
                "null"@
            });
            let docs = ",\"docs\":\""@ + docs_anchor_of(said.code) + "\"}"@;
            &&& head.is_prefix_of(said.json())
            &&& docs.is_suffix_of(said.json())
            &&& said.json() == head + stage + action + chip + docs
        }),
{
    let head = "{\"schema\":\""@ + DIAGNOSTIC_SCHEMA@ + "\",\"code\":\""@ + said.code.name();
    let stage = "\",\"stage\":\""@ + said.stage.name();
    let action = "\",\"action\":\""@ + said.action.name();
    let chip = "\",\"backend_code\":"@ + (if said.backend_code is Some {
        crate::text::decimal(said.backend_code->Some_0 as nat)
    } else {
        "null"@
    });
    let docs = ",\"docs\":\""@ + docs_anchor_of(said.code) + "\"}"@;
    assert(said.json() =~= head + stage + action + chip + docs);
    assert(said.json().take(head.len() as int) =~= head);
}

} // verus!
