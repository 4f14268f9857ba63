//! Safety-gated core of a disk wiper: device-path validation, the operator
//! confirmation protocol, the admission gate, command planning and dispatch.

pub mod text;
pub mod device;
pub mod confirm;
pub mod plan;
pub mod gate;
pub mod dispatch;

pub use confirm::{ConfirmationFailed, ConfirmationProtocol, ConfirmationState};
pub use device::{validate_device, InvalidDevice};
pub use dispatch::{outcome_line, DispatchFailure, DispatchOutcome, Dispatcher};
pub use gate::{
    admit_request, begin_admission, requested_mode, Admission, AdmissionError, AuthorizationToken,
    ExecutionMode, LiveAdmission, WipeRequest,
};
pub use plan::{parse_method, plan, CommandIntent, PlannedCommand, UnknownMethod, WipeMethod};
