//! The admission gate: the single place that decides whether a wipe request
//! runs as a dry run, runs live, or is refused.

use vstd::prelude::*;
use crate::confirm::{
    is_terminal, next_state, ConfirmationFailed, ConfirmationProtocol, ConfirmationState,
};
use crate::device::{is_device_path, validate_device};
use crate::plan::WipeMethod;
use crate::text::same_text;

verus! {

/// Whether planned commands are only recorded or really issued.
#[derive(Debug, Clone, Copy, PartialEq, Eq, Structural)]
pub enum ExecutionMode {
    Dry,
    Live,
}

/// The mode asked for by the two switches: a dry run unless execution is
/// asked for, and a dry run whenever it is asked for explicitly.
pub fn requested_mode(dry_run: bool, execute: bool) -> (r: ExecutionMode)
    ensures
        r == (if execute && !dry_run {
            ExecutionMode::Live
        } else {
            ExecutionMode::Dry
        }),
{
    if execute && !dry_run {
        ExecutionMode::Live
    } else {
        ExecutionMode::Dry
    }
}

/// One wipe request; `passes` counts the random passes of `dd` and is at
/// least 1.
#[derive(Debug)]
pub struct WipeRequest {
    pub device: String,
    pub method: WipeMethod,
    pub passes: u8,
    pub mode: ExecutionMode,
}

/// Whether the environment explicitly permits destructive execution. It is
/// read afresh for every request.
#[derive(Debug, Clone, Copy)]
pub struct AuthorizationToken {
    granted: bool,
}

/// The setting value that grants destructive execution.
pub open spec fn grants(value: Option<Seq<char>>) -> bool {
    value == Some("1"@)
}

impl AuthorizationToken {
    pub closed spec fn is_granted(&self) -> bool {
        self.granted
    }

    /// The token for a setting value: granted only by exactly `1`; anything
    /// else, absence included, is a refusal.
    pub fn from_value(value: Option<&str>) -> (r: AuthorizationToken)
        ensures
            r.is_granted() == grants(match value {
                Some(v) => Some(v@),
                None => None,
            }),
    {
        let granted = match value {
            Some(v) => same_text(v, "1"),
            None => false,
        };
        AuthorizationToken { granted }
    }

    pub fn granted(&self) -> (r: bool)
        ensures
            r == self.is_granted(),
    {
        self.granted
    }
}

/// Why a request was not admitted.
#[derive(Debug, Clone, Copy, PartialEq, Eq, Structural)]
pub enum AdmissionError {
    /// The device path has no recognized shape.
    InvalidDevice,
    /// Live execution was asked for without authorization.
    NotAuthorized,
    /// The operator did not complete the confirmation.
    ConfirmationAborted(ConfirmationFailed),
}

/// A live request that passed validation and authorization and now waits
/// for the operator's confirmation. Only `begin_admission` returns one.
pub struct LiveAdmission {
    protocol: ConfirmationProtocol,
}

impl LiveAdmission {
    pub closed spec fn protocol_view(&self) -> ConfirmationProtocol {
        self.protocol
    }

    pub fn protocol(&self) -> (r: &ConfirmationProtocol)
        ensures
            *r == self.protocol_view(),
    {
        &self.protocol
    }

    pub fn respond(&mut self, line: &str)
        ensures
            final(self).protocol_view()@ == next_state(
                old(self).protocol_view()@,
                old(self).protocol_view().target(),
                line@,
            ),
            final(self).protocol_view().target() == old(self).protocol_view().target(),
    {
        self.protocol.respond(line);
    }

    /// The decision once the confirmation is finished: live on full
    /// confirmation, else the reason it was aborted.
    pub fn conclude(&self) -> (r: Result<ExecutionMode, AdmissionError>)
        requires
            is_terminal(self.protocol_view()@),
        ensures
            r == decision_of(self.protocol_view()@),
    {
        match self.protocol.state() {
            ConfirmationState::Aborted(f) => Err(AdmissionError::ConfirmationAborted(f)),
            _ => Ok(ExecutionMode::Live),
        }
    }
}

pub open spec fn decision_of(s: ConfirmationState) -> Result<ExecutionMode, AdmissionError> {
    match s {
        ConfirmationState::Aborted(f) => Err(AdmissionError::ConfirmationAborted(f)),
        _ => Ok(ExecutionMode::Live),
    }
}

/// First step of admission.
pub enum Admission {
    /// Decided without the operator.
    Decided(Result<ExecutionMode, AdmissionError>),
    /// Authorized live request that needs the operator's confirmation.
    Confirm(LiveAdmission),
}

/// Validates the device, admits dry runs at once, refuses unauthorized live
/// runs, and hands authorized live runs to the confirmation protocol.
pub fn begin_admission(request: &WipeRequest, authorization: &AuthorizationToken) -> (r: Admission)
    ensures
        !is_device_path(request.device@) ==> r == Admission::Decided(
            Err(AdmissionError::InvalidDevice),
        ),
        is_device_path(request.device@) && request.mode == ExecutionMode::Dry ==> r
            == Admission::Decided(Ok(ExecutionMode::Dry)),
        is_device_path(request.device@) && request.mode == ExecutionMode::Live
            && !authorization.is_granted() ==> r == Admission::Decided(
            Err(AdmissionError::NotAuthorized),
        ),
        is_device_path(request.device@) && request.mode == ExecutionMode::Live
            && authorization.is_granted() ==> r is Confirm
            && r->Confirm_0.protocol_view()@ == ConfirmationState::AwaitingPathEcho
            && r->Confirm_0.protocol_view().target() == request.device@,
{
    if validate_device(request.device.as_str()).is_err() {
        return Admission::Decided(Err(AdmissionError::InvalidDevice));
    }
    match request.mode {
        ExecutionMode::Dry => Admission::Decided(Ok(ExecutionMode::Dry)),
        ExecutionMode::Live => if !authorization.granted() {
            Admission::Decided(Err(AdmissionError::NotAuthorized))
        } else {
            Admission::Confirm(
                LiveAdmission { protocol: ConfirmationProtocol::new(request.device.as_str()) },
            )
        },
    }
}

/// The `k`-th operator line, or an empty line once the lines run out.
pub open spec fn line_at(answers: Seq<Seq<char>>, k: int) -> Seq<char> {
    if 0 <= k < answers.len() {
        answers[k]
    } else {
        Seq::empty()
    }
}

/// Where the three confirmation steps end on the given operator lines.
pub open spec fn confirmation_on(target: Seq<char>, answers: Seq<Seq<char>>) -> ConfirmationState {
    let s1 = next_state(ConfirmationState::AwaitingPathEcho, target, line_at(answers, 0));
    let s2 = next_state(s1, target, line_at(answers, 1));
    next_state(s2, target, line_at(answers, 2))
}

/// The admission decision for a request on `device` in `mode`, with the
/// authorization `granted`, when the operator answers with `answers`.
pub open spec fn admission(
    device: Seq<char>,
    mode: ExecutionMode,
    granted: bool,
    answers: Seq<Seq<char>>,
) -> Result<ExecutionMode, AdmissionError> {
    if !is_device_path(device) {
        Err(AdmissionError::InvalidDevice)
    } else if mode == ExecutionMode::Dry {
        Ok(ExecutionMode::Dry)
    } else if !granted {
        Err(AdmissionError::NotAuthorized)
    } else {
        decision_of(confirmation_on(device, answers))
    }
}

pub open spec fn lines_of(answers: Seq<String>) -> Seq<Seq<char>> {
    answers.map_values(|s: String| s@)
}

/// Admission with the operator's lines given in advance (a scripted
/// operator). Lines past the last one read as empty.
pub fn admit_request(request: &WipeRequest, authorization: &AuthorizationToken, answers: &Vec<String>) -> (r: Result<
    ExecutionMode,
    AdmissionError,
>)
    ensures
        r == admission(request.device@, request.mode, authorization.is_granted(), lines_of(answers@)),
{
    match begin_admission(request, authorization) {
        Admission::Decided(d) => d,
        Admission::Confirm(mut live) => {
            let ghost target = request.device@;
            let ghost lines = lines_of(answers@);
            let mut k: usize = 0;
            while k < 3
                invariant
                    k <= 3,
                    lines == lines_of(answers@),
                    live.protocol_view().target() == target,
                    k == 0 ==> live.protocol_view()@ == ConfirmationState::AwaitingPathEcho,
                    k == 1 ==> live.protocol_view()@ == next_state(
                        ConfirmationState::AwaitingPathEcho,
                        target,
                        line_at(lines, 0),
                    ),
                    k == 2 ==> live.protocol_view()@ == next_state(
                        next_state(ConfirmationState::AwaitingPathEcho, target, line_at(lines, 0)),
                        target,
                        line_at(lines, 1),
                    ),
                    k == 3 ==> live.protocol_view()@ == confirmation_on(target, lines),
                decreases 3 - k,
            {
                if k < answers.len() {
                    assert(line_at(lines, k as int) == answers@[k as int]@);
                    live.respond(answers[k].as_str());
                } else {
                    proof {
                        reveal_strlit("");
                    }
                    assert(line_at(lines, k as int) == ""@);
                    live.respond("");
                }
                k = k + 1;
            }
            live.conclude()
        },
    }
}


/// A dry run on a valid device path is admitted as a dry run whatever the
/// authorization and whatever the operator would answer: neither is consulted.
pub proof fn dry_run_needs_no_consent(
    device: Seq<char>,
    granted: bool,
    answers: Seq<Seq<char>>,
    other_granted: bool,
    other_answers: Seq<Seq<char>>,
)
    requires
        is_device_path(device),
    ensures
        admission(device, ExecutionMode::Dry, granted, answers) == Ok::<ExecutionMode, AdmissionError>(ExecutionMode::Dry),
        admission(device, ExecutionMode::Dry, granted, answers) == admission(
            device,
            ExecutionMode::Dry,
            other_granted,
            other_answers,
        ),
{
}

/// A live request on a valid device path whose authorization setting is not
/// exactly the granting value is refused as not authorized, whatever the
/// operator would answer: the confirmation is never reached.
pub proof fn unauthorized_live_is_refused(
    device: Seq<char>,
    value: Option<Seq<char>>,
    answers: Seq<Seq<char>>,
    other_answers: Seq<Seq<char>>,
)
    requires
        is_device_path(device),
        !grants(value),
    ensures
        admission(device, ExecutionMode::Live, grants(value), answers) == Err::<ExecutionMode, AdmissionError>(AdmissionError::NotAuthorized),
        admission(device, ExecutionMode::Live, grants(value), answers) == admission(
            device,
            ExecutionMode::Live,
            grants(value),
            other_answers,
        ),
{
}

/// Live is admitted only with authorization and a full confirmation on the
/// device path, in that order.
pub proof fn live_requires_authorization_and_confirmation(
    device: Seq<char>,
    mode: ExecutionMode,
    granted: bool,
    answers: Seq<Seq<char>>,
)
    requires
        admission(device, mode, granted, answers) == Ok::<ExecutionMode, AdmissionError>(ExecutionMode::Live),
    ensures
        is_device_path(device),
        mode == ExecutionMode::Live,
        granted,
        confirmation_on(device, answers) == ConfirmationState::Confirmed,
{
}

} // verus!
