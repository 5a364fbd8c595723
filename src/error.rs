use vstd::prelude::*;
use vstd::string::StringExecFns;

verus! {

/// Why an activation did not run to completion.
#[derive(Debug, PartialEq, Eq)]
pub enum PumpError<GpioError> {
    /// Another activation holds the pump.
    AlreadyOn,
    /// The requested hold is longer than the ceiling.
    ImpossibleDuration,
    /// The pin reported a fault while being driven high or low.
    GpioError(GpioError),
}

/// The text that describes each kind of activation failure.
pub open spec fn pump_error_text<G>(e: PumpError<G>) -> Seq<char> {
    match e {
        PumpError::AlreadyOn => "the pump is already on, canceling the operation"@,
        PumpError::ImpossibleDuration => "the given duration is to big"@,
        PumpError::GpioError(_) => "the gpio pin couldent work"@,
    }
}

impl<GpioError> PumpError<GpioError> {
    /// A human-readable description of the failure.
    pub fn message(&self) -> (r: String)
        ensures
            r@ == pump_error_text(*self),
    {
        match self {
            PumpError::AlreadyOn => String::from_str("the pump is already on, canceling the operation"),
            PumpError::ImpossibleDuration => String::from_str("the given duration is to big"),
            PumpError::GpioError(_) => String::from_str("the gpio pin couldent work"),
        }
    }
}

/// Failures while bringing up the pump's pin, before any controller exists.
#[derive(Debug, PartialEq, Eq)]
pub enum WorkerError {
    /// The platform does not expose the GPIO device.
    NotRunningOnRaspberryPi,
    /// Opening the pin failed; holds the description of the cause.
    CantOpenPumpGpioPin(String),
}

/// The text that describes each bring-up failure.
pub open spec fn worker_error_text(e: WorkerError) -> Seq<char> {
    match e {
        WorkerError::NotRunningOnRaspberryPi => "not running on a raspberry pi at the moment"@,
        WorkerError::CantOpenPumpGpioPin(cause) => "cant open punp gpio pin num "@ + cause@,
    }
}

impl WorkerError {
    /// A human-readable description of the failure, with its cause if any.
    pub fn message(&self) -> (r: String)
        ensures
            r@ == worker_error_text(*self),
    {
        match self {
            WorkerError::NotRunningOnRaspberryPi => String::from_str("not running on a raspberry pi at the moment"),
            WorkerError::CantOpenPumpGpioPin(cause) => {
                let mut r = String::from_str("cant open punp gpio pin num ");
                r.append(cause.as_str());
                r
            },
        }
    }
}

} // verus!
