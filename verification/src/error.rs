use vstd::prelude::*;

verus! {

/// The error taxonomy of the core.
///
/// Usage, state and format violations are caller programming errors and are
/// detected synchronously at the call that introduced them; the operation
/// fails and the state it would have changed is left as it was.  Backend
/// failures (`DeviceLost`, `SubmitFailed`, `OutOfMemory`) surface through the
/// call's own return channel or, for pending maps, through the resolution a
/// poll delivers.
#[derive(Clone, Copy, Debug, PartialEq, Eq, Structural)]
pub enum Error {
    /// A requested feature or limit exceeds what the adapter reports.
    UnsupportedFeature,
    /// The device is gone; every later operation on it fails with this.
    DeviceLost,
    /// An allocation or a counter ran out of room.
    OutOfMemory,
    /// A resource was used against its declared usage flags, or a descriptor
    /// was contradictory, or a dead handle was presented.
    InvalidUsage,
    /// An encoder or a buffer was driven outside its state machine.
    InvalidState,
    /// Two recorded usages of one resource conflict in one unsynchronized
    /// scope.
    ResourceHazard,
    /// The backend refused a submission; the fence is not advanced.
    SubmitFailed,
    /// A shader module blob is empty or not a whole number of words.
    MalformedModule,
    /// A shader module blob starts with neither the native nor the
    /// byte-swapped magic word.
    BadMagic,
    /// A buffer was destroyed while its mapping was still pending.
    MapAborted,
}

impl Error {
    /// A short stable name for the error, for logs and messages.
    pub fn name(&self) -> (r: &'static str)
        ensures
            self == Error::UnsupportedFeature ==> r@ == "unsupported feature"@,
            self == Error::DeviceLost ==> r@ == "device lost"@,
            self == Error::OutOfMemory ==> r@ == "out of memory"@,
            self == Error::InvalidUsage ==> r@ == "invalid usage"@,
            self == Error::InvalidState ==> r@ == "invalid state"@,
            self == Error::ResourceHazard ==> r@ == "resource hazard"@,
            self == Error::SubmitFailed ==> r@ == "submit failed"@,
            self == Error::MalformedModule ==> r@ == "malformed module"@,
            self == Error::BadMagic ==> r@ == "bad magic"@,
            self == Error::MapAborted ==> r@ == "map aborted"@,
    {
        match self {
            Error::UnsupportedFeature => "unsupported feature",
            Error::DeviceLost => "device lost",
            Error::OutOfMemory => "out of memory",
            Error::InvalidUsage => "invalid usage",
            Error::InvalidState => "invalid state",
            Error::ResourceHazard => "resource hazard",
            Error::SubmitFailed => "submit failed",
            Error::MalformedModule => "malformed module",
            Error::BadMagic => "bad magic",
            Error::MapAborted => "map aborted",
        }
    }
}

} // verus!
