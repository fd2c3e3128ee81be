use vstd::prelude::*;

verus! {

/// Errors of the VM layer: preparation, QEMU control, guest agent and
/// addressing.
#[derive(Debug, Clone, PartialEq, Eq)]
pub enum VmError {
    Qemu(String),
    Io(String),
    Json(String),
    CloudInit(String),
    Serial(String),
    Qmp(String),
    Timeout(String),
    VmNotFound(String),
    NoFreePort,
    Directory(String),
    InvalidPath(String),
}

} // verus!

verus! {

impl VmError {
    /// A copy of this error.
    pub fn duplicate(&self) -> (r: Self)
        ensures
            r == *self,
    {
        match self {
            VmError::Qemu(s) => VmError::Qemu(s.clone()),
            VmError::Io(s) => VmError::Io(s.clone()),
            VmError::Json(s) => VmError::Json(s.clone()),
            VmError::CloudInit(s) => VmError::CloudInit(s.clone()),
            VmError::Serial(s) => VmError::Serial(s.clone()),
            VmError::Qmp(s) => VmError::Qmp(s.clone()),
            VmError::Timeout(s) => VmError::Timeout(s.clone()),
            VmError::VmNotFound(s) => VmError::VmNotFound(s.clone()),
            VmError::NoFreePort => VmError::NoFreePort,
            VmError::Directory(s) => VmError::Directory(s.clone()),
            VmError::InvalidPath(s) => VmError::InvalidPath(s.clone()),
        }
    }
}

} // verus!
