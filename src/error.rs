use vstd::prelude::*;
use vstd::string::*;

verus! {

/// The kind of a `SporkError`.
#[derive(Clone, Copy, Debug, PartialEq, Eq, Structural)]
pub enum SporkErrorKind {
    /// A scope that the operation does not accept.
    InvalidStatType,
    /// An argument out of range, such as more cores than the system has.
    InvalidArgument,
    /// The query is not supported on this platform.
    Unimplemented,
    /// The underlying system call failed.
    Unknown,
}

/// The text that describes an error kind.
pub open spec fn kind_desc(kind: SporkErrorKind) -> Seq<char> {
    match kind {
        SporkErrorKind::InvalidStatType => "Invalid Stat Type"@,
        SporkErrorKind::InvalidArgument => "Invalid Argument"@,
        SporkErrorKind::Unimplemented => "Unimplemented"@,
        SporkErrorKind::Unknown => "Unknown Error"@,
    }
}

/// An error from Spork: its kind, the text for that kind, and free-form details.
#[derive(Clone, Debug, PartialEq, Eq)]
pub struct SporkError {
    desc: &'static str,
    details: String,
    kind: SporkErrorKind,
}

impl SporkError {
    /// The kind of the error.
    pub closed spec fn spec_kind(&self) -> SporkErrorKind {
        self.kind
    }

    /// The details of the error.
    pub closed spec fn spec_details(&self) -> Seq<char> {
        self.details@
    }

    /// The description of the error's kind.
    pub closed spec fn spec_desc(&self) -> Seq<char> {
        self.desc@
    }

    /// Creates an error of `kind` with `details`.
    pub fn new(kind: SporkErrorKind, details: String) -> (r: SporkError)
        ensures
            r.spec_kind() == kind,
            r.spec_details() == details@,
            r.spec_desc() == kind_desc(kind),
    {
        let desc = match kind {
            SporkErrorKind::InvalidStatType => "Invalid Stat Type",
            SporkErrorKind::InvalidArgument => "Invalid Argument",
            SporkErrorKind::Unimplemented => "Unimplemented",
            SporkErrorKind::Unknown => "Unknown Error",
        };
        SporkError { desc, details, kind }
    }

    /// Reads the error's details.
    pub fn details(&self) -> (r: &str)
        ensures
            r@ == self.spec_details(),
    {
        self.details.as_str()
    }

    /// Reads the error's kind.
    pub fn kind(&self) -> (r: &SporkErrorKind)
        ensures
            *r == self.spec_kind(),
    {
        &self.kind
    }

    /// The description of the kind and the details, separated by `": "`.
    pub fn to_string(&self) -> (r: String)
        ensures
            r@ == self.spec_desc() + ": "@ + self.spec_details(),
    {
        let s = String::from_str(self.desc);
        let s = s.concat(": ");
        s.concat(self.details.as_str())
    }

    /// Creates an error of `kind` with a copy of `details`.
    pub fn new_borrowed(kind: SporkErrorKind, details: &str) -> (r: SporkError)
        ensures
            r.spec_kind() == kind,
            r.spec_details() == details@,
            r.spec_desc() == kind_desc(kind),
    {
        SporkError::new(kind, details.to_owned())
    }

    /// An `Unimplemented` error with empty details.
    pub fn unimplemented() -> (r: SporkError)
        ensures
            r.spec_kind() == SporkErrorKind::Unimplemented,
            r.spec_details() == Seq::<char>::empty(),
            r.spec_desc() == kind_desc(SporkErrorKind::Unimplemented),
    {
        SporkError::new(SporkErrorKind::Unimplemented, String::new())
    }
}

} // verus!

verus! {

#[verifier::external_type_specification]
#[verifier::external_body]
pub struct ExIoError(std::io::Error);

#[verifier::external_type_specification]
#[verifier::external_body]
pub struct ExSysInfoError(sys_info::Error);

/// Relies on `std::io::Error`'s `Display` impl for the error's text.
#[verifier::external_body]
fn io_error_text(e: &std::io::Error) -> String {
    format!("{}", e)
}

/// A failure of a system-information query, with the text of any error it carries.
#[derive(Clone, Debug, PartialEq, Eq)]
pub enum SystemInfoError {
    UnsupportedSystem,
    ExecFailed(String),
    Io(String),
    SystemTime(String),
    General(String),
    Unknown,
}

/// Relies on the variants of `sys_info::Error`; the errors some of them carry become
/// their text.
#[verifier::external_body]
pub(crate) fn system_info_error(e: sys_info::Error) -> SystemInfoError {
    match e {
        sys_info::Error::UnsupportedSystem => SystemInfoError::UnsupportedSystem,
        sys_info::Error::ExecFailed(e) => SystemInfoError::ExecFailed(e.to_string()),
        sys_info::Error::IO(e) => SystemInfoError::Io(e.to_string()),
        sys_info::Error::SystemTime(e) => SystemInfoError::SystemTime(e.to_string()),
        sys_info::Error::General(s) => SystemInfoError::General(s),
        sys_info::Error::Unknown => SystemInfoError::Unknown,
    }
}

impl SporkError {
    /// The error reported for a failed system-information query: an unsupported system
    /// is `Unimplemented`, anything else `Unknown`.
    pub fn from_system_info(e: SystemInfoError) -> (r: SporkError)
        ensures
            r.spec_kind() == (match e {
                SystemInfoError::UnsupportedSystem => SporkErrorKind::Unimplemented,
                _ => SporkErrorKind::Unknown,
            }),
            r.spec_details() == (match e {
                SystemInfoError::UnsupportedSystem => "Unsupported system."@,
                SystemInfoError::ExecFailed(s) => s@,
                SystemInfoError::Io(s) => s@,
                SystemInfoError::SystemTime(s) => s@,
                SystemInfoError::General(s) => s@,
                SystemInfoError::Unknown => "Sys_info encountered an unknown error."@,
            }),
    {
        match e {
            SystemInfoError::UnsupportedSystem => SporkError::new_borrowed(
                SporkErrorKind::Unimplemented,
                "Unsupported system.",
            ),
            SystemInfoError::ExecFailed(s) => SporkError::new(SporkErrorKind::Unknown, s),
            SystemInfoError::Io(s) => SporkError::new(SporkErrorKind::Unknown, s),
            SystemInfoError::SystemTime(s) => SporkError::new(SporkErrorKind::Unknown, s),
            SystemInfoError::General(s) => SporkError::new(SporkErrorKind::Unknown, s),
            SystemInfoError::Unknown => SporkError::new_borrowed(
                SporkErrorKind::Unknown,
                "Sys_info encountered an unknown error.",
            ),
        }
    }
}

impl From<sys_info::Error> for SporkError {
    fn from(error: sys_info::Error) -> SporkError {
        SporkError::from_system_info(system_info_error(error))
    }
}

impl vstd::std_specs::convert::FromSpecImpl<sys_info::Error> for SporkError {
    open spec fn obeys_from_spec() -> bool {
        false
    }

    open spec fn from_spec(v: sys_info::Error) -> SporkError {
        arbitrary()
    }
}

impl From<std::io::Error> for SporkError {
    fn from(error: std::io::Error) -> SporkError {
        SporkError::new(SporkErrorKind::Unknown, io_error_text(&error))
    }
}

impl vstd::std_specs::convert::FromSpecImpl<std::io::Error> for SporkError {
    open spec fn obeys_from_spec() -> bool {
        false
    }

    open spec fn from_spec(v: std::io::Error) -> SporkError {
        arbitrary()
    }
}

} // verus!
