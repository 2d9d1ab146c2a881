//! The error vocabulary shared by converter construction and processing.
//!
//! The numeric codes mirror the classic sample-rate-converter error table;
//! many of them describe pointer or mode misuse that strong typing makes
//! unreachable here, but the full taxonomy is kept so that codes and
//! descriptions round-trip unchanged.

use vstd::prelude::*;

verus! {

/// A type specifying a general category of sample rate conversion error.
#[non_exhaustive]
#[derive(Debug, Copy, Clone, Eq, PartialEq, Hash, Structural)]
pub enum ErrorKind {
    Unknown,
    MallocFailed,
    BadState,
    BadData,
    BadDataPtr,
    NoPrivate,
    BadSrcRatio,
    BadProcPtr,
    ShiftBits,
    FilterLen,
    BadConverter,
    BadChannelCount,
    SincBadBufferLen,
    SizeIncompatibility,
    BadPrivPtr,
    BadSincState,
    DataOverlap,
    BadCallback,
    BadMode,
    NullCallback,
    NoVariableRatio,
    SincPrepareDataBadLen,
    BadInternalState,
    MaxError,
}

/// The error kind that a numeric code stands for: `0` means no error, the
/// codes `1` to `23` each name one kind, and every other code is `Unknown`.
pub open spec fn kind_of_code(value: int) -> Option<ErrorKind> {
    if value == 0 {
        None
    } else if value == 1 {
        Some(ErrorKind::MallocFailed)
    } else if value == 2 {
        Some(ErrorKind::BadState)
    } else if value == 3 {
        Some(ErrorKind::BadData)
    } else if value == 4 {
        Some(ErrorKind::BadDataPtr)
    } else if value == 5 {
        Some(ErrorKind::NoPrivate)
    } else if value == 6 {
        Some(ErrorKind::BadSrcRatio)
    } else if value == 7 {
        Some(ErrorKind::BadProcPtr)
    } else if value == 8 {
        Some(ErrorKind::ShiftBits)
    } else if value == 9 {
        Some(ErrorKind::FilterLen)
    } else if value == 10 {
        Some(ErrorKind::BadConverter)
    } else if value == 11 {
        Some(ErrorKind::BadChannelCount)
    } else if value == 12 {
        Some(ErrorKind::SincBadBufferLen)
    } else if value == 13 {
        Some(ErrorKind::SizeIncompatibility)
    } else if value == 14 {
        Some(ErrorKind::BadPrivPtr)
    } else if value == 15 {
        Some(ErrorKind::BadSincState)
    } else if value == 16 {
        Some(ErrorKind::DataOverlap)
    } else if value == 17 {
        Some(ErrorKind::BadCallback)
    } else if value == 18 {
        Some(ErrorKind::BadMode)
    } else if value == 19 {
        Some(ErrorKind::NullCallback)
    } else if value == 20 {
        Some(ErrorKind::NoVariableRatio)
    } else if value == 21 {
        Some(ErrorKind::SincPrepareDataBadLen)
    } else if value == 22 {
        Some(ErrorKind::BadInternalState)
    } else if value == 23 {
        Some(ErrorKind::MaxError)
    } else {
        Some(ErrorKind::Unknown)
    }
}

/// The human-readable description of each error kind.
pub open spec fn kind_description(kind: ErrorKind) -> Seq<char> {
    match kind {
        ErrorKind::Unknown => "Unkown error."@,
        ErrorKind::MallocFailed => "Malloc failed."@,
        ErrorKind::BadState => "SRC_STATE pointer is NULL."@,
        ErrorKind::BadData => "SRC_DATA pointer is NULL."@,
        ErrorKind::BadDataPtr => "SRC_DATA->data_out or SRC_DATA->data_in is NULL."@,
        ErrorKind::NoPrivate => "Internal error. No private data."@,
        ErrorKind::BadSrcRatio => "SRC ratio outside [1/256, 256] range."@,
        ErrorKind::BadProcPtr => "Internal error. No process pointer."@,
        ErrorKind::ShiftBits => "Internal error. SHIFT_BITS too large."@,
        ErrorKind::FilterLen => "Internal error. Filter length too large."@,
        ErrorKind::BadConverter => "Bad converter number."@,
        ErrorKind::BadChannelCount => "Channel count must be >= 1."@,
        ErrorKind::SincBadBufferLen => "Internal error. Bad buffer length. Please report this."@,
        ErrorKind::SizeIncompatibility => "Internal error. Input data / internal buffer size difference. Please report this."@,
        ErrorKind::BadPrivPtr => "Internal error. Private pointer is NULL. Please report this."@,
        ErrorKind::BadSincState => "src_process() called without reset after end_of_input."@,
        ErrorKind::DataOverlap => "Input and output data arrays overlap."@,
        ErrorKind::BadCallback => "Supplied callback function pointer is NULL."@,
        ErrorKind::BadMode => "Calling mode differs from initialisation mode (ie process v callback)."@,
        ErrorKind::NullCallback => "Callback function pointer is NULL in src_callback_read ()."@,
        ErrorKind::NoVariableRatio => "This converter only allows constant conversion ratios."@,
        ErrorKind::SincPrepareDataBadLen => "Internal error : Bad length in prepare_data ()."@,
        ErrorKind::BadInternalState => "Error : Someone is trampling on my internal state."@,
        ErrorKind::MaxError => "Placeholder. No error defined for this error number."@,
    }
}

impl ErrorKind {
    /// Create a new [`ErrorKind`] enum from the corresponding integer.
    ///
    /// The code `0` stands for success and yields `None`.
    pub fn from_int(value: i32) -> (r: Option<Self>)
        ensures
            r == kind_of_code(value as int),
    {
        let slf = match value {
            0 => {
                return None;
            },
            1 => Self::MallocFailed,
            2 => Self::BadState,
            3 => Self::BadData,
            4 => Self::BadDataPtr,
            5 => Self::NoPrivate,
            6 => Self::BadSrcRatio,
            7 => Self::BadProcPtr,
            8 => Self::ShiftBits,
            9 => Self::FilterLen,
            10 => Self::BadConverter,
            11 => Self::BadChannelCount,
            12 => Self::SincBadBufferLen,
            13 => Self::SizeIncompatibility,
            14 => Self::BadPrivPtr,
            15 => Self::BadSincState,
            16 => Self::DataOverlap,
            17 => Self::BadCallback,
            18 => Self::BadMode,
            19 => Self::NullCallback,
            20 => Self::NoVariableRatio,
            21 => Self::SincPrepareDataBadLen,
            22 => Self::BadInternalState,
            23 => Self::MaxError,
            _ => Self::Unknown,
        };
        Some(slf)
    }

    /// Return the human-readable description for this error.
    pub fn description(&self) -> (r: &'static str)
        ensures
            r@ == kind_description(*self),
    {
        match self {
            Self::Unknown => "Unkown error.",
            Self::MallocFailed => "Malloc failed.",
            Self::BadState => "SRC_STATE pointer is NULL.",
            Self::BadData => "SRC_DATA pointer is NULL.",
            Self::BadDataPtr => "SRC_DATA->data_out or SRC_DATA->data_in is NULL.",
            Self::NoPrivate => "Internal error. No private data.",
            Self::BadSrcRatio => "SRC ratio outside [1/256, 256] range.",
            Self::BadProcPtr => "Internal error. No process pointer.",
            Self::ShiftBits => "Internal error. SHIFT_BITS too large.",
            Self::FilterLen => "Internal error. Filter length too large.",
            Self::BadConverter => "Bad converter number.",
            Self::BadChannelCount => "Channel count must be >= 1.",
            Self::SincBadBufferLen => "Internal error. Bad buffer length. Please report this.",
            Self::SizeIncompatibility => "Internal error. Input data / internal buffer size difference. Please report this.",
            Self::BadPrivPtr => "Internal error. Private pointer is NULL. Please report this.",
            Self::BadSincState => "src_process() called without reset after end_of_input.",
            Self::DataOverlap => "Input and output data arrays overlap.",
            Self::BadCallback => "Supplied callback function pointer is NULL.",
            Self::BadMode => "Calling mode differs from initialisation mode (ie process v callback).",
            Self::NullCallback => "Callback function pointer is NULL in src_callback_read ().",
            Self::NoVariableRatio => "This converter only allows constant conversion ratios.",
            Self::SincPrepareDataBadLen => "Internal error : Bad length in prepare_data ().",
            Self::BadInternalState => "Error : Someone is trampling on my internal state.",
            Self::MaxError => "Placeholder. No error defined for this error number.",
        }
    }
}

/// The error type used by the crate.
#[derive(Debug, Copy, Clone, Eq, PartialEq, Hash, Structural)]
pub struct Error {
    kind: ErrorKind,
}

impl Error {
    /// The kind wrapped by this error.
    pub closed spec fn spec_kind(&self) -> ErrorKind {
        self.kind
    }

    /// Wrap an error kind.
    pub fn from_kind(kind: ErrorKind) -> (r: Self)
        ensures
            r.spec_kind() == kind,
    {
        Self { kind }
    }

    /// Turn a numeric error code into a result: `0` means success, any other
    /// code the corresponding error.
    pub fn check_int(error: i32) -> (r: Result<(), Self>)
        ensures
            error == 0 <==> r is Ok,
            error != 0 ==> (r matches Err(e) && Some(e.spec_kind()) == kind_of_code(error as int)),
    {
        match ErrorKind::from_int(error) {
            None => Ok(()),
            Some(kind) => Err(Self { kind }),
        }
    }

    /// Return the kind of this error.
    #[inline]
    pub fn kind(&self) -> (r: ErrorKind)
        ensures
            r == self.spec_kind(),
    {
        self.kind
    }

    /// Return the human-readable description for this error.
    #[inline]
    pub fn description(&self) -> (r: &'static str)
        ensures
            r@ == kind_description(self.spec_kind()),
    {
        self.kind.description()
    }
}

} // verus!
