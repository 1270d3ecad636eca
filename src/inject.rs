use vstd::prelude::*;
use crate::names::{decimal, decimal_string};

verus! {

/// The injector program, as materialised in the working directory.
pub const INJECT_HELPER_EXE: &'static str = "inject-helper.exe";

/// The graphics hook library, as materialised in the working directory.
pub const GRAPHICS_HOOK_DLL: &'static str = "graphics-hook64.dll";

/// What the injector's non-zero exit code says.
#[derive(Debug, Clone, Copy, PartialEq, Eq, Structural)]
pub enum ExitStatus {
    InjectFailed,
    InvalidParams,
    OpenProcessFail,
    UnlikelyFail,
    Unknown(i32),
}

/// Why injecting the hook failed.
#[derive(Debug)]
pub enum InjectHelperError {
    /// The injector or the hook could not be written to disk.
    WriteBinaryToFile(std::io::Error),
    /// The injector could not be run.
    ExecuteBinary(std::io::Error),
    /// The injector ran and reported a failure.
    InjectError(ExitStatus),
}

/// The status a known failure code stands for.
pub open spec fn known_status(code: i32) -> Result<ExitStatus, ()> {
    if code == -1 {
        Ok(ExitStatus::InjectFailed)
    } else if code == -2 {
        Ok(ExitStatus::InvalidParams)
    } else if code == -3 {
        Ok(ExitStatus::OpenProcessFail)
    } else if code == -4 {
        Ok(ExitStatus::UnlikelyFail)
    } else {
        Err(())
    }
}

/// The status of a non-zero exit code; unknown codes are kept as they are.
pub open spec fn status_of(code: i32) -> ExitStatus {
    match known_status(code) {
        Ok(s) => s,
        Err(_) => ExitStatus::Unknown(code),
    }
}

impl TryFrom<i32> for ExitStatus {
    type Error = ();

    fn try_from(value: i32) -> (r: Result<Self, ()>)
        ensures
            r == known_status(value),
    {
        if value == -1 {
            Ok(Self::InjectFailed)
        } else if value == -2 {
            Ok(Self::InvalidParams)
        } else if value == -3 {
            Ok(Self::OpenProcessFail)
        } else if value == -4 {
            Ok(Self::UnlikelyFail)
        } else {
            Err(())
        }
    }
}

impl vstd::std_specs::convert::TryFromSpecImpl<i32> for ExitStatus {
    open spec fn obeys_try_from_spec() -> bool {
        true
    }

    open spec fn try_from_spec(v: i32) -> Result<Self, ()> {
        known_status(v)
    }
}

impl ExitStatus {
    /// The status a non-zero exit code stands for.
    pub fn from_code(code: i32) -> (r: ExitStatus)
        ensures
            r == status_of(code),
    {
        match ExitStatus::try_from(code) {
            Ok(s) => s,
            Err(_) => ExitStatus::Unknown(code),
        }
    }
}

/// The outcome of injecting the hook, after the injector exited.
pub open spec fn outcome_of(code: Option<i32>) -> Result<(), ExitStatus> {
    match code {
        Some(c) => if c == 0 {
            Ok(())
        } else {
            Err(status_of(c))
        },
        None => Err(ExitStatus::Unknown(0)),
    }
}

/// Turns the injector's exit code into the outcome of the injection: zero is
/// success; a process that ended without a code counts as `Unknown(0)`.
pub fn injection_outcome(code: Option<i32>) -> (r: Result<(), InjectHelperError>)
    ensures
        match r {
            Ok(()) => outcome_of(code) is Ok,
            Err(InjectHelperError::InjectError(s)) => outcome_of(code) == Err::<(), ExitStatus>(s),
            Err(_) => false,
        },
{
    match code {
        Some(c) => if c == 0 {
            Ok(())
        } else {
            Err(InjectHelperError::InjectError(ExitStatus::from_code(c)))
        },
        None => Err(InjectHelperError::InjectError(ExitStatus::Unknown(0))),
    }
}

/// The injector's arguments: the hook library, the anti-cheat compatibility
/// flag and the target thread id.
pub open spec fn injector_args(target: u32, anti_cheat_compatible: bool) -> Seq<Seq<char>> {
    seq![
        "graphics-hook64.dll"@,
        if anti_cheat_compatible { "1"@ } else { "0"@ },
        decimal(target as nat),
    ]
}

/// The argument vector the injector is run with.
pub fn injector_arguments(target: u32, anti_cheat_compatible: bool) -> (r: Vec<String>)
    ensures
        r@.len() == 3,
        forall|i: int| 0 <= i < 3 ==> #[trigger] r@[i]@ == injector_args(target, anti_cheat_compatible)[i],
{
    proof {
        reveal_strlit("graphics-hook64.dll");
    }
    let flag = if anti_cheat_compatible {
        String::from_str("1")
    } else {
        String::from_str("0")
    };
    let r = vec![String::from_str(GRAPHICS_HOOK_DLL), flag, decimal_string(target)];
    r
}

} // verus!
