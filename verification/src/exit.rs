//! The exit-outcome taxonomy: the terminal classification of one execution
//! attempt, and its translation into the host's success/failure protocol.
//! The kind-to-string mapping is a total function over a closed tagged
//! union, so a newly added kind without a translation is a build error.

use vstd::prelude::*;

verus! {

#[derive(Debug, Clone, PartialEq, Eq)]
pub enum ExitSucceed {
    Stopped,
    Returned,
    Suicided,
}

#[derive(Debug, Clone, PartialEq, Eq)]
pub enum ExitRevert {
    Reverted,
}

/// A recoverable execution error: the enclosing call fails, outer calls
/// survive.
#[derive(Debug, Clone, PartialEq, Eq)]
pub enum ExitError {
    StackUnderflow,
    StackOverflow,
    InvalidJump,
    InvalidRange,
    DesignatedInvalid,
    CallTooDeep,
    CreateCollision,
    CreateContractLimit,
    OutOfOffset,
    OutOfGas,
    OutOfFund,
    PCUnderflow,
    CreateEmpty,
    Other(String),
}

/// An unrecoverable condition: unwinds the whole top-level invocation and
/// no partial effects may be retained.
#[derive(Debug, Clone, PartialEq, Eq)]
pub enum ExitFatal {
    NotSupported,
    UnhandledInterrupt,
    CallErrorAsFatal(ExitError),
    Other(String),
}

/// Terminal classification of one execution attempt, produced exactly once
/// per top-level invocation.
#[derive(Debug, Clone, PartialEq, Eq)]
pub enum ExitReason {
    Succeed(ExitSucceed),
    Revert(ExitRevert),
    Error(ExitError),
    Fatal(ExitFatal),
}

/// The stable symbolic name of each error kind.
pub open spec fn exit_error_str(e: ExitError) -> Seq<char> {
    match e {
        ExitError::StackUnderflow => "StackUnderflow"@,
        ExitError::StackOverflow => "StackOverflow"@,
        ExitError::InvalidJump => "InvalidJump"@,
        ExitError::InvalidRange => "InvalidRange"@,
        ExitError::DesignatedInvalid => "DesignatedInvalid"@,
        ExitError::CallTooDeep => "CallTooDeep"@,
        ExitError::CreateCollision => "CreateCollision"@,
        ExitError::CreateContractLimit => "CreateContractLimit"@,
        ExitError::OutOfOffset => "OutOfOffset"@,
        ExitError::OutOfGas => "OutOfGas"@,
        ExitError::OutOfFund => "OutOfFund"@,
        ExitError::PCUnderflow => "PCUnderflow"@,
        ExitError::CreateEmpty => "CreateEmpty"@,
        ExitError::Other(_) => "Other"@,
    }
}

/// The stable symbolic name of each fatal kind.
pub open spec fn exit_fatal_str(f: ExitFatal) -> Seq<char> {
    match f {
        ExitFatal::NotSupported => "NotSupported"@,
        ExitFatal::UnhandledInterrupt => "UnhandledInterrupt"@,
        ExitFatal::CallErrorAsFatal(_) => "CallErrorAsFatal"@,
        ExitFatal::Other(_) => "Other"@,
    }
}

impl ExitError {
    /// Every error kind has a non-empty, stable symbolic name.
    pub fn to_str(&self) -> (r: &'static str)
        ensures
            r@ == exit_error_str(*self),
            r@.len() > 0,
    {
        proof {
            reveal_strlit("StackUnderflow");
            reveal_strlit("StackOverflow");
            reveal_strlit("InvalidJump");
            reveal_strlit("InvalidRange");
            reveal_strlit("DesignatedInvalid");
            reveal_strlit("CallTooDeep");
            reveal_strlit("CreateCollision");
            reveal_strlit("CreateContractLimit");
            reveal_strlit("OutOfOffset");
            reveal_strlit("OutOfGas");
            reveal_strlit("OutOfFund");
            reveal_strlit("PCUnderflow");
            reveal_strlit("CreateEmpty");
            reveal_strlit("Other");
        }
        match self {
            ExitError::StackUnderflow => "StackUnderflow",
            ExitError::StackOverflow => "StackOverflow",
            ExitError::InvalidJump => "InvalidJump",
            ExitError::InvalidRange => "InvalidRange",
            ExitError::DesignatedInvalid => "DesignatedInvalid",
            ExitError::CallTooDeep => "CallTooDeep",
            ExitError::CreateCollision => "CreateCollision",
            ExitError::CreateContractLimit => "CreateContractLimit",
            ExitError::OutOfOffset => "OutOfOffset",
            ExitError::OutOfGas => "OutOfGas",
            ExitError::OutOfFund => "OutOfFund",
            ExitError::PCUnderflow => "PCUnderflow",
            ExitError::CreateEmpty => "CreateEmpty",
            ExitError::Other(_) => "Other",
        }
    }
}

impl ExitFatal {
    /// Every fatal kind has a non-empty, stable symbolic name.
    pub fn to_str(&self) -> (r: &'static str)
        ensures
            r@ == exit_fatal_str(*self),
            r@.len() > 0,
    {
        proof {
            reveal_strlit("NotSupported");
            reveal_strlit("UnhandledInterrupt");
            reveal_strlit("CallErrorAsFatal");
            reveal_strlit("Other");
        }
        match self {
            ExitFatal::NotSupported => "NotSupported",
            ExitFatal::UnhandledInterrupt => "UnhandledInterrupt",
            ExitFatal::CallErrorAsFatal(_) => "CallErrorAsFatal",
            ExitFatal::Other(_) => "Other",
        }
    }
}

/// What the host is told at the end of one top-level invocation: plain
/// output on success, the payload on a distinguishable revert channel, or
/// a short symbolic failure message.
#[derive(Debug, Clone, PartialEq, Eq)]
pub enum HostSignal {
    Output(Vec<u8>),
    Revert(Vec<u8>),
    Fail(&'static str),
}

/// Translates an exit reason and its output bytes into the host protocol.
/// Success hands the bytes through; a revert surfaces them on the revert
/// channel; an error or fatal kind surfaces only its symbolic name.
pub fn process_exit_reason(status: ExitReason, result: &Vec<u8>) -> (r: HostSignal)
    ensures
        status matches ExitReason::Succeed(_) ==> r matches HostSignal::Output(o) && o@
            == result@,
        status matches ExitReason::Revert(_) ==> r matches HostSignal::Revert(o) && o@ == result@,
        status matches ExitReason::Error(e) ==> r matches HostSignal::Fail(m) && m@
            == exit_error_str(e),
        status matches ExitReason::Fatal(f) ==> r matches HostSignal::Fail(m) && m@
            == exit_fatal_str(f),
{
    match status {
        ExitReason::Succeed(_) => HostSignal::Output(clone_bytes(result)),
        ExitReason::Revert(_) => HostSignal::Revert(clone_bytes(result)),
        ExitReason::Error(error) => HostSignal::Fail(error.to_str()),
        ExitReason::Fatal(error) => HostSignal::Fail(error.to_str()),
    }
}

/// A plain byte-for-byte copy.
pub fn clone_bytes(v: &Vec<u8>) -> (r: Vec<u8>)
    ensures
        r@ == v@,
{
    let mut r: Vec<u8> = Vec::new();
    let mut i: usize = 0;
    while i < v.len()
        invariant
            i <= v.len(),
            r@ == v@.take(i as int),
        decreases v.len() - i,
    {
        r.push(v[i]);
        proof {
            assert(v@.take(i + 1 as int) =~= v@.take(i as int).push(v@[i as int]));
        }
        i = i + 1;
    }
    proof {
        assert(v@.take(v@.len() as int) =~= v@);
    }
    r
}

} // verus!
