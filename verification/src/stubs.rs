//! Must-fail stubs of the legacy runtime-shim import surface.
//!
//! The guest module's toolchain emits references to a generic runtime-shim
//! surface, but only a small subset is ever exercised by legitimate
//! sandboxed code. The loader still expects these names to resolve, so
//! each resolves to a stub that reports an unsupported capability instead
//! of doing anything; any invocation means a miscompiled guest or an
//! attempted escape, and the surrounding binary terminates the process on
//! the reported error.

use vstd::prelude::*;

verus! {

/// Which must-fail stub was invoked.
#[derive(Clone, Copy, Debug, PartialEq, Eq, Structural)]
pub enum UnsupportedCapability {
    /// The setjmp-emulation save entry.
    SaveSetjmp,
    /// The setjmp-emulation test entry.
    TestSetjmp,
    /// The indirect-call trampoline taking one argument.
    InvokeVi,
    /// The indirect-call trampoline taking two arguments and returning.
    InvokeIii,
    /// The float-rounding shim. Its wire signature is floating point, so
    /// no stub for it can stand in this crate; the surrounding binary
    /// reports the capability under this tag itself.
    Roundf,
    /// The temporary-return-register store.
    SetTempRet0,
    /// The temporary-return-register load.
    GetTempRet0,
    /// The file-descriptor read primitive.
    FdRead,
    /// The file-descriptor seek primitive.
    FdSeek,
}

/// The import name under which the capability was expected, for the
/// diagnostic written before the process terminates.
pub open spec fn spec_capability_name(c: UnsupportedCapability) -> Seq<char> {
    match c {
        UnsupportedCapability::SaveSetjmp => "saveSetjmp"@,
        UnsupportedCapability::TestSetjmp => "testSetjmp"@,
        UnsupportedCapability::InvokeVi => "invoke_vi"@,
        UnsupportedCapability::InvokeIii => "invoke_iii"@,
        UnsupportedCapability::Roundf => "roundf"@,
        UnsupportedCapability::SetTempRet0 => "setTempRet0"@,
        UnsupportedCapability::GetTempRet0 => "getTempRet0"@,
        UnsupportedCapability::FdRead => "fd_read"@,
        UnsupportedCapability::FdSeek => "fd_seek"@,
    }
}

impl UnsupportedCapability {
    /// The import name under which the capability was expected.
    pub fn name(&self) -> (s: &'static str)
        ensures
            s@ == spec_capability_name(*self),
    {
        match self {
            UnsupportedCapability::SaveSetjmp => "saveSetjmp",
            UnsupportedCapability::TestSetjmp => "testSetjmp",
            UnsupportedCapability::InvokeVi => "invoke_vi",
            UnsupportedCapability::InvokeIii => "invoke_iii",
            UnsupportedCapability::Roundf => "roundf",
            UnsupportedCapability::SetTempRet0 => "setTempRet0",
            UnsupportedCapability::GetTempRet0 => "getTempRet0",
            UnsupportedCapability::FdRead => "fd_read",
            UnsupportedCapability::FdSeek => "fd_seek",
        }
    }
}

/// Setjmp-emulation save entry; never serviced.
#[allow(non_snake_case)]
pub fn emscripten_saveSetjmp(_env: i32, _label: i32, _table: i32, _size: i32) -> (r: Result<
    i32,
    UnsupportedCapability,
>)
    ensures
        r == Err::<i32, UnsupportedCapability>(UnsupportedCapability::SaveSetjmp),
{
    Err(UnsupportedCapability::SaveSetjmp)
}

/// Setjmp-emulation test entry; never serviced.
#[allow(non_snake_case)]
pub fn emscripten_testSetjmp(_id: i32, _table: i32, _size: i32) -> (r: Result<
    i32,
    UnsupportedCapability,
>)
    ensures
        r == Err::<i32, UnsupportedCapability>(UnsupportedCapability::TestSetjmp),
{
    Err(UnsupportedCapability::TestSetjmp)
}

/// Indirect-call trampoline; never serviced.
pub fn emscripten_invoke_vi(_0: i32, _1: i32) -> (r: Result<(), UnsupportedCapability>)
    ensures
        r == Err::<(), UnsupportedCapability>(UnsupportedCapability::InvokeVi),
{
    Err(UnsupportedCapability::InvokeVi)
}

/// Indirect-call trampoline; never serviced.
pub fn emscripten_invoke_iii(_0: i32, _1: i32, _2: i32) -> (r: Result<
    i32,
    UnsupportedCapability,
>)
    ensures
        r == Err::<i32, UnsupportedCapability>(UnsupportedCapability::InvokeIii),
{
    Err(UnsupportedCapability::InvokeIii)
}

/// Temporary-return-register store; never serviced.
#[allow(non_snake_case)]
pub fn emscripten_setTempRet0(_value: i32) -> (r: Result<(), UnsupportedCapability>)
    ensures
        r == Err::<(), UnsupportedCapability>(UnsupportedCapability::SetTempRet0),
{
    Err(UnsupportedCapability::SetTempRet0)
}

/// Temporary-return-register load; never serviced.
#[allow(non_snake_case)]
pub fn emscripten_getTempRet0() -> (r: Result<i32, UnsupportedCapability>)
    ensures
        r == Err::<i32, UnsupportedCapability>(UnsupportedCapability::GetTempRet0),
{
    Err(UnsupportedCapability::GetTempRet0)
}

/// File-descriptor read primitive; never serviced.
pub fn w_fd_read(_0: i32, _1: i32, _2: i32, _3: i32) -> (r: Result<i32, UnsupportedCapability>)
    ensures
        r == Err::<i32, UnsupportedCapability>(UnsupportedCapability::FdRead),
{
    Err(UnsupportedCapability::FdRead)
}

/// File-descriptor seek primitive; never serviced.
pub fn w_fd_seek(_0: i32, _1: i64, _2: i32, _3: i32) -> (r: Result<i32, UnsupportedCapability>)
    ensures
        r == Err::<i32, UnsupportedCapability>(UnsupportedCapability::FdSeek),
{
    Err(UnsupportedCapability::FdSeek)
}

} // verus!
