use sandbox_bridge::stubs::{
    emscripten_getTempRet0, emscripten_invoke_iii, emscripten_invoke_vi, emscripten_saveSetjmp,
    emscripten_setTempRet0, emscripten_testSetjmp, w_fd_read, w_fd_seek, UnsupportedCapability,
};

#[test]
fn setjmp_emulation_stubs_fail() {
    assert_eq!(
        emscripten_saveSetjmp(0, 0, 0, 0),
        Err(UnsupportedCapability::SaveSetjmp)
    );
    assert_eq!(
        emscripten_testSetjmp(1, 2, 3),
        Err(UnsupportedCapability::TestSetjmp)
    );
}

#[test]
fn trampoline_stubs_fail() {
    assert_eq!(emscripten_invoke_vi(0, 0), Err(UnsupportedCapability::InvokeVi));
    assert_eq!(
        emscripten_invoke_iii(0, 0, 0),
        Err(UnsupportedCapability::InvokeIii)
    );
}

#[test]
fn temp_ret_stubs_fail() {
    assert_eq!(emscripten_setTempRet0(7), Err(UnsupportedCapability::SetTempRet0));
    assert_eq!(emscripten_getTempRet0(), Err(UnsupportedCapability::GetTempRet0));
}

#[test]
fn file_descriptor_stubs_fail() {
    assert_eq!(w_fd_read(0, 1, 2, 3), Err(UnsupportedCapability::FdRead));
    assert_eq!(w_fd_seek(0, 1, 2, 3), Err(UnsupportedCapability::FdSeek));
}

#[test]
fn capability_names_identify_the_import() {
    assert_eq!(UnsupportedCapability::SaveSetjmp.name(), "saveSetjmp");
    assert_eq!(UnsupportedCapability::TestSetjmp.name(), "testSetjmp");
    assert_eq!(UnsupportedCapability::InvokeVi.name(), "invoke_vi");
    assert_eq!(UnsupportedCapability::InvokeIii.name(), "invoke_iii");
    assert_eq!(UnsupportedCapability::Roundf.name(), "roundf");
    assert_eq!(UnsupportedCapability::SetTempRet0.name(), "setTempRet0");
    assert_eq!(UnsupportedCapability::GetTempRet0.name(), "getTempRet0");
    assert_eq!(UnsupportedCapability::FdRead.name(), "fd_read");
    assert_eq!(UnsupportedCapability::FdSeek.name(), "fd_seek");
}
