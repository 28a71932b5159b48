use rustjay::ndi_runtime::{
    first_runtime_dir, init, is_available, runtime_dir, runtime_dll, runtime_search, RUNTIME_DIR_COUNT,
};

#[test]
fn test_init_does_not_panic() {
    // This should not panic on any platform
    let result = init();
    assert!(result.is_ok());
}

#[test]
fn test_is_available() {
    // This should not panic
    let available = is_available();
    println!("NDI available: {}", available);
    assert!(available);
}

#[test]
fn runtime_directories_are_tried_in_order() {
    assert_eq!(RUNTIME_DIR_COUNT, 8);
    assert_eq!(runtime_dir(0), "C:\\Program Files\\NDI\\NDI 6 Runtime\\v6");
    assert_eq!(runtime_dir(7), "C:\\Program Files\\NDI\\NDI 5 SDK\\Bin\\x64");
    assert_eq!(runtime_dll(), "Processing.NDI.Lib.x64.dll");
    assert_eq!(first_runtime_dir(&[false, false, true, true]), Some(2));
    assert_eq!(first_runtime_dir(&[false; 8]), None);
}

#[test]
fn runtime_search_reports_every_directory_searched() {
    let mut usable = [false; 8];
    usable[3] = true;
    usable[5] = true;
    assert_eq!(runtime_search(&usable), Ok(3));
    let expected = "NDI runtime DLL not found. Searched paths:\n\
C:\\Program Files\\NDI\\NDI 6 Runtime\\v6\n\
C:\\Program Files (x86)\\NDI\\NDI 6 Runtime\\v6\n\
C:\\Program Files\\NDI\\NDI 5 Runtime\\v5\n\
C:\\Program Files (x86)\\NDI\\NDI 5 Runtime\\v5\n\
C:\\Program Files\\NDI\\NDI 4 Runtime\\v4\n\
C:\\Program Files (x86)\\NDI\\NDI 4 Runtime\\v4\n\
C:\\Program Files\\NDI\\NDI 6 SDK\\Bin\\x64\n\
C:\\Program Files\\NDI\\NDI 5 SDK\\Bin\\x64\n\n\
Please install NDI Tools from https://ndi.tv/tools/";
    assert_eq!(runtime_search(&[false; 8]), Err(expected.to_string()));
}
