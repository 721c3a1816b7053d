use systemapi_host::Capability;
use systemapi_host::HostError;
use systemapi_host::Platform;
use systemapi_host::ProbeOutcome;
use systemapi_host::ScalarCallEvent;
use systemapi_host::TextCallEvent;
use systemapi_host::calculate_factorial;
use systemapi_host::candidate_paths;
use systemapi_host::first_loaded;
use systemapi_host::get_computer_name;
use systemapi_host::get_process_id;
use systemapi_host::get_total_memory;
use systemapi_host::library_file_name;
use systemapi_host::load_failure_message;
use systemapi_host::locate;
use systemapi_host::platform_name;
use systemapi_host::symbol_name;

#[test]
fn candidate_paths_windows_order() {
    let paths = candidate_paths(Platform::Windows, &Some(String::from("C:/app")));
    assert_eq!(paths.len(), 4);
    assert_eq!(paths[0], "C:/app/systemapi.dll");
    assert_eq!(paths[1], "C:/app/resources/systemapi.dll");
    assert_eq!(paths[2], "C:/app/../Resources/systemapi.dll");
    assert_eq!(paths[3], "../cpp_cross_platform/build/bin/systemapi.dll");
}

#[test]
fn candidate_paths_macos_order() {
    let paths = candidate_paths(Platform::MacOs, &Some(String::from("/Applications/App.app/Contents/MacOS")));
    assert_eq!(paths.len(), 4);
    assert_eq!(paths[0], "/Applications/App.app/Contents/MacOS/libsystemapi.dylib");
    assert_eq!(paths[1], "/Applications/App.app/Contents/MacOS/resources/libsystemapi.dylib");
    assert_eq!(paths[2], "/Applications/App.app/Contents/MacOS/../Resources/libsystemapi.dylib");
    assert_eq!(paths[3], "../cpp_cross_platform/build/lib/libsystemapi.dylib");
}

#[test]
fn candidate_paths_linux_order() {
    let paths = candidate_paths(Platform::Linux, &Some(String::from("/opt/app")));
    assert_eq!(paths.len(), 4);
    assert_eq!(paths[0], "/opt/app/libsystemapi.so");
    assert_eq!(paths[1], "/opt/app/resources/libsystemapi.so");
    assert_eq!(paths[2], "/opt/app/../Resources/libsystemapi.so");
    assert_eq!(paths[3], "../cpp_cross_platform/build/lib/libsystemapi.so");
}

#[test]
fn candidate_paths_without_exe_dir() {
    let paths = candidate_paths(Platform::Linux, &None);
    assert_eq!(paths.len(), 1);
    assert_eq!(paths[0], "../cpp_cross_platform/build/lib/libsystemapi.so");
}

#[test]
fn file_names_follow_platform_convention() {
    assert_eq!(library_file_name(Platform::Windows), "systemapi.dll");
    assert_eq!(library_file_name(Platform::MacOs), "libsystemapi.dylib");
    assert_eq!(library_file_name(Platform::Linux), "libsystemapi.so");
    assert!(library_file_name(Platform::Windows).ends_with(".dll"));
    assert!(library_file_name(Platform::MacOs).starts_with("lib"));
    assert!(library_file_name(Platform::MacOs).ends_with(".dylib"));
    assert!(library_file_name(Platform::Linux).starts_with("lib"));
    assert!(library_file_name(Platform::Linux).ends_with(".so"));
}

#[test]
fn platform_query_always_succeeds() {
    assert_eq!(platform_name(Platform::Windows), "windows");
    assert_eq!(platform_name(Platform::MacOs), "macos");
    assert_eq!(platform_name(Platform::Linux), "linux");
}

#[test]
fn first_loaded_prefers_earliest() {
    let outcomes = vec![
        ProbeOutcome::Missing,
        ProbeOutcome::LoadFailed,
        ProbeOutcome::Loaded,
        ProbeOutcome::Loaded,
    ];
    assert_eq!(first_loaded(&outcomes), Some(2));
}

#[test]
fn first_loaded_none_when_nothing_loads() {
    assert_eq!(first_loaded(&vec![]), None);
    let all_missing = vec![
        ProbeOutcome::Missing,
        ProbeOutcome::Missing,
        ProbeOutcome::Missing,
        ProbeOutcome::Missing,
    ];
    assert_eq!(first_loaded(&all_missing), None);
    let mixed = vec![ProbeOutcome::Missing, ProbeOutcome::LoadFailed];
    assert_eq!(first_loaded(&mixed), None);
}

#[test]
fn locate_picks_first_loaded_candidate() {
    let outcomes = vec![ProbeOutcome::Missing, ProbeOutcome::Loaded];
    assert_eq!(locate(Platform::Linux, &outcomes), Ok(1));
}

#[test]
fn locate_fails_when_no_candidate_exists() {
    let all_missing = vec![
        ProbeOutcome::Missing,
        ProbeOutcome::Missing,
        ProbeOutcome::Missing,
        ProbeOutcome::Missing,
    ];
    let r = locate(Platform::Linux, &all_missing);
    let message = r.unwrap_err();
    assert!(message.contains("libsystemapi.so"));
    assert_eq!(message, load_failure_message(Platform::Linux));
    // The process stays degraded but alive: the platform query still works.
    assert_eq!(platform_name(Platform::Linux), "linux");
}

#[test]
fn load_failure_message_names_expected_file() {
    let msg = load_failure_message(Platform::Linux);
    assert!(msg.contains("libsystemapi.so"));
    assert_eq!(
        msg,
        "Failed to load library 'libsystemapi.so' from any location.\n\n\
         For development, make sure to build the C++ library first:\n\
         cd cpp_cross_platform && mkdir build && cd build && cmake .. && cmake --build ."
    );
    assert!(load_failure_message(Platform::Windows).contains("systemapi.dll"));
    assert!(load_failure_message(Platform::MacOs).contains("libsystemapi.dylib"));
}

#[test]
fn symbol_names_match_native_abi() {
    assert_eq!(symbol_name(Capability::ComputerName), "GetComputerNameString");
    assert_eq!(symbol_name(Capability::TotalMemory), "GetTotalPhysicalMemory");
    assert_eq!(symbol_name(Capability::ProcessId), "GetCurrentProcessID");
    assert_eq!(symbol_name(Capability::Factorial), "CalculateFactorial");
}

#[test]
fn absent_handle_reports_not_loaded_everywhere() {
    let r = get_computer_name(TextCallEvent::LibraryAbsent);
    assert!(matches!(r, Err(HostError::NotLoaded)));
    assert_eq!(r.unwrap_err().message(), "Library not loaded");

    let r = get_total_memory(ScalarCallEvent::LibraryAbsent);
    assert!(matches!(r, Err(HostError::NotLoaded)));
    assert_eq!(r.unwrap_err().message(), "Library not loaded");

    let r = get_process_id(ScalarCallEvent::LibraryAbsent);
    assert!(matches!(r, Err(HostError::NotLoaded)));

    let r = calculate_factorial(ScalarCallEvent::LibraryAbsent);
    assert!(matches!(r, Err(HostError::NotLoaded)));
}

#[test]
fn missing_export_names_the_symbol() {
    let r = get_computer_name(TextCallEvent::SymbolMissing {
        diagnostic: String::from("undefined symbol"),
    });
    let err = r.unwrap_err();
    let msg = err.message();
    assert!(msg.contains("GetComputerNameString"));
    assert!(msg.contains("undefined symbol"));
    assert_eq!(msg, "Symbol 'GetComputerNameString' not found: undefined symbol");
}

#[test]
fn missing_export_leaves_other_capabilities_unaffected() {
    let broken = get_computer_name(TextCallEvent::SymbolMissing {
        diagnostic: String::from("undefined symbol"),
    });
    assert!(matches!(broken, Err(HostError::SymbolNotFound { .. })));
    let fine = get_total_memory(ScalarCallEvent::Returned { value: 8 * 1024 * 1024 * 1024 });
    assert_eq!(fine.unwrap(), 8 * 1024 * 1024 * 1024);
    let pid = get_process_id(ScalarCallEvent::Returned { value: 4242 });
    assert_eq!(pid.unwrap(), 4242);
}

#[test]
fn failing_text_call_reports_generic_failure() {
    let garbage = vec![0x80u8, 0xff, 0x41, 0x00, 0x51];
    let r = get_computer_name(TextCallEvent::Completed {
        succeeded: false,
        buffer: garbage,
    });
    assert!(matches!(r, Err(HostError::CallFailed)));
    assert_eq!(r.unwrap_err().message(), "Failed to get computer name");
}

#[test]
fn successful_text_call_decodes_buffer_prefix() {
    let mut buffer = vec![0u8; 256];
    for (i, b) in b"myhost".iter().enumerate() {
        buffer[i] = *b;
    }
    buffer[7] = b'#';
    let r = get_computer_name(TextCallEvent::Completed {
        succeeded: true,
        buffer,
    });
    assert_eq!(r.unwrap(), "myhost");
}

#[test]
fn factorial_value_passes_through() {
    let r = calculate_factorial(ScalarCallEvent::Returned { value: 120 });
    assert_eq!(r.unwrap(), 120);
}

#[test]
fn factorial_boundary_value_passes_through_without_crash() {
    let r = calculate_factorial(ScalarCallEvent::Returned { value: 0 });
    assert_eq!(r.unwrap(), 0);
    let r = calculate_factorial(ScalarCallEvent::Returned { value: u64::MAX });
    assert_eq!(r.unwrap(), u64::MAX);
}
