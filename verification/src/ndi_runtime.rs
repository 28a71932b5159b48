//! NDI runtime discovery.
//!
//! On Linux and macOS the NDI runtime lives in the standard library search
//! path and the dynamic linker reports problems when it is loaded, so
//! initialisation has nothing to do and the runtime is taken to be present.
//! Windows installs it in a versioned directory that has to be added to
//! the DLL search path: the directories below are tried in order and the
//! first that holds the runtime DLL is used; when none does, the error
//! lists every directory searched.
use vstd::prelude::*;
use crate::text::push_str;

verus! {

/// Prepare the NDI runtime search path. Succeeds on this platform, where
/// the runtime is found through the standard library paths.
pub fn init() -> (r: Result<(), String>)
    ensures
        r is Ok,
{
    init_internal()
}

fn init_internal() -> (r: Result<(), String>)
    ensures
        r is Ok,
{
    Ok(())
}

/// Whether the NDI runtime can be used, without changing any search path.
/// On this platform the runtime is assumed present.
pub fn is_available() -> (r: bool)
    ensures
        r,
{
    is_available_internal()
}

fn is_available_internal() -> (r: bool)
    ensures
        r,
{
    true
}

/// The runtime DLL looked for in each candidate directory.
pub fn runtime_dll() -> (r: &'static str)
    ensures
        r@ == "Processing.NDI.Lib.x64.dll"@,
{
    "Processing.NDI.Lib.x64.dll"
}

/// Number of candidate runtime directories.
pub const RUNTIME_DIR_COUNT: usize = 8;

/// Candidate runtime directory `i`, most common first: the NDI 6, 5 and 4
/// runtimes (64- then 32-bit Program Files), then the NDI 6 and 5 SDKs.
pub open spec fn spec_runtime_dir(i: int) -> Seq<char> {
    if i == 0 {
        "C:\\Program Files\\NDI\\NDI 6 Runtime\\v6"@
    } else if i == 1 {
        "C:\\Program Files (x86)\\NDI\\NDI 6 Runtime\\v6"@
    } else if i == 2 {
        "C:\\Program Files\\NDI\\NDI 5 Runtime\\v5"@
    } else if i == 3 {
        "C:\\Program Files (x86)\\NDI\\NDI 5 Runtime\\v5"@
    } else if i == 4 {
        "C:\\Program Files\\NDI\\NDI 4 Runtime\\v4"@
    } else if i == 5 {
        "C:\\Program Files (x86)\\NDI\\NDI 4 Runtime\\v4"@
    } else if i == 6 {
        "C:\\Program Files\\NDI\\NDI 6 SDK\\Bin\\x64"@
    } else {
        "C:\\Program Files\\NDI\\NDI 5 SDK\\Bin\\x64"@
    }
}

/// Candidate runtime directory `index`.
pub fn runtime_dir(index: usize) -> (r: &'static str)
    requires
        index < RUNTIME_DIR_COUNT,
    ensures
        r@ == spec_runtime_dir(index as int),
{
    match index {
        0 => "C:\\Program Files\\NDI\\NDI 6 Runtime\\v6",
        1 => "C:\\Program Files (x86)\\NDI\\NDI 6 Runtime\\v6",
        2 => "C:\\Program Files\\NDI\\NDI 5 Runtime\\v5",
        3 => "C:\\Program Files (x86)\\NDI\\NDI 5 Runtime\\v5",
        4 => "C:\\Program Files\\NDI\\NDI 4 Runtime\\v4",
        5 => "C:\\Program Files (x86)\\NDI\\NDI 4 Runtime\\v4",
        6 => "C:\\Program Files\\NDI\\NDI 6 SDK\\Bin\\x64",
        _ => "C:\\Program Files\\NDI\\NDI 5 SDK\\Bin\\x64",
    }
}

/// The directory to use, given for each candidate (in order) whether it
/// holds the runtime DLL: the first that does, or `None`.
pub fn first_runtime_dir(dll_present: &[bool]) -> (r: Option<usize>)
    ensures
        match r {
            Some(i) => i < dll_present@.len() && dll_present@[i as int] && forall|j: int|
                0 <= j < i ==> !dll_present@[j],
            None => forall|j: int| 0 <= j < dll_present@.len() ==> !dll_present@[j],
        },
{
    let mut i: usize = 0;
    while i < dll_present.len()
        invariant
            i <= dll_present@.len(),
            forall|j: int| 0 <= j < i ==> !dll_present@[j],
        decreases dll_present@.len() - i,
    {
        if dll_present[i] {
            return Some(i);
        }
        i = i + 1;
    }
    None
}

/// The first `n` candidate directories, one per line.
pub open spec fn joined_dirs(n: int) -> Seq<char>
    decreases n,
{
    if n <= 0 {
        Seq::empty()
    } else if n == 1 {
        spec_runtime_dir(0)
    } else {
        joined_dirs(n - 1) + "\n"@ + spec_runtime_dir(n - 1)
    }
}

/// The error reported when no candidate directory could be used: every
/// directory searched, one per line, and where to get the runtime.
pub open spec fn spec_not_found_message() -> Seq<char> {
    "NDI runtime DLL not found. Searched paths:\n"@ + joined_dirs(RUNTIME_DIR_COUNT as int)
        + "\n\nPlease install NDI Tools from https://ndi.tv/tools/"@
}

/// The error reported when no candidate directory could be used.
pub fn not_found_message() -> (m: String)
    ensures
        m@ == spec_not_found_message(),
{
    let mut m = String::new();
    push_str(&mut m, "NDI runtime DLL not found. Searched paths:\n");
    let ghost head = m@;
    let mut i: usize = 0;
    while i < RUNTIME_DIR_COUNT
        invariant
            i <= RUNTIME_DIR_COUNT,
            m@ == head + joined_dirs(i as int),
        decreases RUNTIME_DIR_COUNT - i,
    {
        if i > 0 {
            push_str(&mut m, "\n");
        }
        push_str(&mut m, runtime_dir(i));
        proof {
            if i == 0 {
                assert(joined_dirs(0) =~= Seq::<char>::empty());
                assert(head + joined_dirs(0) =~= head);
            } else {
                assert(head + joined_dirs(i + 1) =~= head + joined_dirs(i as int) + "\n"@
                    + spec_runtime_dir(i as int));
            }
        }
        i = i + 1;
    }
    push_str(&mut m, "\n\nPlease install NDI Tools from https://ndi.tv/tools/");
    proof {
        assert(m@ =~= spec_not_found_message());
    }
    m
}

/// The search for the runtime directory, given for each candidate in
/// order whether it could be used (it holds the runtime DLL and was taken
/// as DLL directory): the first such candidate, or, when there is none,
/// the error listing every directory searched.
pub fn runtime_search(usable: &[bool]) -> (r: Result<usize, String>)
    requires
        usable@.len() == RUNTIME_DIR_COUNT,
    ensures
        match r {
            Ok(i) => i < RUNTIME_DIR_COUNT && usable@[i as int] && forall|j: int|
                0 <= j < i ==> !usable@[j],
            Err(m) => m@ == spec_not_found_message() && forall|j: int|
                0 <= j < RUNTIME_DIR_COUNT ==> !usable@[j],
        },
{
    match first_runtime_dir(usable) {
        Some(i) => Ok(i),
        None => Err(not_found_message()),
    }
}

} // verus!
