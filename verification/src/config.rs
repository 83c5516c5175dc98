//! The helper's fixed configuration: the watched extension, the compiler
//! invocation, the served file paths, and the server address.
//!
//! All of these are compile-time constants of the tool; the functions here
//! pin their exact values so that callers and contracts can rely on them.

use vstd::prelude::*;

verus! {

/// The watched source language's file extension.
pub open spec fn source_extension() -> Seq<char> {
    "elm"@
}

/// The watched source language's file extension, as a string slice.
pub fn source_extension_str() -> (s: &'static str)
    ensures
        s@ == source_extension(),
{
    "elm"
}

/// The name of the external compiler executable, looked up on the search path.
pub fn compiler_program() -> (s: &'static str)
    ensures
        s@ == "elm"@,
{
    "elm"
}

/// The fixed argument list of a build invocation:
/// `make <entry file> --output=<bundle path>`.
pub fn compiler_args() -> (args: Vec<String>)
    ensures
        args@.len() == 3,
        args@[0]@ == "make"@,
        args@[1]@ == "./src/Main.elm"@,
        args@[2]@ == "--output=./public/elm.js"@,
{
    let mut args: Vec<String> = Vec::new();
    args.push("make".to_owned());
    args.push("./src/Main.elm".to_owned());
    args.push("--output=./public/elm.js".to_owned());
    args
}

/// The directory watched recursively for source changes.
pub fn watch_dir() -> (p: &'static str)
    ensures
        p@ == "./src"@,
{
    "./src"
}

/// The HTML shell file served at `/`.
pub fn html_shell_path() -> (p: &'static str)
    ensures
        p@ == "./public/index.html"@,
{
    "./public/index.html"
}

/// The compiled bundle file served at `/elm.js`.
pub fn bundle_path() -> (p: &'static str)
    ensures
        p@ == "./public/elm.js"@,
{
    "./public/elm.js"
}

/// The loopback address the server binds.
pub fn bind_address() -> (a: &'static str)
    ensures
        a@ == "127.0.0.1"@,
{
    "127.0.0.1"
}

/// The fixed TCP port the server binds.
pub fn server_port() -> (p: u16)
    ensures
        p == 4355,
{
    4355
}

/// The compiler's `--output=` argument names exactly the bundle file that the
/// server serves: the two components share that one file and nothing else.
pub proof fn lemma_compiler_writes_served_bundle()
    ensures
        "--output=./public/elm.js"@ == "--output="@ + "./public/elm.js"@,
{
    reveal_strlit("--output=./public/elm.js");
    reveal_strlit("--output=");
    reveal_strlit("./public/elm.js");
    assert("--output=./public/elm.js"@ =~= "--output="@ + "./public/elm.js"@);
}

} // verus!
