use vstd::prelude::*;
use vstd::string::StringExecFns;

use crate::utils::{args_view, cmd_is, Cmd};

verus! {

/// The patch engine: it rewrites an executable's dynamic-loader reference and
/// runtime library search path to point at a library directory, in one
/// external invocation that the caller runs.
pub struct Patching;

/// The arguments of the patch invocation: set the interpreter to the dynamic
/// loader inside the library directory, set the runtime search path to that
/// directory, and name the executable, all in a single invocation.
pub open spec fn patch_args(parent: Seq<char>, exec_path: Seq<char>) -> Seq<Seq<char>> {
    seq![
        "--set-interpreter"@,
        parent + "/ld-linux-x86-64.so.2"@,
        "--set-rpath"@,
        parent,
        exec_path,
    ]
}

impl Patching {
    pub fn new() -> (r: Self) {
        Patching
    }

    /// The external command that patches the executable: one `patchelf`
    /// invocation rewriting the interpreter and the search path together.
    pub fn patch(&self, parent: &str, exec_path: &str) -> (r: Cmd)
        ensures
            cmd_is(r, "patchelf"@, patch_args(parent@, exec_path@)),
    {
        let ld_path = String::from_str(parent).concat("/ld-linux-x86-64.so.2");
        let mut args: Vec<String> = Vec::new();
        args.push(String::from_str("--set-interpreter"));
        args.push(ld_path);
        args.push(String::from_str("--set-rpath"));
        args.push(String::from_str(parent));
        args.push(String::from_str(exec_path));
        let c = Cmd { program: String::from_str("patchelf"), args };
        proof {
            assert(args_view(c) =~= patch_args(parent@, exec_path@));
        }
        c
    }

    /// The context message attached when the patch command fails: it names
    /// the executable and hints that the external patch tool must be present.
    pub fn patch_context(&self, exec_path: &str) -> (r: String)
        ensures
            r@ == "Failed to patch "@ + exec_path@
                + ". Please make sure patchelf is installed properly."@,
    {
        String::from_str("Failed to patch ").concat(exec_path).concat(
            ". Please make sure patchelf is installed properly.",
        )
    }
}

} // verus!
