use vstd::prelude::*;
use vstd::string::StringExecFns;

use crate::error::{InternalError, InternalResult};

verus! {

/// The parsed command line: one subcommand.
pub struct PurinArgs {
    pub subcommand: PurinSubCommand,
}

/// The command surface of the tool: build a version, remove one from the
/// cache, delete all cached state, install a version's libraries into a
/// directory, list the cached versions, or patch an executable.
pub enum PurinSubCommand {
    Build { version: String, force: bool, rebuild_image: bool },
    Rm { version: String },
    Clean,
    Install {
        version: String,
        force: bool,
        rebuild_image: bool,
        dir: Option<String>,
        lib: Option<Vec<String>>,
    },
    List,
    Patch {
        version: String,
        executable: String,
        force: bool,
        rebuild_image: bool,
        lib: Option<Vec<String>>,
    },
}

/// Checks an install destination the caller named: the directory must already
/// exist; it is never created.
pub fn check_install_dir(dir: &str, is_dir: bool) -> (r: InternalResult<()>)
    ensures
        r is Ok <==> is_dir,
        r matches Err(e) ==> e matches InternalError::Common(m) && m@ == "The directory \""@
            + dir@ + "\" does not exist."@,
{
    if is_dir {
        Ok(())
    } else {
        Err(
            InternalError::Common(
                String::from_str("The directory \"").concat(dir).concat("\" does not exist."),
            ),
        )
    }
}

/// Checks a patch target: it must be a regular file and not a symbolic link.
pub fn check_patch_target(executable: &str, is_file: bool, is_symlink: bool) -> (r: InternalResult<
    (),
>)
    ensures
        r is Ok <==> is_file && !is_symlink,
        r matches Err(e) ==> e matches InternalError::Common(m) && m@ == "\""@ + executable@
            + "\" is not a file."@,
{
    if is_file && !is_symlink {
        Ok(())
    } else {
        Err(
            InternalError::Common(
                String::from_str("\"").concat(executable).concat("\" is not a file."),
            ),
        )
    }
}

} // verus!
