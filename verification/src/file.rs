use vstd::prelude::*;
use vstd::string::StringExecFns;

use crate::error::{InternalError, InternalResult};
use crate::log::LogSystem;
use crate::utils::texts_of;
use crate::version::glibc_list_spec;
use crate::version::get_glibc_list as list_versions;

verus! {

/// The artifact cache: it owns the configuration root directory and decides
/// every path, name and copy below it. The filesystem operations themselves
/// stay with the caller, which hands their observations in as plain values.
pub struct FileManager {
    config_dir: String,
}

/// Relies on home::home_dir: the path of the current user's home directory,
/// read from the environment or the operating system, rendered as a string;
/// `None` when no home directory is known or its path is not valid Unicode.
/// Nothing is promised of the value.
#[verifier::external_body]
fn home_dir_string() -> (r: Option<String>) {
    home::home_dir().and_then(|p| p.to_str().map(|s| s.to_string()))
}

/// The cache entry directory of a version: `<root>/glibc-<version>`.
pub open spec fn glibc_dir_of(root: Seq<char>, version: Seq<char>) -> Seq<char> {
    root + "/glibc-"@ + version
}

/// The path of a library under a cache entry's internal `lib` directory.
pub open spec fn lib_path_of(root: Seq<char>, version: Seq<char>, name: Seq<char>) -> Seq<char> {
    glibc_dir_of(root, version) + "/lib/"@ + name
}

/// The library names every install receives before any caller extras: the
/// primary C runtime shared object and the dynamic loader.
pub open spec fn full_lib_list(extra: Seq<Seq<char>>) -> Seq<Seq<char>> {
    seq!["libc.so.6"@, "ld-linux-x86-64.so.2"@] + extra
}

/// What the caller observed of one library name under the cache entry's
/// `lib` directory: the path is a symbolic link (with what resolving it one
/// level gave), or it is not one (and is, or is not, a regular file).
pub enum LibProbe {
    Symlink { link: LinkProbe },
    NotSymlink { is_file: bool },
}

/// What resolving a symbolic link one level gave: the file name of its target
/// together with whether that target is a regular file in the same directory;
/// a target with no file name; a target name that is not valid Unicode; or an
/// operating-system error, with its message.
pub enum LinkProbe {
    Resolved { name: String, is_file: bool },
    NoFileName,
    NotUnicode,
    ReadFailed { message: String },
}

/// One copy an install performs: the source path under the cache entry, and
/// the (unversioned) name the file receives in the destination directory.
pub struct CopyStep {
    pub src: String,
    pub dest_name: String,
}

/// Whether one probed library resolves to a regular file to copy.
pub open spec fn probe_ok(p: LibProbe) -> bool {
    match p {
        LibProbe::Symlink { link } => link matches LinkProbe::Resolved { is_file: true, .. },
        LibProbe::NotSymlink { is_file } => is_file,
    }
}

/// The source file name of a probed library: the link's target for a symbolic
/// link, the library's own name otherwise.
pub open spec fn probe_src_name(p: LibProbe, lib: Seq<char>) -> Seq<char> {
    match p {
        LibProbe::Symlink { link } => match link {
            LinkProbe::Resolved { name, is_file } => name@,
            _ => lib,
        },
        LibProbe::NotSymlink { is_file } => lib,
    }
}

/// The message naming a library that the cache entry does not hold.
pub open spec fn lib_missing_msg(lib: Seq<char>) -> Seq<char> {
    "Failed to find "@ + lib + "."@
}

/// The message naming a destination directory that does not exist.
pub open spec fn dest_missing_msg(version: Seq<char>) -> Seq<char> {
    "A destination of the binary of glibc "@ + version + " does not exist."@
}

/// The error one failed probe produces.
pub open spec fn is_probe_err(
    e: InternalError,
    p: LibProbe,
    lib: Seq<char>,
    src_path: Seq<char>,
) -> bool {
    match p {
        LibProbe::Symlink { link } => match link {
            LinkProbe::Resolved { name, is_file } => {
                &&& !is_file
                &&& e matches InternalError::Common(m)
                &&& m@ == lib_missing_msg(lib)
            },
            LinkProbe::NoFileName => {
                &&& e matches InternalError::Common(m)
                &&& m@ == "Failed to get the destination of "@ + src_path
            },
            LinkProbe::NotUnicode => {
                &&& e matches InternalError::Common(m)
                &&& m@ == "The path is not valid in Unicode."@
            },
            LinkProbe::ReadFailed { message } => {
                &&& e matches InternalError::IOError(m)
                &&& m@ == message@
            },
        },
        LibProbe::NotSymlink { is_file } => {
            &&& !is_file
            &&& e matches InternalError::Common(m)
            &&& m@ == lib_missing_msg(lib)
        },
    }
}

/// One planned copy is right for its library and probe: it copies the
/// resolved source file out of the entry's `lib` directory under the
/// originally requested name.
pub open spec fn step_is(
    s: CopyStep,
    root: Seq<char>,
    version: Seq<char>,
    lib: Seq<char>,
    p: LibProbe,
) -> bool {
    s.dest_name@ == lib && s.src@ == lib_path_of(root, version, probe_src_name(p, lib))
}

/// The default library names followed by the caller's extras, as one list.
pub fn lib_list(extra: &Vec<String>) -> (r: Vec<String>)
    ensures
        texts_of(r@) == full_lib_list(texts_of(extra@)),
{
    let mut v: Vec<String> = Vec::new();
    v.push(String::from_str("libc.so.6"));
    v.push(String::from_str("ld-linux-x86-64.so.2"));
    let mut i: usize = 0;
    while i < extra.len()
        invariant
            i <= extra.len(),
            v@.len() == 2 + i,
            v@[0]@ == "libc.so.6"@,
            v@[1]@ == "ld-linux-x86-64.so.2"@,
            forall|j: int| 0 <= j < i ==> (#[trigger] v@[2 + j])@ == extra@[j]@,
        decreases extra.len() - i,
    {
        v.push(extra[i].clone());
        i = i + 1;
    }
    proof {
        assert forall|q: int|
            0 <= q < v@.len() implies texts_of(v@)[q] == full_lib_list(texts_of(extra@))[q] by {
            if q >= 2 {
                assert(v@[2 + (q - 2)]@ == extra@[q - 2]@);
            }
        }
        assert(texts_of(v@) =~= full_lib_list(texts_of(extra@)));
    }
    v
}

/// What removing a cached version does: delete its directory when it exists;
/// otherwise only report that the version is not found, leaving the cache as
/// it is.
pub enum RmAction {
    Remove,
    NotFound,
}

/// Decides a removal: the cache entry is deleted exactly when it exists.
pub fn rm_decision(entry_exists: bool) -> (r: RmAction)
    ensures
        r is Remove <==> entry_exists,
{
    if entry_exists {
        RmAction::Remove
    } else {
        RmAction::NotFound
    }
}

/// The console line reporting a version that is not cached.
pub fn not_found_msg(version: &str) -> (r: String)
    ensures
        r@ == "Glibc "@ + version@ + " is not found."@,
{
    String::from_str("Glibc ").concat(version).concat(" is not found.")
}

impl FileManager {
    /// The configuration root directory.
    pub closed spec fn config_dir_spec(&self) -> Seq<char> {
        self.config_dir@
    }

    /// Builds the cache rooted under `<home>/.config/purin`; fails exactly
    /// when no home directory is known. The caller creates the directory on
    /// disk before using it.
    pub fn new() -> (r: InternalResult<FileManager>)
        ensures
            r matches Ok(fm) ==> exists|h: Seq<char>|
                fm.config_dir_spec() == h + "/.config/purin"@,
            r matches Err(e) ==> e matches InternalError::Common(m) && m@
                == "Failed to get the home directory."@,
    {
        match home_dir_string() {
            Some(h) => {
                let ghost hv = h@;
                let dir = h.concat("/.config/purin");
                let fm = FileManager { config_dir: dir };
                proof {
                    assert(fm.config_dir_spec() == hv + "/.config/purin"@);
                }
                Ok(fm)
            },
            None => Err(
                InternalError::Common(String::from_str("Failed to get the home directory.")),
            ),
        }
    }

    /// Builds the cache over an explicit configuration root, for callers that
    /// substitute an isolated root.
    pub fn from_config_dir(config_dir: String) -> (r: FileManager)
        ensures
            r.config_dir_spec() == config_dir@,
    {
        FileManager { config_dir }
    }

    /// The configuration root directory, as a path string.
    pub fn config_root(&self) -> (r: &String)
        ensures
            r@ == self.config_dir_spec(),
    {
        &self.config_dir
    }

    /// The cache entry directory of a version.
    pub fn get_glibc_dir(&self, version: &str) -> (r: String)
        ensures
            r@ == glibc_dir_of(self.config_dir_spec(), version@),
    {
        self.config_dir.clone().concat("/glibc-").concat(version)
    }

    /// The path of the materialized environment definition file.
    pub fn get_docker_file_path(&self) -> (r: String)
        ensures
            r@ == self.config_dir_spec() + "/Dockerfile"@,
    {
        self.config_dir.clone().concat("/Dockerfile")
    }

    /// The two library names every install receives.
    pub fn get_default_lib_list(&self) -> (r: Vec<&'static str>)
        ensures
            r@.len() == 2,
            r@[0]@ == "libc.so.6"@,
            r@[1]@ == "ld-linux-x86-64.so.2"@,
    {
        let mut v: Vec<&'static str> = Vec::new();
        v.push("libc.so.6");
        v.push("ld-linux-x86-64.so.2");
        v
    }

    /// Decides a clean: the configuration root is removed when it exists;
    /// otherwise the operation fails as already cleaned, changing nothing.
    pub fn clean(&self, root_exists: bool) -> (r: InternalResult<()>)
        ensures
            r is Ok <==> root_exists,
            r matches Err(e) ==> e matches InternalError::Common(m) && m@ == "Already cleaned."@,
    {
        if root_exists {
            Ok(())
        } else {
            Err(InternalError::Common(String::from_str("Already cleaned.")))
        }
    }

    /// Lists the cached versions among the given directory names, ascending
    /// by numeric major then minor version.
    pub fn get_glibc_list(&self, names: &Vec<String>) -> (r: Vec<String>)
        ensures
            texts_of(r@) == glibc_list_spec(texts_of(names@)),
    {
        list_versions(names)
    }

    /// Plans the copy of a version's libraries to a destination directory:
    /// the two default libraries and the caller's extras, each resolved one
    /// symbolic-link level to a regular file. The plan fails, with no step to
    /// perform, when the destination directory does not exist or any library
    /// of the list is missing; the error names what is missing.
    pub fn copy_to(
        &self,
        version: &str,
        dest_exists: bool,
        lib: &Vec<String>,
        probes: &Vec<LibProbe>,
    ) -> (r: InternalResult<Vec<CopyStep>>)
        requires
            probes@.len() == 2 + lib@.len(),
        ensures
            !dest_exists ==> (r matches Err(e) && e matches InternalError::IOError(m) && m@
                == dest_missing_msg(version@)),
            r is Ok <==> dest_exists && (forall|i: int|
                0 <= i < probes@.len() ==> probe_ok(#[trigger] probes@[i])),
            r matches Ok(steps) ==> {
                &&& steps@.len() == probes@.len()
                &&& forall|i: int|
                    0 <= i < steps@.len() ==> step_is(
                        #[trigger] steps@[i],
                        self.config_dir_spec(),
                        version@,
                        full_lib_list(texts_of(lib@))[i],
                        probes@[i],
                    )
            },
            r matches Err(e) ==> dest_exists ==> exists|i: int|
                {
                    &&& 0 <= i < probes@.len()
                    &&& !probe_ok(#[trigger] probes@[i])
                    &&& forall|j: int| 0 <= j < i ==> probe_ok(#[trigger] probes@[j])
                    &&& is_probe_err(
                        e,
                        probes@[i],
                        full_lib_list(texts_of(lib@))[i],
                        lib_path_of(
                            self.config_dir_spec(),
                            version@,
                            full_lib_list(texts_of(lib@))[i],
                        ),
                    )
                },
    {
        if !dest_exists {
            let msg = String::from_str("A destination of the binary of glibc ").concat(
                version,
            ).concat(" does not exist.");
            return Err(InternalError::IOError(msg));
        }
        let libs = lib_list(lib);
        let glibc_dir = self.get_glibc_dir(version);
        let lib_dir = glibc_dir.concat("/lib/");
        let mut steps: Vec<CopyStep> = Vec::new();
        let mut i: usize = 0;
        proof {
            assert(texts_of(libs@).len() == libs@.len());
            assert(full_lib_list(texts_of(lib@)).len() == 2 + lib@.len());
        }
        while i < libs.len()
            invariant
                dest_exists,
                probes@.len() == libs@.len(),
                libs@.len() == 2 + lib@.len(),
                texts_of(libs@) == full_lib_list(texts_of(lib@)),
                lib_dir@ == glibc_dir_of(self.config_dir_spec(), version@) + "/lib/"@,
                i <= libs.len(),
                steps@.len() == i,
                forall|j: int| 0 <= j < i ==> probe_ok(#[trigger] probes@[j]),
                forall|j: int|
                    0 <= j < i ==> step_is(
                        #[trigger] steps@[j],
                        self.config_dir_spec(),
                        version@,
                        texts_of(libs@)[j],
                        probes@[j],
                    ),
            decreases libs.len() - i,
        {
            let ghost gi = i as int;
            let ghost gname = texts_of(libs@)[gi];
            let ghost gpath = lib_path_of(self.config_dir_spec(), version@, gname);
            proof {
                assert(gname == libs@[gi]@);
            }
            let lib_name = &libs[i];
            match &probes[i] {
                LibProbe::Symlink { link } => {
                    match link {
                        LinkProbe::Resolved { name, is_file } => {
                            LogSystem::log(
                                lib_name.clone().concat(" is a symlink to ").concat(
                                    name.as_str(),
                                ).concat("."),
                            );
                            if *is_file {
                                let step = CopyStep {
                                    src: lib_dir.clone().concat(name.as_str()),
                                    dest_name: lib_name.clone(),
                                };
                                proof {
                                    assert(step_is(
                                        step,
                                        self.config_dir_spec(),
                                        version@,
                                        gname,
                                        probes@[gi],
                                    ));
                                }
                                steps.push(step);
                            } else {
                                let e = InternalError::Common(
                                    String::from_str("Failed to find ").concat(
                                        lib_name.as_str(),
                                    ).concat("."),
                                );
                                proof {
                                    assert(!probe_ok(probes@[gi]));
                                    assert(is_probe_err(e, probes@[gi], gname, gpath));
                                }
                                return Err(e);
                            }
                        },
                        LinkProbe::NoFileName => {
                            let e = InternalError::Common(
                                String::from_str("Failed to get the destination of ").concat(
                                    lib_dir.as_str(),
                                ).concat(lib_name.as_str()),
                            );
                            proof {
                                assert(!probe_ok(probes@[gi]));
                                assert(e->Common_0@ =~= "Failed to get the destination of "@
                                    + gpath);
                                assert(is_probe_err(e, probes@[gi], gname, gpath));
                            }
                            return Err(e);
                        },
                        LinkProbe::NotUnicode => {
                            let e = InternalError::Common(
                                String::from_str("The path is not valid in Unicode."),
                            );
                            proof {
                                assert(!probe_ok(probes@[gi]));
                                assert(is_probe_err(e, probes@[gi], gname, gpath));
                            }
                            return Err(e);
                        },
                        LinkProbe::ReadFailed { message } => {
                            let e = InternalError::IOError(message.clone());
                            proof {
                                assert(!probe_ok(probes@[gi]));
                                assert(is_probe_err(e, probes@[gi], gname, gpath));
                            }
                            return Err(e);
                        },
                    }
                },
                LibProbe::NotSymlink { is_file } => {
                    if *is_file {
                        let step = CopyStep {
                            src: lib_dir.clone().concat(lib_name.as_str()),
                            dest_name: lib_name.clone(),
                        };
                        proof {
                            assert(step_is(
                                step,
                                self.config_dir_spec(),
                                version@,
                                gname,
                                probes@[gi],
                            ));
                        }
                        steps.push(step);
                    } else {
                        let e = InternalError::Common(
                            String::from_str("Failed to find ").concat(lib_name.as_str()).concat(
                                ".",
                            ),
                        );
                        proof {
                            assert(!probe_ok(probes@[gi]));
                            assert(is_probe_err(e, probes@[gi], gname, gpath));
                        }
                        return Err(e);
                    }
                },
            }
            i = i + 1;
        }
        Ok(steps)
    }
}

} // verus!
