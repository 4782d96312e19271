use vstd::prelude::*;
use vstd::string::StringExecFns;

use vstd::pervasive::unreached;

use crate::error::InternalError;
use crate::file::{glibc_dir_of, FileManager};
use crate::log::LogSystem;
use crate::utils::{args_view, cmd_is, command_result, is_wrapped_err, texts_of, with_context, Cmd,
    CmdOutcome};
use crate::version::{dec_str, is_version_str, u32_to_string, validate_version};

verus! {

/// The manager of the build environment: it owns the fixed base image tag and
/// the reserved name of the one ephemeral build container.
pub struct GLibCBuilder {
    image_name: String,
    container_name: String,
}

/// The fetch URL of a version's source archive.
pub open spec fn source_url(v: Seq<char>) -> Seq<char> {
    "https://ftp.gnu.org/gnu/glibc/glibc-"@ + v + ".tar.xz"@
}

/// The file name of a version's source archive.
pub open spec fn source_name(v: Seq<char>) -> Seq<char> {
    "glibc-"@ + v + ".tar.xz"@
}

/// The in-container shell line that configures the build: fixed flags, fixed
/// compiler width, fixed install prefix.
pub open spec fn configure_cmd(v: Seq<char>) -> Seq<char> {
    "../glibc-"@ + v
        + "/configure --disable-werror --prefix=/build/out CC=\"gcc -m64\" CXX=\"g++ -m64\""@
}

fn source_url_string(version: &str) -> (r: String)
    ensures
        r@ == source_url(version@),
{
    String::from_str("https://ftp.gnu.org/gnu/glibc/glibc-").concat(version).concat(".tar.xz")
}

fn source_name_string(version: &str) -> (r: String)
    ensures
        r@ == source_name(version@),
{
    String::from_str("glibc-").concat(version).concat(".tar.xz")
}

fn configure_string(version: &str) -> (r: String)
    ensures
        r@ == configure_cmd(version@),
{
    String::from_str("../glibc-").concat(version).concat(
        "/configure --disable-werror --prefix=/build/out CC=\"gcc -m64\" CXX=\"g++ -m64\"",
    )
}

impl GLibCBuilder {
    /// The base image tag.
    pub closed spec fn image_spec(&self) -> Seq<char> {
        self.image_name@
    }

    /// The reserved container name.
    pub closed spec fn container_spec(&self) -> Seq<char> {
        self.container_name@
    }

    pub fn new() -> (r: Self)
        ensures
            r.image_spec() == "purin:latest"@,
            r.container_spec() == "purin-exec"@,
    {
        GLibCBuilder {
            image_name: String::from_str("purin:latest"),
            container_name: String::from_str("purin-exec"),
        }
    }

    /// The fetch URL of a version's source archive.
    pub fn get_glibc_source_url(&self, version: &str) -> (r: String)
        ensures
            r@ == source_url(version@),
    {
        source_url_string(version)
    }

    /// The file name of a version's source archive.
    pub fn get_glibc_source_name(&self, version: &str) -> (r: String)
        ensures
            r@ == source_name(version@),
    {
        source_name_string(version)
    }
}

/// The fixed in-environment build stages, in order: prepare the staging and
/// output directories, fetch the source archive, extract it, configure,
/// compile, and install.
pub open spec fn stage_count() -> int {
    7
}

/// The working directory inside the container of one stage.
pub open spec fn stage_workdir(i: int) -> Seq<char> {
    if i == 0 || i == 1 {
        "/"@
    } else if i == 2 || i == 3 {
        "/build"@
    } else {
        "/build/dest"@
    }
}

/// The program and arguments of one stage, run inside the container.
pub open spec fn stage_args(i: int, version: Seq<char>) -> Seq<Seq<char>> {
    if i == 0 {
        seq!["mkdir"@, "-p"@, "/build/dest"@]
    } else if i == 1 {
        seq!["mkdir"@, "-p"@, "/build/out"@]
    } else if i == 2 {
        seq!["wget"@, source_url(version)]
    } else if i == 3 {
        seq!["tar"@, "-xf"@, source_name(version)]
    } else if i == 4 {
        seq!["bash"@, "-c"@, configure_cmd(version)]
    } else if i == 5 {
        seq!["bash"@, "-c"@, "make -j `nproc`"@]
    } else {
        seq!["bash"@, "-c"@, "make install"@]
    }
}

/// The context message a stage's failure is wrapped with.
pub open spec fn stage_context(i: int) -> Seq<char> {
    if i == 0 || i == 1 {
        "Failed to create folders."@
    } else if i == 2 {
        "Failed to download a source."@
    } else if i == 3 {
        "Failed to extract a source."@
    } else if i == 4 {
        "Failed to configure the glibc."@
    } else if i == 5 {
        "Failed to build the glibc."@
    } else {
        "Failed to install the glibc to the container."@
    }
}

/// The arguments of a `docker container exec` invocation of one in-container
/// command, scoped to a working directory.
pub open spec fn exec_args(
    container: Seq<char>,
    workdir: Seq<char>,
    inner: Seq<Seq<char>>,
) -> Seq<Seq<char>> {
    seq!["container"@, "exec"@, "--tty"@, "--workdir"@, workdir, container] + inner
}

pub open spec fn images_args(image: Seq<char>) -> Seq<Seq<char>> {
    seq!["images"@, "-q"@, image]
}

pub open spec fn rmi_args(image: Seq<char>) -> Seq<Seq<char>> {
    seq!["rmi"@, "-f"@, image]
}

pub open spec fn build_args(dir: Seq<char>, image: Seq<char>) -> Seq<Seq<char>> {
    seq!["build"@, dir, "--tag"@, image, "--progress"@, "plain"@]
}

pub open spec fn ls_args(container: Seq<char>) -> Seq<Seq<char>> {
    seq!["container"@, "ls"@, "--all"@, "--filter"@, "name="@ + container, "--quiet"@]
}

pub open spec fn stop_args(container: Seq<char>) -> Seq<Seq<char>> {
    seq!["container"@, "stop"@, container]
}

pub open spec fn rm_args(container: Seq<char>) -> Seq<Seq<char>> {
    seq!["container"@, "rm"@, container]
}

pub open spec fn run_args(container: Seq<char>, image: Seq<char>) -> Seq<Seq<char>> {
    seq!["container"@, "run"@, "--detach"@, "--tty"@, "--name"@, container, image, "sh"@]
}

pub open spec fn cp_args(container: Seq<char>, dir: Seq<char>) -> Seq<Seq<char>> {
    seq!["container"@, "cp"@, container + ":/build/out/."@, dir]
}

/// The message rejecting a malformed version.
pub open spec fn version_err_msg() -> Seq<char> {
    "A version of glibc must follow \"[0-9]+\\.[0-9]+\"."@
}

/// The message reporting a source probe answered with a non-OK status.
pub open spec fn probe_err_msg(status: nat, reason: Seq<char>) -> Seq<char> {
    "The request failed with a status \""@ + dec_str(status) + " "@ + reason + "\"."@
}

/// The message reporting that the container runtime is missing.
pub open spec fn docker_missing_msg() -> Seq<char> {
    "Docker is not found. Please make sure Docker is ready."@
}

/// The remaining work of one build-and-cache run.
pub enum FlowState {
    Start,
    Probing,
    CheckingCache,
    CleaningCache,
    CheckingDocker,
    QueryingImage,
    RemovingImage { hash: String },
    PreparingEnvFile,
    BuildingImage,
    ListingContainers,
    StoppingStale,
    RemovingStale,
    StartingContainer,
    RunningStage { index: u8 },
    CreatingCacheDir,
    CopyingArtifacts,
    StoppingContainer { failure: Option<InternalError> },
    RemovingContainer { failure: Option<InternalError> },
    Done { already_built: bool },
    Failed { error: InternalError },
}

/// What the driver reports back to the flow: the run was started; the source
/// probe answered or failed; whether the cache entry exists; a cache deletion
/// or cache-entry creation finished (with the operating-system error message,
/// if any); an external command finished; the environment definition file is
/// in place (saying whether it had to be written) or could not be written.
pub enum FlowEvent {
    Started,
    ProbeOk { status: u16, reason: String },
    ProbeFailed { message: String },
    CacheChecked { exists: bool },
    CacheCleaned { error: Option<String> },
    CommandDone { outcome: CmdOutcome },
    EnvFileReady { created: bool },
    EnvFileFailed { message: String },
    CacheDirCreated { error: Option<String> },
}

/// What the flow asks the driver to do next: probe the source URL; check for,
/// delete, or create the cache entry directory; write the environment
/// definition file if it is absent; run an external command with its output
/// streamed; or stop, the run being finished (see the flow's state).
pub enum FlowAction {
    Probe { url: String },
    CheckCache { dir: String },
    CleanCache { dir: String },
    CreateCacheDir { dir: String },
    PrepareEnvFile { path: String },
    Run { cmd: Cmd },
    Halt,
}

/// One build-and-cache run: version validation, the source availability
/// probe, the cache policy, the base image and container lifecycle, the fixed
/// stage sequence, artifact extraction, and teardown. The driver performs
/// each returned action and reports its outcome back.
pub struct BuildFlow {
    pub version: String,
    pub force: bool,
    pub rebuild_image: bool,
    pub builder: GLibCBuilder,
    pub file_manager: FileManager,
    pub state: FlowState,
}

/// Which event each state awaits; final states await none.
pub open spec fn flow_accepts(s: FlowState, e: FlowEvent) -> bool {
    match s {
        FlowState::Start => e is Started,
        FlowState::Probing => e is ProbeOk || e is ProbeFailed,
        FlowState::CheckingCache => e is CacheChecked,
        FlowState::CleaningCache => e is CacheCleaned,
        FlowState::CheckingDocker => e is CommandDone,
        FlowState::QueryingImage => e is CommandDone,
        FlowState::RemovingImage { .. } => e is CommandDone,
        FlowState::PreparingEnvFile => e is EnvFileReady || e is EnvFileFailed,
        FlowState::BuildingImage => e is CommandDone,
        FlowState::ListingContainers => e is CommandDone,
        FlowState::StoppingStale => e is CommandDone,
        FlowState::RemovingStale => e is CommandDone,
        FlowState::StartingContainer => e is CommandDone,
        FlowState::RunningStage { .. } => e is CommandDone,
        FlowState::CreatingCacheDir => e is CacheDirCreated,
        FlowState::CopyingArtifacts => e is CommandDone,
        FlowState::StoppingContainer { .. } => e is CommandDone,
        FlowState::RemovingContainer { .. } => e is CommandDone,
        FlowState::Done { .. } => false,
        FlowState::Failed { .. } => false,
    }
}

/// States are well formed: a stage index stays within the stage table.
pub open spec fn state_wf(s: FlowState) -> bool {
    s matches FlowState::RunningStage { index } ==> index < stage_count()
}

/// What a step keeps unchanged: the request and the fixed names.
pub open spec fn flow_frame(pre: BuildFlow, post: BuildFlow) -> bool {
    &&& post.version@ == pre.version@
    &&& post.force == pre.force
    &&& post.rebuild_image == pre.rebuild_image
    &&& post.builder.image_spec() == pre.builder.image_spec()
    &&& post.builder.container_spec() == pre.builder.container_spec()
    &&& post.file_manager.config_dir_spec() == pre.file_manager.config_dir_spec()
}

/// The action runs the container runtime with exactly these arguments.
pub open spec fn runs(act: FlowAction, args: Seq<Seq<char>>) -> bool {
    act matches FlowAction::Run { cmd } && cmd_is(cmd, "docker"@, args)
}

/// The run failed: the flow halts holding the two-layer error of the given
/// context message and command outcome.
pub open spec fn fails_wrapped(
    post: BuildFlow,
    act: FlowAction,
    ctx: Seq<char>,
    outcome: CmdOutcome,
) -> bool {
    &&& post.state matches FlowState::Failed { error }
    &&& is_wrapped_err(error, ctx, "docker"@, outcome)
    &&& act is Halt
}

/// The transition relation of the flow: given the state before a step and the
/// event reported, it pins the state after the step and the action returned.
pub open spec fn flow_next(
    pre: BuildFlow,
    e: FlowEvent,
    post: BuildFlow,
    act: FlowAction,
) -> bool {
    let version = pre.version@;
    let image = pre.builder.image_spec();
    let container = pre.builder.container_spec();
    let root = pre.file_manager.config_dir_spec();
    &&& flow_frame(pre, post)
    &&& match pre.state {
        FlowState::Start => {
            if !is_version_str(version) {
                &&& post.state matches FlowState::Failed { error }
                &&& error matches InternalError::Common(m)
                &&& m@ == version_err_msg()
                &&& act is Halt
            } else {
                &&& post.state is Probing
                &&& act matches FlowAction::Probe { url }
                &&& url@ == source_url(version)
            }
        },
        FlowState::Probing => match e {
            FlowEvent::ProbeFailed { message } => {
                &&& post.state matches FlowState::Failed { error }
                &&& error matches InternalError::NetworkError(m)
                &&& m@ == message@
                &&& act is Halt
            },
            FlowEvent::ProbeOk { status, reason } => {
                if status != 200 {
                    &&& post.state matches FlowState::Failed { error }
                    &&& error matches InternalError::Common(m)
                    &&& m@ == probe_err_msg(status as nat, reason@)
                    &&& act is Halt
                } else {
                    &&& post.state is CheckingCache
                    &&& act matches FlowAction::CheckCache { dir }
                    &&& dir@ == glibc_dir_of(root, version)
                }
            },
            _ => false,
        },
        FlowState::CheckingCache => match e {
            FlowEvent::CacheChecked { exists } => {
                if pre.force && exists {
                    &&& post.state is CleaningCache
                    &&& act matches FlowAction::CleanCache { dir }
                    &&& dir@ == glibc_dir_of(root, version)
                } else if !exists {
                    &&& post.state is CheckingDocker
                    &&& runs(act, Seq::empty())
                } else {
                    &&& post.state matches FlowState::Done { already_built: true }
                    &&& act is Halt
                }
            },
            _ => false,
        },
        FlowState::CleaningCache => match e {
            FlowEvent::CacheCleaned { error: None } => {
                &&& post.state is CheckingDocker
                &&& runs(act, Seq::empty())
            },
            FlowEvent::CacheCleaned { error: Some(m) } => {
                &&& post.state matches FlowState::Failed { error }
                &&& error matches InternalError::IOError(em)
                &&& em@ == m@
                &&& act is Halt
            },
            _ => false,
        },
        FlowState::CheckingDocker => match e {
            FlowEvent::CommandDone { outcome } => match outcome {
                CmdOutcome::Exited { .. } => {
                    &&& post.state is QueryingImage
                    &&& runs(act, images_args(image))
                },
                _ => {
                    &&& post.state matches FlowState::Failed { error }
                    &&& error matches InternalError::Common(m)
                    &&& m@ == docker_missing_msg()
                    &&& act is Halt
                },
            },
            _ => false,
        },
        FlowState::QueryingImage => match e {
            FlowEvent::CommandDone { outcome } => match outcome {
                CmdOutcome::Exited { success: true, lines, .. } => {
                    if lines@.len() > 0 {
                        if pre.rebuild_image {
                            &&& post.state matches FlowState::RemovingImage { hash }
                            &&& hash@ == lines@[0]@
                            &&& runs(act, rmi_args(image))
                        } else {
                            &&& post.state is ListingContainers
                            &&& runs(act, ls_args(container))
                        }
                    } else {
                        &&& post.state is PreparingEnvFile
                        &&& act matches FlowAction::PrepareEnvFile { path }
                        &&& path@ == root + "/Dockerfile"@
                    }
                },
                _ => fails_wrapped(
                    post,
                    act,
                    "Failed to figure out whether an image exists or not."@,
                    outcome,
                ),
            },
            _ => false,
        },
        FlowState::RemovingImage { .. } => match e {
            FlowEvent::CommandDone { outcome } => match outcome {
                CmdOutcome::Exited { success: true, .. } => {
                    &&& post.state is PreparingEnvFile
                    &&& act matches FlowAction::PrepareEnvFile { path }
                    &&& path@ == root + "/Dockerfile"@
                },
                _ => fails_wrapped(post, act, "Failed to delete the old "@ + image + "."@, outcome),
            },
            _ => false,
        },
        FlowState::PreparingEnvFile => match e {
            FlowEvent::EnvFileReady { .. } => {
                &&& post.state is BuildingImage
                &&& runs(act, build_args(root, image))
            },
            FlowEvent::EnvFileFailed { message } => {
                &&& post.state matches FlowState::Failed { error }
                &&& error matches InternalError::IOError(em)
                &&& em@ == message@
                &&& act is Halt
            },
            _ => false,
        },
        FlowState::BuildingImage => match e {
            FlowEvent::CommandDone { outcome } => match outcome {
                CmdOutcome::Exited { success: true, .. } => {
                    &&& post.state is ListingContainers
                    &&& runs(act, ls_args(container))
                },
                _ => fails_wrapped(post, act, "Failed to build an image."@, outcome),
            },
            _ => false,
        },
        FlowState::ListingContainers => match e {
            FlowEvent::CommandDone { outcome } => match outcome {
                CmdOutcome::Exited { success: true, lines, .. } => {
                    if lines@.len() > 0 {
                        &&& post.state is StoppingStale
                        &&& runs(act, stop_args(container))
                    } else {
                        &&& post.state is StartingContainer
                        &&& runs(act, run_args(container, image))
                    }
                },
                _ => fails_wrapped(post, act, "Failed to find the running container."@, outcome),
            },
            _ => false,
        },
        FlowState::StoppingStale => match e {
            FlowEvent::CommandDone { outcome } => match outcome {
                CmdOutcome::Exited { success: true, .. } => {
                    &&& post.state is RemovingStale
                    &&& runs(act, rm_args(container))
                },
                _ => fails_wrapped(post, act, "Failed to stop the running container."@, outcome),
            },
            _ => false,
        },
        FlowState::RemovingStale => match e {
            FlowEvent::CommandDone { outcome } => match outcome {
                CmdOutcome::Exited { success: true, .. } => {
                    &&& post.state is StartingContainer
                    &&& runs(act, run_args(container, image))
                },
                _ => fails_wrapped(post, act, "Failed to remove the stopped container."@, outcome),
            },
            _ => false,
        },
        FlowState::StartingContainer => match e {
            FlowEvent::CommandDone { outcome } => match outcome {
                CmdOutcome::Exited { success: true, .. } => {
                    &&& post.state matches FlowState::RunningStage { index: 0u8 }
                    &&& runs(act, exec_args(container, stage_workdir(0), stage_args(0, version)))
                },
                _ => fails_wrapped(post, act, "Failed to spawn a new container."@, outcome),
            },
            _ => false,
        },
        FlowState::RunningStage { index } => match e {
            FlowEvent::CommandDone { outcome } => match outcome {
                CmdOutcome::Exited { success: true, .. } => {
                    if index < 6 {
                        &&& post.state matches FlowState::RunningStage { index: i2 }
                        &&& i2 == index + 1
                        &&& runs(
                            act,
                            exec_args(
                                container,
                                stage_workdir(index as int + 1),
                                stage_args(index as int + 1, version),
                            ),
                        )
                    } else {
                        &&& post.state is CreatingCacheDir
                        &&& act matches FlowAction::CreateCacheDir { dir }
                        &&& dir@ == glibc_dir_of(root, version)
                    }
                },
                _ => {
                    &&& post.state matches FlowState::StoppingContainer { failure }
                    &&& failure matches Some(error)
                    &&& is_wrapped_err(error, stage_context(index as int), "docker"@, outcome)
                    &&& runs(act, stop_args(container))
                },
            },
            _ => false,
        },
        FlowState::CreatingCacheDir => match e {
            FlowEvent::CacheDirCreated { error: None } => {
                &&& post.state is CopyingArtifacts
                &&& runs(act, cp_args(container, glibc_dir_of(root, version)))
            },
            FlowEvent::CacheDirCreated { error: Some(m) } => {
                &&& post.state matches FlowState::StoppingContainer { failure }
                &&& failure matches Some(error)
                &&& error matches InternalError::IOError(em)
                &&& em@ == m@
                &&& runs(act, stop_args(container))
            },
            _ => false,
        },
        FlowState::CopyingArtifacts => match e {
            FlowEvent::CommandDone { outcome } => match outcome {
                CmdOutcome::Exited { success: true, .. } => {
                    &&& post.state matches FlowState::StoppingContainer { failure: None }
                    &&& runs(act, stop_args(container))
                },
                _ => {
                    &&& post.state matches FlowState::StoppingContainer { failure }
                    &&& failure matches Some(error)
                    &&& is_wrapped_err(error, "Failed to copy libraries."@, "docker"@, outcome)
                    &&& runs(act, stop_args(container))
                },
            },
            _ => false,
        },
        FlowState::StoppingContainer { failure } => match e {
            FlowEvent::CommandDone { outcome } => match failure {
                None => match outcome {
                    CmdOutcome::Exited { success: true, .. } => {
                        &&& post.state matches FlowState::RemovingContainer { failure: None }
                        &&& runs(act, rm_args(container))
                    },
                    _ => fails_wrapped(
                        post,
                        act,
                        "Failed to stop the running container."@,
                        outcome,
                    ),
                },
                Some(err) => {
                    &&& post.state matches FlowState::RemovingContainer { failure: f2 }
                    &&& f2 == Some(err)
                    &&& runs(act, rm_args(container))
                },
            },
            _ => false,
        },
        FlowState::RemovingContainer { failure } => match e {
            FlowEvent::CommandDone { outcome } => match failure {
                None => match outcome {
                    CmdOutcome::Exited { success: true, .. } => {
                        &&& post.state matches FlowState::Done { already_built: false }
                        &&& act is Halt
                    },
                    _ => fails_wrapped(
                        post,
                        act,
                        "Failed to remove the stopped container."@,
                        outcome,
                    ),
                },
                Some(err) => {
                    &&& post.state matches FlowState::Failed { error }
                    &&& error == err
                    &&& act is Halt
                },
            },
            _ => false,
        },
        FlowState::Done { .. } => false,
        FlowState::Failed { .. } => false,
    }
}

fn docker_cmd(args: Vec<String>) -> (c: Cmd)
    ensures
        c.program@ == "docker"@,
        args_view(c) == texts_of(args@),
{
    Cmd { program: String::from_str("docker"), args }
}

fn cmd_probe() -> (c: Cmd)
    ensures
        cmd_is(c, "docker"@, Seq::empty()),
{
    let c = docker_cmd(Vec::new());
    proof {
        assert(args_view(c) =~= Seq::<Seq<char>>::empty());
    }
    c
}

fn cmd_images(image: &String) -> (c: Cmd)
    ensures
        cmd_is(c, "docker"@, images_args(image@)),
{
    let mut a: Vec<String> = Vec::new();
    a.push(String::from_str("images"));
    a.push(String::from_str("-q"));
    a.push(image.clone());
    let c = docker_cmd(a);
    proof {
        assert(args_view(c) =~= images_args(image@));
    }
    c
}

fn cmd_rmi(image: &String) -> (c: Cmd)
    ensures
        cmd_is(c, "docker"@, rmi_args(image@)),
{
    let mut a: Vec<String> = Vec::new();
    a.push(String::from_str("rmi"));
    a.push(String::from_str("-f"));
    a.push(image.clone());
    let c = docker_cmd(a);
    proof {
        assert(args_view(c) =~= rmi_args(image@));
    }
    c
}

fn cmd_build(dir: String, image: &String) -> (c: Cmd)
    ensures
        cmd_is(c, "docker"@, build_args(dir@, image@)),
{
    let mut a: Vec<String> = Vec::new();
    a.push(String::from_str("build"));
    a.push(dir);
    a.push(String::from_str("--tag"));
    a.push(image.clone());
    a.push(String::from_str("--progress"));
    a.push(String::from_str("plain"));
    let c = docker_cmd(a);
    proof {
        assert(args_view(c) =~= build_args(dir@, image@));
    }
    c
}

fn cmd_ls(container: &String) -> (c: Cmd)
    ensures
        cmd_is(c, "docker"@, ls_args(container@)),
{
    let mut a: Vec<String> = Vec::new();
    a.push(String::from_str("container"));
    a.push(String::from_str("ls"));
    a.push(String::from_str("--all"));
    a.push(String::from_str("--filter"));
    a.push(String::from_str("name=").concat(container.as_str()));
    a.push(String::from_str("--quiet"));
    let c = docker_cmd(a);
    proof {
        assert(args_view(c) =~= ls_args(container@));
    }
    c
}

fn cmd_stop(container: &String) -> (c: Cmd)
    ensures
        cmd_is(c, "docker"@, stop_args(container@)),
{
    let mut a: Vec<String> = Vec::new();
    a.push(String::from_str("container"));
    a.push(String::from_str("stop"));
    a.push(container.clone());
    let c = docker_cmd(a);
    proof {
        assert(args_view(c) =~= stop_args(container@));
    }
    c
}

fn cmd_rm(container: &String) -> (c: Cmd)
    ensures
        cmd_is(c, "docker"@, rm_args(container@)),
{
    let mut a: Vec<String> = Vec::new();
    a.push(String::from_str("container"));
    a.push(String::from_str("rm"));
    a.push(container.clone());
    let c = docker_cmd(a);
    proof {
        assert(args_view(c) =~= rm_args(container@));
    }
    c
}

fn cmd_run(container: &String, image: &String) -> (c: Cmd)
    ensures
        cmd_is(c, "docker"@, run_args(container@, image@)),
{
    let mut a: Vec<String> = Vec::new();
    a.push(String::from_str("container"));
    a.push(String::from_str("run"));
    a.push(String::from_str("--detach"));
    a.push(String::from_str("--tty"));
    a.push(String::from_str("--name"));
    a.push(container.clone());
    a.push(image.clone());
    a.push(String::from_str("sh"));
    let c = docker_cmd(a);
    proof {
        assert(args_view(c) =~= run_args(container@, image@));
    }
    c
}

fn cmd_cp(container: &String, dir: String) -> (c: Cmd)
    ensures
        cmd_is(c, "docker"@, cp_args(container@, dir@)),
{
    let mut a: Vec<String> = Vec::new();
    a.push(String::from_str("container"));
    a.push(String::from_str("cp"));
    a.push(container.clone().concat(":/build/out/."));
    a.push(dir);
    let c = docker_cmd(a);
    proof {
        assert(args_view(c) =~= cp_args(container@, dir@));
    }
    c
}

fn cmd_stage(container: &String, version: &str, index: u8) -> (c: Cmd)
    requires
        index < 7,
    ensures
        cmd_is(
            c,
            "docker"@,
            exec_args(container@, stage_workdir(index as int), stage_args(index as int, version@)),
        ),
{
    let workdir: String = if index <= 1 {
        String::from_str("/")
    } else if index <= 3 {
        String::from_str("/build")
    } else {
        String::from_str("/build/dest")
    };
    let mut a: Vec<String> = Vec::new();
    a.push(String::from_str("container"));
    a.push(String::from_str("exec"));
    a.push(String::from_str("--tty"));
    a.push(String::from_str("--workdir"));
    a.push(workdir);
    a.push(container.clone());
    if index == 0 {
        a.push(String::from_str("mkdir"));
        a.push(String::from_str("-p"));
        a.push(String::from_str("/build/dest"));
    } else if index == 1 {
        a.push(String::from_str("mkdir"));
        a.push(String::from_str("-p"));
        a.push(String::from_str("/build/out"));
    } else if index == 2 {
        a.push(String::from_str("wget"));
        a.push(source_url_string(version));
    } else if index == 3 {
        a.push(String::from_str("tar"));
        a.push(String::from_str("-xf"));
        a.push(source_name_string(version));
    } else if index == 4 {
        a.push(String::from_str("bash"));
        a.push(String::from_str("-c"));
        a.push(configure_string(version));
    } else if index == 5 {
        a.push(String::from_str("bash"));
        a.push(String::from_str("-c"));
        a.push(String::from_str("make -j `nproc`"));
    } else {
        a.push(String::from_str("bash"));
        a.push(String::from_str("-c"));
        a.push(String::from_str("make install"));
    }
    let c = docker_cmd(a);
    proof {
        assert(args_view(c) =~= exec_args(
            container@,
            stage_workdir(index as int),
            stage_args(index as int, version@),
        ));
    }
    c
}

impl BuildFlow {
    /// Begins a run that guarantees one version is cached.
    pub fn new(
        version: String,
        force: bool,
        rebuild_image: bool,
        builder: GLibCBuilder,
        file_manager: FileManager,
    ) -> (r: BuildFlow)
        ensures
            r.version@ == version@,
            r.force == force,
            r.rebuild_image == rebuild_image,
            r.builder.image_spec() == builder.image_spec(),
            r.builder.container_spec() == builder.container_spec(),
            r.file_manager.config_dir_spec() == file_manager.config_dir_spec(),
            r.state is Start,
    {
        BuildFlow { version, force, rebuild_image, builder, file_manager, state: FlowState::Start }
    }

    /// One step of the run: takes the event the current state awaits and
    /// returns the flow in its next state together with the next action for
    /// the driver.
    pub fn step(self, event: FlowEvent) -> (r: (BuildFlow, FlowAction))
        requires
            flow_accepts(self.state, event),
            state_wf(self.state),
        ensures
            flow_next(self, event, r.0, r.1),
            state_wf(r.0.state),
    {
        let BuildFlow { version, force, rebuild_image, builder, file_manager, state } = self;
        let (ns, act): (FlowState, FlowAction) = match state {
            FlowState::Start => {
                if !validate_version(version.as_str()) {
                    let e = InternalError::Common(
                        String::from_str("A version of glibc must follow \"[0-9]+\\.[0-9]+\"."),
                    );
                    (FlowState::Failed { error: e }, FlowAction::Halt)
                } else {
                    let url = source_url_string(version.as_str());
                    LogSystem::log(String::from_str("Accessing ").concat(url.as_str()).concat("."));
                    (FlowState::Probing, FlowAction::Probe { url })
                }
            },
            FlowState::Probing => match event {
                FlowEvent::ProbeFailed { message } => {
                    (FlowState::Failed { error: InternalError::NetworkError(message) },
                        FlowAction::Halt)
                },
                FlowEvent::ProbeOk { status, reason } => {
                    if status != 200 {
                        let msg = String::from_str("The request failed with a status \"").concat(
                            u32_to_string(status as u32).as_str(),
                        ).concat(" ").concat(reason.as_str()).concat("\".");
                        (FlowState::Failed { error: InternalError::Common(msg) }, FlowAction::Halt)
                    } else {
                        LogSystem::success(
                            String::from_str("Glibc ").concat(version.as_str()).concat(
                                " is available.",
                            ),
                        );
                        let dir = file_manager.get_glibc_dir(version.as_str());
                        (FlowState::CheckingCache, FlowAction::CheckCache { dir })
                    }
                },
                _ => unreached(),
            },
            FlowState::CheckingCache => match event {
                FlowEvent::CacheChecked { exists } => {
                    if force && exists {
                        let dir = file_manager.get_glibc_dir(version.as_str());
                        (FlowState::CleaningCache, FlowAction::CleanCache { dir })
                    } else if !exists {
                        (FlowState::CheckingDocker, FlowAction::Run { cmd: cmd_probe() })
                    } else {
                        LogSystem::log(String::from_str("Already built."));
                        (FlowState::Done { already_built: true }, FlowAction::Halt)
                    }
                },
                _ => unreached(),
            },
            FlowState::CleaningCache => match event {
                FlowEvent::CacheCleaned { error: None } => {
                    LogSystem::log(String::from_str("Deleted cached libraries."));
                    (FlowState::CheckingDocker, FlowAction::Run { cmd: cmd_probe() })
                },
                FlowEvent::CacheCleaned { error: Some(m) } => {
                    (FlowState::Failed { error: InternalError::IOError(m) }, FlowAction::Halt)
                },
                _ => unreached(),
            },
            FlowState::CheckingDocker => match event {
                FlowEvent::CommandDone { outcome } => match outcome {
                    CmdOutcome::Exited { .. } => {
                        LogSystem::log(String::from_str("Found Docker."));
                        (FlowState::QueryingImage,
                            FlowAction::Run { cmd: cmd_images(&builder.image_name) })
                    },
                    _ => {
                        let e = InternalError::Common(
                            String::from_str(
                                "Docker is not found. Please make sure Docker is ready.",
                            ),
                        );
                        (FlowState::Failed { error: e }, FlowAction::Halt)
                    },
                },
                _ => unreached(),
            },
            FlowState::QueryingImage => match event {
                FlowEvent::CommandDone { outcome } => {
                    match command_result("docker", outcome) {
                        Ok(lines) => {
                            if lines.len() > 0 {
                                let hash = lines[0].clone();
                                LogSystem::log(
                                    String::from_str("Found ").concat(
                                        builder.image_name.as_str(),
                                    ).concat(" (").concat(hash.as_str()).concat(")."),
                                );
                                if rebuild_image {
                                    let cmd = cmd_rmi(&builder.image_name);
                                    (FlowState::RemovingImage { hash }, FlowAction::Run { cmd })
                                } else {
                                    let cmd = cmd_ls(&builder.container_name);
                                    (FlowState::ListingContainers, FlowAction::Run { cmd })
                                }
                            } else {
                                LogSystem::log(
                                    String::from_str("An image named ").concat(
                                        builder.image_name.as_str(),
                                    ).concat(" is not found."),
                                );
                                LogSystem::log(
                                    String::from_str("Building ").concat(
                                        builder.image_name.as_str(),
                                    ).concat(". It may take a long time."),
                                );
                                let path = file_manager.get_docker_file_path();
                                (FlowState::PreparingEnvFile,
                                    FlowAction::PrepareEnvFile { path })
                            }
                        },
                        Err(u) => {
                            let e = with_context(
                                String::from_str(
                                    "Failed to figure out whether an image exists or not.",
                                ),
                                u,
                            );
                            (FlowState::Failed { error: e }, FlowAction::Halt)
                        },
                    }
                },
                _ => unreached(),
            },
            FlowState::RemovingImage { hash } => match event {
                FlowEvent::CommandDone { outcome } => {
                    match command_result("docker", outcome) {
                        Ok(_) => {
                            LogSystem::log(
                                String::from_str("Deleted ").concat(
                                    builder.image_name.as_str(),
                                ).concat(" (").concat(hash.as_str()).concat(")."),
                            );
                            LogSystem::log(
                                String::from_str("An image named ").concat(
                                    builder.image_name.as_str(),
                                ).concat(" is not found."),
                            );
                            LogSystem::log(
                                String::from_str("Building ").concat(
                                    builder.image_name.as_str(),
                                ).concat(". It may take a long time."),
                            );
                            let path = file_manager.get_docker_file_path();
                            (FlowState::PreparingEnvFile, FlowAction::PrepareEnvFile { path })
                        },
                        Err(u) => {
                            let e = with_context(
                                String::from_str("Failed to delete the old ").concat(
                                    builder.image_name.as_str(),
                                ).concat("."),
                                u,
                            );
                            (FlowState::Failed { error: e }, FlowAction::Halt)
                        },
                    }
                },
                _ => unreached(),
            },
            FlowState::PreparingEnvFile => match event {
                FlowEvent::EnvFileReady { created } => {
                    if created {
                        LogSystem::log(String::from_str("Created a docker file."));
                    }
                    let cmd = cmd_build(file_manager.config_root().clone(), &builder.image_name);
                    (FlowState::BuildingImage, FlowAction::Run { cmd })
                },
                FlowEvent::EnvFileFailed { message } => {
                    (FlowState::Failed { error: InternalError::IOError(message) },
                        FlowAction::Halt)
                },
                _ => unreached(),
            },
            FlowState::BuildingImage => match event {
                FlowEvent::CommandDone { outcome } => {
                    match command_result("docker", outcome) {
                        Ok(_) => {
                            LogSystem::log(String::from_str("Built the image."));
                            let cmd = cmd_ls(&builder.container_name);
                            (FlowState::ListingContainers, FlowAction::Run { cmd })
                        },
                        Err(u) => {
                            let e = with_context(String::from_str("Failed to build an image."), u);
                            (FlowState::Failed { error: e }, FlowAction::Halt)
                        },
                    }
                },
                _ => unreached(),
            },
            FlowState::ListingContainers => match event {
                FlowEvent::CommandDone { outcome } => {
                    match command_result("docker", outcome) {
                        Ok(lines) => {
                            if lines.len() > 0 {
                                LogSystem::log(
                                    String::from_str(
                                        "Found a running container of purin. Going to stop it.",
                                    ),
                                );
                                let cmd = cmd_stop(&builder.container_name);
                                (FlowState::StoppingStale, FlowAction::Run { cmd })
                            } else {
                                let cmd = cmd_run(&builder.container_name, &builder.image_name);
                                (FlowState::StartingContainer, FlowAction::Run { cmd })
                            }
                        },
                        Err(u) => {
                            let e = with_context(
                                String::from_str("Failed to find the running container."),
                                u,
                            );
                            (FlowState::Failed { error: e }, FlowAction::Halt)
                        },
                    }
                },
                _ => unreached(),
            },
            FlowState::StoppingStale => match event {
                FlowEvent::CommandDone { outcome } => {
                    match command_result("docker", outcome) {
                        Ok(_) => {
                            let cmd = cmd_rm(&builder.container_name);
                            (FlowState::RemovingStale, FlowAction::Run { cmd })
                        },
                        Err(u) => {
                            let e = with_context(
                                String::from_str("Failed to stop the running container."),
                                u,
                            );
                            (FlowState::Failed { error: e }, FlowAction::Halt)
                        },
                    }
                },
                _ => unreached(),
            },
            FlowState::RemovingStale => match event {
                FlowEvent::CommandDone { outcome } => {
                    match command_result("docker", outcome) {
                        Ok(_) => {
                            LogSystem::log(String::from_str("Stopped and removed the container."));
                            let cmd = cmd_run(&builder.container_name, &builder.image_name);
                            (FlowState::StartingContainer, FlowAction::Run { cmd })
                        },
                        Err(u) => {
                            let e = with_context(
                                String::from_str("Failed to remove the stopped container."),
                                u,
                            );
                            (FlowState::Failed { error: e }, FlowAction::Halt)
                        },
                    }
                },
                _ => unreached(),
            },
            FlowState::StartingContainer => match event {
                FlowEvent::CommandDone { outcome } => {
                    match command_result("docker", outcome) {
                        Ok(_) => {
                            LogSystem::log(String::from_str("Spawned a container to build glibc."));
                            let cmd = cmd_stage(&builder.container_name, version.as_str(), 0);
                            (FlowState::RunningStage { index: 0 }, FlowAction::Run { cmd })
                        },
                        Err(u) => {
                            let e = with_context(
                                String::from_str("Failed to spawn a new container."),
                                u,
                            );
                            (FlowState::Failed { error: e }, FlowAction::Halt)
                        },
                    }
                },
                _ => unreached(),
            },
            FlowState::RunningStage { index } => match event {
                FlowEvent::CommandDone { outcome } => {
                    match command_result("docker", outcome) {
                        Ok(_) => {
                            if index == 2 {
                                LogSystem::log(
                                    String::from_str("Downloaded the source of glibc ").concat(
                                        version.as_str(),
                                    ).concat("."),
                                );
                            } else if index == 3 {
                                LogSystem::log(
                                    String::from_str("Extracted the source of glibc ").concat(
                                        version.as_str(),
                                    ).concat("."),
                                );
                            } else if index == 4 {
                                LogSystem::log(
                                    String::from_str("Configured glibc ").concat(
                                        version.as_str(),
                                    ).concat("."),
                                );
                            } else if index == 5 {
                                LogSystem::success(
                                    String::from_str("Built glibc ").concat(
                                        version.as_str(),
                                    ).concat("."),
                                );
                            }
                            if index < 6 {
                                let cmd = cmd_stage(
                                    &builder.container_name,
                                    version.as_str(),
                                    index + 1,
                                );
                                (FlowState::RunningStage { index: index + 1 },
                                    FlowAction::Run { cmd })
                            } else {
                                let dir = file_manager.get_glibc_dir(version.as_str());
                                (FlowState::CreatingCacheDir,
                                    FlowAction::CreateCacheDir { dir })
                            }
                        },
                        Err(u) => {
                            let e = with_context(stage_context_string(index), u);
                            let cmd = cmd_stop(&builder.container_name);
                            (FlowState::StoppingContainer { failure: Some(e) },
                                FlowAction::Run { cmd })
                        },
                    }
                },
                _ => unreached(),
            },
            FlowState::CreatingCacheDir => match event {
                FlowEvent::CacheDirCreated { error: None } => {
                    let dir = file_manager.get_glibc_dir(version.as_str());
                    let cmd = cmd_cp(&builder.container_name, dir);
                    (FlowState::CopyingArtifacts, FlowAction::Run { cmd })
                },
                FlowEvent::CacheDirCreated { error: Some(m) } => {
                    let e = InternalError::IOError(m);
                    let cmd = cmd_stop(&builder.container_name);
                    (FlowState::StoppingContainer { failure: Some(e) }, FlowAction::Run { cmd })
                },
                _ => unreached(),
            },
            FlowState::CopyingArtifacts => match event {
                FlowEvent::CommandDone { outcome } => {
                    match command_result("docker", outcome) {
                        Ok(_) => {
                            LogSystem::log(
                                String::from_str("Extracted libraries from the container."),
                            );
                            let cmd = cmd_stop(&builder.container_name);
                            (FlowState::StoppingContainer { failure: None },
                                FlowAction::Run { cmd })
                        },
                        Err(u) => {
                            let e = with_context(String::from_str("Failed to copy libraries."), u);
                            let cmd = cmd_stop(&builder.container_name);
                            (FlowState::StoppingContainer { failure: Some(e) },
                                FlowAction::Run { cmd })
                        },
                    }
                },
                _ => unreached(),
            },
            FlowState::StoppingContainer { failure } => match event {
                FlowEvent::CommandDone { outcome } => match failure {
                    None => {
                        match command_result("docker", outcome) {
                            Ok(_) => {
                                let cmd = cmd_rm(&builder.container_name);
                                (FlowState::RemovingContainer { failure: None },
                                    FlowAction::Run { cmd })
                            },
                            Err(u) => {
                                let e = with_context(
                                    String::from_str("Failed to stop the running container."),
                                    u,
                                );
                                (FlowState::Failed { error: e }, FlowAction::Halt)
                            },
                        }
                    },
                    Some(e) => {
                        let cmd = cmd_rm(&builder.container_name);
                        (FlowState::RemovingContainer { failure: Some(e) },
                            FlowAction::Run { cmd })
                    },
                },
                _ => unreached(),
            },
            FlowState::RemovingContainer { failure } => match event {
                FlowEvent::CommandDone { outcome } => match failure {
                    None => {
                        match command_result("docker", outcome) {
                            Ok(_) => {
                                LogSystem::log(
                                    String::from_str("Stopped and removed the container."),
                                );
                                LogSystem::log(String::from_str("Stopped the container."));
                                (FlowState::Done { already_built: false }, FlowAction::Halt)
                            },
                            Err(u) => {
                                let e = with_context(
                                    String::from_str("Failed to remove the stopped container."),
                                    u,
                                );
                                (FlowState::Failed { error: e }, FlowAction::Halt)
                            },
                        }
                    },
                    Some(e) => (FlowState::Failed { error: e }, FlowAction::Halt),
                },
                _ => unreached(),
            },
            FlowState::Done { .. } => unreached(),
            FlowState::Failed { .. } => unreached(),
        };
        (
            BuildFlow { version, force, rebuild_image, builder, file_manager, state: ns },
            act,
        )
    }
}

fn stage_context_string(index: u8) -> (r: String)
    requires
        index < 7,
    ensures
        r@ == stage_context(index as int),
{
    if index <= 1 {
        String::from_str("Failed to create folders.")
    } else if index == 2 {
        String::from_str("Failed to download a source.")
    } else if index == 3 {
        String::from_str("Failed to extract a source.")
    } else if index == 4 {
        String::from_str("Failed to configure the glibc.")
    } else if index == 5 {
        String::from_str("Failed to build the glibc.")
    } else {
        String::from_str("Failed to install the glibc to the container.")
    }
}

/// Ensuring an already-cached version with no force flag is a no-op: the flow
/// reports the version as already built and halts, running no command and
/// touching nothing on disk, and no further step is possible.
pub proof fn lemma_ensure_cached_idempotent(
    pre: BuildFlow,
    e: FlowEvent,
    post: BuildFlow,
    act: FlowAction,
)
    requires
        flow_next(pre, e, post, act),
        pre.state is CheckingCache,
        e matches FlowEvent::CacheChecked { exists: true },
        !pre.force,
    ensures
        post.state matches FlowState::Done { already_built: true },
        act is Halt,
        forall|later: FlowEvent| !flow_accepts(post.state, later),
{
}

/// A malformed version is rejected before any network or filesystem action:
/// from the start state the flow halts at once with the validation error,
/// issuing no action.
pub proof fn lemma_invalid_version_rejected(
    pre: BuildFlow,
    e: FlowEvent,
    post: BuildFlow,
    act: FlowAction,
)
    requires
        flow_next(pre, e, post, act),
        pre.state is Start,
        !is_version_str(pre.version@),
    ensures
        post.state is Failed,
        act is Halt,
{
}

} // verus!
