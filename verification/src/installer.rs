//! The binary-provisioning lifecycle.
//!
//! Installation alternates filesystem and package-manager work with
//! decisions, so the decisions stand here as a state machine: each step takes
//! the current state and the host's answer to the previous action and says
//! what to do next. The host performs the actions (probe a path, install a
//! package, resolve the runtime executable) and feeds the answers back; the
//! machine decides, and every decision is verified.

use vstd::prelude::*;

use crate::paths::{component_texts, spec_render_abs, AbsPath, RelPath};

verus! {

/// An opaque package version, as the registry reported it.
pub struct VersionToken {
    pub text: String,
}

/// The provisioning failures that are surfaced to the caller. A cache miss
/// is not among them: it is a normal empty result, not an error.
#[derive(Clone, Copy, PartialEq, Eq, Structural, Debug)]
pub enum AdapterError {
    /// Version resolution failed: the registry could not be reached or
    /// returned nothing usable.
    UpstreamUnavailable,
    /// The package installation call failed.
    InstallFailed,
    /// The transport could not report its own runtime executable path even
    /// though installation succeeded.
    RuntimeUnavailable,
}

/// What is needed to start the server: the runtime executable and its
/// ordered argument vector.
pub struct LaunchDescriptor {
    pub executable: AbsPath,
    pub arguments: Vec<String>,
}

/// The abstract form of a launch descriptor.
#[verifier::ext_equal]
pub ghost struct LaunchDescriptorModel {
    pub executable: Seq<Seq<char>>,
    pub arguments: Seq<Seq<char>>,
}

impl View for LaunchDescriptor {
    type V = LaunchDescriptorModel;

    open spec fn view(&self) -> LaunchDescriptorModel {
        LaunchDescriptorModel {
            executable: self.executable@,
            arguments: component_texts(self.arguments@),
        }
    }
}

/// The descriptor that launches the server entry point at `entry_point`
/// through the runtime at `runtime`: the entry point's text, then the flag
/// that selects the standard-streams transport.
pub open spec fn spec_launch_descriptor(
    runtime: Seq<Seq<char>>,
    entry_point: Seq<Seq<char>>,
) -> LaunchDescriptorModel {
    LaunchDescriptorModel {
        executable: runtime,
        arguments: seq![spec_render_abs(entry_point), "--stdio"@],
    }
}

/// The argument vector for launching the server at `server_path`.
pub fn server_binary_arguments(server_path: &AbsPath) -> (r: Vec<String>)
    ensures
        component_texts(r@) == seq![spec_render_abs(server_path@), "--stdio"@],
{
    let mut args: Vec<String> = Vec::new();
    args.push(server_path.render());
    args.push("--stdio".to_owned());
    proof {
        assert(component_texts(args@) =~= seq![spec_render_abs(server_path@), "--stdio"@]);
    }
    args
}

/// The launch descriptor for `entry_point` run through `runtime`.
pub fn make_launch_descriptor(runtime: AbsPath, entry_point: &AbsPath) -> (r: LaunchDescriptor)
    ensures
        r@ == spec_launch_descriptor(runtime@, entry_point@),
{
    let arguments = server_binary_arguments(entry_point);
    let r = LaunchDescriptor { executable: runtime, arguments };
    proof {
        assert(r@ =~~= spec_launch_descriptor(r.executable@, entry_point@));
    }
    r
}

/// The name of the package that provides the server.
pub open spec fn spec_package_name() -> Seq<char> {
    "vscode-json-languageserver"@
}

/// The name of the package that provides the server.
pub fn package_name() -> (r: String)
    ensures
        r@ == spec_package_name(),
{
    "vscode-json-languageserver".to_owned()
}

/// The fixed relative path, inside a version directory, of the file that
/// launches the server.
pub open spec fn spec_server_entry_point_rel() -> Seq<Seq<char>> {
    seq!["node_modules"@, "vscode-json-languageserver"@, "bin"@, "vscode-json-languageserver"@]
}

/// The fixed relative path, inside a version directory, of the file that
/// launches the server.
pub fn server_entry_point_rel() -> (r: RelPath)
    ensures
        r@ == spec_server_entry_point_rel(),
{
    let mut components: Vec<String> = Vec::new();
    components.push("node_modules".to_owned());
    components.push("vscode-json-languageserver".to_owned());
    components.push("bin".to_owned());
    components.push("vscode-json-languageserver".to_owned());
    let r = RelPath { components };
    proof {
        assert(r@ =~= spec_server_entry_point_rel());
    }
    r
}

/// The path at which a valid installation under `container_dir` keeps its
/// entry point.
pub open spec fn spec_expected_entry_point(container_dir: Seq<Seq<char>>) -> Seq<Seq<char>> {
    container_dir + spec_server_entry_point_rel()
}

/// The path at which a valid installation under `container_dir` keeps its
/// entry point.
pub fn expected_entry_point(container_dir: &AbsPath) -> (r: AbsPath)
    ensures
        r@ == spec_expected_entry_point(container_dir@),
{
    let rel = server_entry_point_rel();
    container_dir.join(&rel)
}

/// Where the installation currently stands: which answer it is waiting for.
#[derive(Clone, Copy, PartialEq, Eq, Structural, Debug)]
pub enum InstallPhase {
    /// Waiting to hear whether the expected entry point already exists.
    AwaitingProbe,
    /// Waiting for the package installation to finish.
    AwaitingInstall,
    /// Waiting for the runtime executable path.
    AwaitingRuntime,
}

/// The installation's state between two actions.
pub struct InstallState {
    pub version: VersionToken,
    pub container_dir: AbsPath,
    pub entry_point: AbsPath,
    pub phase: InstallPhase,
}

/// What the host is asked to do next.
pub enum InstallAction {
    /// Report whether a file exists at the given path.
    ProbeEntryPoint(AbsPath),
    /// Install the named package at the given version into the given
    /// directory.
    InstallPackage(String, VersionToken, AbsPath),
    /// Resolve the absolute path of the runtime executable.
    QueryRuntimePath,
}

/// The host's answer to the previous action.
pub enum InstallEvent {
    /// Whether the probed path exists.
    EntryPointProbed(bool),
    /// Whether the installation call succeeded.
    InstallFinished(bool),
    /// The runtime executable path, or `None` if the transport could not
    /// report one.
    RuntimePathResolved(Option<AbsPath>),
}

/// What a step decided: either the next state with the next action, or the
/// finished outcome.
pub enum InstallOutcome {
    Next(InstallState, InstallAction),
    Finished(Result<LaunchDescriptor, AdapterError>),
}

/// The abstract form of an installation state.
#[verifier::ext_equal]
pub ghost struct InstallStateModel {
    pub version: Seq<char>,
    pub container_dir: Seq<Seq<char>>,
    pub entry_point: Seq<Seq<char>>,
    pub phase: InstallPhase,
}

/// The abstract form of an action.
#[verifier::ext_equal]
pub ghost enum InstallActionModel {
    ProbeEntryPoint(Seq<Seq<char>>),
    InstallPackage(Seq<char>, Seq<char>, Seq<Seq<char>>),
    QueryRuntimePath,
}

/// The abstract form of an event.
#[verifier::ext_equal]
pub ghost enum InstallEventModel {
    EntryPointProbed(bool),
    InstallFinished(bool),
    RuntimePathResolved(Option<Seq<Seq<char>>>),
}

/// The abstract form of a step's outcome.
#[verifier::ext_equal]
pub ghost enum InstallOutcomeModel {
    Next(InstallStateModel, InstallActionModel),
    Finished(Result<LaunchDescriptorModel, AdapterError>),
}

impl View for InstallState {
    type V = InstallStateModel;

    open spec fn view(&self) -> InstallStateModel {
        InstallStateModel {
            version: self.version.text@,
            container_dir: self.container_dir@,
            entry_point: self.entry_point@,
            phase: self.phase,
        }
    }
}

impl View for InstallAction {
    type V = InstallActionModel;

    open spec fn view(&self) -> InstallActionModel {
        match self {
            InstallAction::ProbeEntryPoint(p) => InstallActionModel::ProbeEntryPoint(p@),
            InstallAction::InstallPackage(name, version, dir) => InstallActionModel::InstallPackage(
                name@,
                version.text@,
                dir@,
            ),
            InstallAction::QueryRuntimePath => InstallActionModel::QueryRuntimePath,
        }
    }
}

impl View for InstallEvent {
    type V = InstallEventModel;

    open spec fn view(&self) -> InstallEventModel {
        match self {
            InstallEvent::EntryPointProbed(exists) => InstallEventModel::EntryPointProbed(*exists),
            InstallEvent::InstallFinished(ok) => InstallEventModel::InstallFinished(*ok),
            InstallEvent::RuntimePathResolved(p) => InstallEventModel::RuntimePathResolved(
                match p {
                    Some(path) => Some(path@),
                    None => None,
                },
            ),
        }
    }
}

impl View for InstallOutcome {
    type V = InstallOutcomeModel;

    open spec fn view(&self) -> InstallOutcomeModel {
        match self {
            InstallOutcome::Next(state, action) => InstallOutcomeModel::Next(state@, action@),
            InstallOutcome::Finished(result) => InstallOutcomeModel::Finished(
                match result {
                    Ok(d) => Ok(d@),
                    Err(e) => Err(*e),
                },
            ),
        }
    }
}

/// The state the installation starts in for the given version and container
/// directory.
pub open spec fn spec_install_start_state(
    version: Seq<char>,
    container_dir: Seq<Seq<char>>,
) -> InstallStateModel {
    InstallStateModel {
        version,
        container_dir,
        entry_point: spec_expected_entry_point(container_dir),
        phase: InstallPhase::AwaitingProbe,
    }
}

/// Whether the event answers the action the phase is waiting for.
pub open spec fn spec_event_matches_phase(phase: InstallPhase, event: InstallEventModel) -> bool {
    match phase {
        InstallPhase::AwaitingProbe => event is EntryPointProbed,
        InstallPhase::AwaitingInstall => event is InstallFinished,
        InstallPhase::AwaitingRuntime => event is RuntimePathResolved,
    }
}

/// The machine's transition: what one answer decides.
///
/// An entry point that already exists short-circuits installation; a failed
/// installation finishes with `InstallFailed`; a missing runtime path
/// finishes with `RuntimeUnavailable`; a resolved runtime path finishes with
/// the launch descriptor for the expected entry point.
pub open spec fn spec_install_step(
    state: InstallStateModel,
    event: InstallEventModel,
) -> InstallOutcomeModel
    recommends
        spec_event_matches_phase(state.phase, event),
{
    match event {
        InstallEventModel::EntryPointProbed(exists) => if exists {
            InstallOutcomeModel::Next(
                InstallStateModel { phase: InstallPhase::AwaitingRuntime, ..state },
                InstallActionModel::QueryRuntimePath,
            )
        } else {
            InstallOutcomeModel::Next(
                InstallStateModel { phase: InstallPhase::AwaitingInstall, ..state },
                InstallActionModel::InstallPackage(
                    spec_package_name(),
                    state.version,
                    state.container_dir,
                ),
            )
        },
        InstallEventModel::InstallFinished(ok) => if ok {
            InstallOutcomeModel::Next(
                InstallStateModel { phase: InstallPhase::AwaitingRuntime, ..state },
                InstallActionModel::QueryRuntimePath,
            )
        } else {
            InstallOutcomeModel::Finished(Err(AdapterError::InstallFailed))
        },
        InstallEventModel::RuntimePathResolved(runtime) => match runtime {
            Some(path) => InstallOutcomeModel::Finished(
                Ok(spec_launch_descriptor(path, state.entry_point)),
            ),
            None => InstallOutcomeModel::Finished(Err(AdapterError::RuntimeUnavailable)),
        },
    }
}

/// Begin installing `version` into `container_dir`: the first action probes
/// the expected entry point, so that an existing installation is reused.
pub fn ensure_binary_start(version: VersionToken, container_dir: AbsPath) -> (r: (
    InstallState,
    InstallAction,
))
    ensures
        r.0@ == spec_install_start_state(version.text@, container_dir@),
        r.1@ == InstallActionModel::ProbeEntryPoint(spec_expected_entry_point(container_dir@)),
{
    let entry_point = expected_entry_point(&container_dir);
    let probe_target = expected_entry_point(&container_dir);
    let state = InstallState {
        version,
        container_dir,
        entry_point,
        phase: InstallPhase::AwaitingProbe,
    };
    proof {
        assert(state@ =~~= spec_install_start_state(state.version.text@, state.container_dir@));
    }
    (state, InstallAction::ProbeEntryPoint(probe_target))
}

/// Feed the host's answer to the previous action into the machine.
pub fn ensure_binary_step(state: InstallState, event: InstallEvent) -> (r: InstallOutcome)
    requires
        spec_event_matches_phase(state@.phase, event@),
    ensures
        r@ == spec_install_step(state@, event@),
{
    match event {
        InstallEvent::EntryPointProbed(exists) => {
            if exists {
                let next = InstallState { phase: InstallPhase::AwaitingRuntime, ..state };
                InstallOutcome::Next(next, InstallAction::QueryRuntimePath)
            } else {
                let package = package_name();
                let version = VersionToken { text: state.version.text.clone() };
                let dir = AbsPath { components: state.container_dir.components.clone() };
                proof {
                    assert(dir@ =~= state.container_dir@);
                }
                let next = InstallState { phase: InstallPhase::AwaitingInstall, ..state };
                InstallOutcome::Next(next, InstallAction::InstallPackage(package, version, dir))
            }
        },
        InstallEvent::InstallFinished(ok) => {
            if ok {
                let next = InstallState { phase: InstallPhase::AwaitingRuntime, ..state };
                InstallOutcome::Next(next, InstallAction::QueryRuntimePath)
            } else {
                InstallOutcome::Finished(Err(AdapterError::InstallFailed))
            }
        },
        InstallEvent::RuntimePathResolved(runtime) => match runtime {
            Some(path) => InstallOutcome::Finished(
                Ok(make_launch_descriptor(path, &state.entry_point)),
            ),
            None => InstallOutcome::Finished(Err(AdapterError::RuntimeUnavailable)),
        },
    }
}

/// One installation attempt's surroundings: what the host would answer to
/// each action the machine can take.
#[verifier::ext_equal]
pub ghost struct InstallEnvironment {
    /// Whether the expected entry point already exists in the container
    /// directory.
    pub entry_point_exists: bool,
    /// Whether the package installation call would succeed.
    pub install_succeeds: bool,
    /// The runtime executable path the transport would report, or `None` if
    /// it cannot report one.
    pub runtime_path: Option<Seq<Seq<char>>>,
}

/// The answer the environment gives to the action the phase waits for.
pub open spec fn spec_environment_event(
    phase: InstallPhase,
    env: InstallEnvironment,
) -> InstallEventModel {
    match phase {
        InstallPhase::AwaitingProbe => InstallEventModel::EntryPointProbed(env.entry_point_exists),
        InstallPhase::AwaitingInstall => InstallEventModel::InstallFinished(env.install_succeeds),
        InstallPhase::AwaitingRuntime => InstallEventModel::RuntimePathResolved(env.runtime_path),
    }
}

/// The actions a run of the machine performs from `state` onward in `env`,
/// after at most `fuel` more answers.
pub open spec fn spec_run_actions_from(
    state: InstallStateModel,
    env: InstallEnvironment,
    fuel: nat,
) -> Seq<InstallActionModel>
    decreases fuel,
{
    if fuel == 0 {
        Seq::empty()
    } else {
        match spec_install_step(state, spec_environment_event(state.phase, env)) {
            InstallOutcomeModel::Next(next, action) => seq![action] + spec_run_actions_from(
                next,
                env,
                (fuel - 1) as nat,
            ),
            InstallOutcomeModel::Finished(_) => Seq::empty(),
        }
    }
}

/// The outcome a run of the machine reaches from `state` in `env` within
/// `fuel` more answers, or `None` if it has not finished by then.
pub open spec fn spec_run_result_from(
    state: InstallStateModel,
    env: InstallEnvironment,
    fuel: nat,
) -> Option<Result<LaunchDescriptorModel, AdapterError>>
    decreases fuel,
{
    if fuel == 0 {
        None
    } else {
        match spec_install_step(state, spec_environment_event(state.phase, env)) {
            InstallOutcomeModel::Next(next, _) => spec_run_result_from(next, env, (fuel - 1) as nat),
            InstallOutcomeModel::Finished(result) => Some(result),
        }
    }
}

/// Enough answers for any run: probe, install, runtime query.
pub open spec fn spec_run_fuel() -> nat {
    3
}

/// Every action one whole installation attempt performs: the initial probe,
/// then whatever the answers decide.
pub open spec fn spec_ensure_binary_actions(
    version: Seq<char>,
    container_dir: Seq<Seq<char>>,
    env: InstallEnvironment,
) -> Seq<InstallActionModel> {
    seq![
        InstallActionModel::ProbeEntryPoint(spec_expected_entry_point(container_dir)),
    ] + spec_run_actions_from(spec_install_start_state(version, container_dir), env, spec_run_fuel())
}

/// What one whole installation attempt returns.
pub open spec fn spec_ensure_binary_result(
    version: Seq<char>,
    container_dir: Seq<Seq<char>>,
    env: InstallEnvironment,
) -> Option<Result<LaunchDescriptorModel, AdapterError>> {
    spec_run_result_from(spec_install_start_state(version, container_dir), env, spec_run_fuel())
}

/// An installation attempt always finishes, and with exactly this outcome:
/// a failed install is `InstallFailed` (unless the entry point already
/// existed), a missing runtime path is `RuntimeUnavailable`, and otherwise
/// the result is the launch descriptor for the expected entry point.
pub proof fn lemma_ensure_binary_outcome(
    version: Seq<char>,
    container_dir: Seq<Seq<char>>,
    env: InstallEnvironment,
)
    ensures
        spec_ensure_binary_result(version, container_dir, env) == Some(
            if !env.entry_point_exists && !env.install_succeeds {
                Err::<LaunchDescriptorModel, AdapterError>(AdapterError::InstallFailed)
            } else {
                match env.runtime_path {
                    None => Err(AdapterError::RuntimeUnavailable),
                    Some(runtime) => Ok(
                        spec_launch_descriptor(
                            runtime,
                            spec_expected_entry_point(container_dir),
                        ),
                    ),
                }
            },
        ),
{
    reveal_with_fuel(spec_run_result_from, 5);
}

/// Installation is performed at most once per attempt, and not at all when
/// the expected entry point already exists: a second attempt over the same
/// container directory, made after a first one installed there, answers the
/// probe with "exists" and so never reaches the install action again.
pub proof fn lemma_ensure_binary_idempotent(
    version: Seq<char>,
    container_dir: Seq<Seq<char>>,
    env: InstallEnvironment,
)
    ensures
        env.entry_point_exists ==> forall|i: int|
            0 <= i < spec_ensure_binary_actions(version, container_dir, env).len()
                ==> !(#[trigger] spec_ensure_binary_actions(version, container_dir, env)[i]
                is InstallPackage),
        forall|i: int, j: int|
            #![auto]
            0 <= i < j < spec_ensure_binary_actions(version, container_dir, env).len() ==> !(
            spec_ensure_binary_actions(version, container_dir, env)[i] is InstallPackage
                && spec_ensure_binary_actions(version, container_dir, env)[j] is InstallPackage),
{
    reveal_with_fuel(spec_run_actions_from, 5);
    let actions = spec_ensure_binary_actions(version, container_dir, env);
    let probe_action = InstallActionModel::ProbeEntryPoint(
        spec_expected_entry_point(container_dir),
    );
    let install_action = InstallActionModel::InstallPackage(
        spec_package_name(),
        version,
        container_dir,
    );
    if env.entry_point_exists {
        assert(actions =~= seq![probe_action, InstallActionModel::QueryRuntimePath]);
    } else if env.install_succeeds {
        assert(actions =~= seq![
            probe_action,
            install_action,
            InstallActionModel::QueryRuntimePath,
        ]);
    } else {
        assert(actions =~= seq![probe_action, install_action]);
    }
}

} // verus!
