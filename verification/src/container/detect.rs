//! The container detection engine: a sequential, first-match-wins chain
//! of probes with no reconciliation. It never fails: a probe that could
//! not be read counts as absent evidence, and a chain that finds nothing
//! ends in confirmed absence.

use vstd::prelude::*;
use crate::container::{spec_container_from_text, Container};
use crate::text::{
    contains_seq, starts_with, str_contains, str_eq, str_starts_with, str_strip_eol, strip_eol,
};

verus! {

/// Everything the container engine reads from the running system, as
/// plain values. A text probe that was absent or unreadable is `None`:
/// this engine swallows read failures by design.
#[derive(Debug)]
pub struct ContainerEvidence {
    /// Whether the guest-only virtualized-environment pseudo-path exists.
    pub vz_present: bool,
    /// Whether its host-only sibling pseudo-path exists.
    pub bc_present: bool,
    /// First line of the kernel release string file.
    pub osrelease: Option<String>,
    /// Tracer of the current process, zero when it has none.
    pub tracer_pid: u64,
    /// First line of the tracer's command-name file.
    pub tracer_comm: Option<String>,
    /// First line of the container-manager file.
    pub container_manager: Option<String>,
    /// Whether the container-environment marker file exists.
    pub containerenv_present: bool,
    /// Whether the Docker marker file exists.
    pub dockerenv_present: bool,
    /// First line of the systemd container file.
    pub systemd_container: Option<String>,
    /// The `container` environment variable of the init process (or of
    /// the current process, when it is init itself).
    pub init_env_container: Option<String>,
}

/// The kernel release line betrays Windows Subsystem for Linux.
pub open spec fn spec_wsl(osrelease: Option<String>) -> bool {
    match osrelease {
        Option::Some(s) => contains_seq(s@, "Microsoft"@) || contains_seq(s@, "WSL"@),
        Option::None => false,
    }
}

/// A nonzero tracer whose command name starts with `proot`.
pub open spec fn spec_proot(tracer_pid: u64, tracer_comm: Option<String>) -> bool {
    tracer_pid != 0 && match tracer_comm {
        Option::Some(c) => starts_with(c@, "proot"@),
        Option::None => false,
    }
}

/// The marker-file probe behind an `oci` manager value: the
/// container-environment marker names Podman, the Docker marker names
/// Docker, and neither still confirms some container.
pub open spec fn spec_container_files(containerenv: bool, dockerenv: bool) -> Container {
    if containerenv {
        Container::Podman
    } else if dockerenv {
        Container::Docker
    } else {
        Container::Other
    }
}

/// What a present container-manager line decides, its end-of-line
/// stripped: exactly `oci` defers to the marker files; anything else
/// goes through the token table.
pub open spec fn spec_manager(m: Seq<char>, containerenv: bool, dockerenv: bool) -> Option<
    Container,
> {
    if strip_eol(m) == "oci"@ {
        let c = spec_container_files(containerenv, dockerenv);
        if c == Container::Absent {
            Option::None
        } else {
            Option::Some(c)
        }
    } else {
        Option::Some(spec_container_from_text(strip_eol(m)))
    }
}

/// The chain past the manager probe: the systemd container file (its
/// end-of-line stripped), then the init process's `container`
/// environment variable, each through the token table; nothing left
/// means confirmed absence.
pub open spec fn spec_container_late(ev: ContainerEvidence) -> Container {
    match ev.systemd_container {
        Option::Some(s) => spec_container_from_text(strip_eol(s@)),
        Option::None => match ev.init_env_container {
            Option::Some(v) => spec_container_from_text(v@),
            Option::None => Container::Absent,
        },
    }
}

/// The whole container detection: the virtualized-environment pseudo-path
/// pair first, then the kernel release line, the tracer, the
/// container-manager file, and the late chain, first match wins.
pub open spec fn spec_container_detect(ev: ContainerEvidence) -> Container {
    if ev.vz_present && !ev.bc_present {
        Container::OpenVZ
    } else if spec_wsl(ev.osrelease) {
        Container::WSL
    } else if spec_proot(ev.tracer_pid, ev.tracer_comm) {
        Container::PRoot
    } else {
        match ev.container_manager {
            Option::Some(m) => match spec_manager(
                m@,
                ev.containerenv_present,
                ev.dockerenv_present,
            ) {
                Option::Some(c) => c,
                Option::None => spec_container_late(ev),
            },
            Option::None => spec_container_late(ev),
        }
    }
}

/// The virtualized-environment pseudo-path pair: guest marker present,
/// host marker absent.
pub fn detect_vz(vz_present: bool, bc_present: bool) -> (r: bool)
    ensures
        r == (vz_present && !bc_present),
{
    vz_present && !bc_present
}

/// Whether the kernel release line betrays Windows Subsystem for Linux.
pub fn detect_wsl(osrelease: &Option<String>) -> (r: bool)
    ensures
        r == spec_wsl(*osrelease),
{
    match osrelease {
        Option::Some(s) => {
            str_contains(s.as_str(), "Microsoft") || str_contains(s.as_str(), "WSL")
        },
        Option::None => false,
    }
}

/// Whether a nonzero tracer's command name starts with `proot`.
pub fn detect_proot(tracer_pid: u64, tracer_comm: &Option<String>) -> (r: bool)
    ensures
        r == spec_proot(tracer_pid, *tracer_comm),
{
    if tracer_pid == 0 {
        return false;
    }
    match tracer_comm {
        Option::Some(c) => str_starts_with(c.as_str(), "proot"),
        Option::None => false,
    }
}

/// The marker-file probe behind an `oci` manager value.
pub fn detect_container_files(containerenv_present: bool, dockerenv_present: bool) -> (r:
    Container)
    ensures
        r == spec_container_files(containerenv_present, dockerenv_present),
{
    if containerenv_present {
        Container::Podman
    } else if dockerenv_present {
        Container::Docker
    } else {
        Container::Other
    }
}

/// What a present container-manager line decides.
pub fn parse_container_from_manager(
    manager: &str,
    containerenv_present: bool,
    dockerenv_present: bool,
) -> (r: Option<Container>)
    ensures
        r == spec_manager(manager@, containerenv_present, dockerenv_present),
{
    let bare = str_strip_eol(manager);
    if str_eq(bare, "oci") {
        let c = detect_container_files(containerenv_present, dockerenv_present);
        if c == Container::Absent {
            Option::None
        } else {
            Option::Some(c)
        }
    } else {
        Option::Some(Container::from_text(bare))
    }
}

/// The chain past the manager probe.
fn container_late(ev: &ContainerEvidence) -> (r: Container)
    ensures
        r == spec_container_late(*ev),
{
    match &ev.systemd_container {
        Option::Some(s) => Container::from_text(str_strip_eol(s.as_str())),
        Option::None => match &ev.init_env_container {
            Option::Some(v) => Container::from_text(v.as_str()),
            Option::None => Container::Absent,
        },
    }
}

/// The whole container detection of the evidence.
pub fn container(ev: &ContainerEvidence) -> (r: Container)
    ensures
        r == spec_container_detect(*ev),
{
    if detect_vz(ev.vz_present, ev.bc_present) {
        return Container::OpenVZ;
    }
    if detect_wsl(&ev.osrelease) {
        return Container::WSL;
    }
    if detect_proot(ev.tracer_pid, &ev.tracer_comm) {
        return Container::PRoot;
    }
    match &ev.container_manager {
        Option::Some(m) => {
            match parse_container_from_manager(
                m.as_str(),
                ev.containerenv_present,
                ev.dockerenv_present,
            ) {
                Option::Some(c) => c,
                Option::None => container_late(ev),
            }
        },
        Option::None => container_late(ev),
    }
}

impl ContainerEvidence {
    /// Evidence with every probe empty: no markers, no lines, no tracer.
    pub fn empty() -> (r: ContainerEvidence)
        ensures
            !r.vz_present,
            !r.bc_present,
            r.osrelease is None,
            r.tracer_pid == 0,
            r.tracer_comm is None,
            r.container_manager is None,
            !r.containerenv_present,
            !r.dockerenv_present,
            r.systemd_container is None,
            r.init_env_container is None,
    {
        ContainerEvidence {
            vz_present: false,
            bc_present: false,
            osrelease: Option::None,
            tracer_pid: 0,
            tracer_comm: Option::None,
            container_manager: Option::None,
            containerenv_present: false,
            dockerenv_present: false,
            systemd_container: Option::None,
            init_env_container: Option::None,
        }
    }
}

} // verus!
