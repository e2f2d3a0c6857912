//! The `Container` classification: which container manager, if any, the
//! current process runs under.

pub mod detect;

use vstd::prelude::*;
use crate::text::str_eq;

verus! {

/// One container classification. `Absent` means confirmed absence of a
/// container; `Other` means a container confirmed but the manager
/// unidentified. Exactly one variant holds at a time.
#[derive(Debug, Clone, Copy, PartialEq, Eq, Structural)]
#[allow(non_camel_case_types)]
pub enum Container {
    systemd_nspawn,
    lxc_libvirt,
    lxc,
    OpenVZ,
    Docker,
    Podman,
    rkt,
    WSL,
    PRoot,
    pouch,
    Absent,
    Other,
}

/// The canonical display name of each variant.
pub open spec fn spec_container_text(c: Container) -> Seq<char> {
    match c {
        Container::systemd_nspawn => "systemd_nspawn"@,
        Container::lxc_libvirt => "lxc_libvirt"@,
        Container::lxc => "lxc"@,
        Container::OpenVZ => "OpenVZ"@,
        Container::Docker => "Docker"@,
        Container::Podman => "Podman"@,
        Container::rkt => "rkt"@,
        Container::WSL => "WSL"@,
        Container::PRoot => "PRoot"@,
        Container::pouch => "pouch"@,
        Container::Absent => "none"@,
        Container::Other => "other"@,
    }
}

/// The variant a kernel or environment token denotes; any unknown token,
/// the empty string included, denotes `Other`. Matching is exact, not
/// case-insensitive.
pub open spec fn spec_container_from_text(s: Seq<char>) -> Container {
    if s == "lxc"@ {
        Container::lxc
    } else if s == "lxc-libvirt"@ {
        Container::lxc_libvirt
    } else if s == "systemd-nspawn"@ {
        Container::systemd_nspawn
    } else if s == "docker"@ {
        Container::Docker
    } else if s == "podman"@ {
        Container::Podman
    } else if s == "rkt"@ {
        Container::rkt
    } else if s == "wsl"@ {
        Container::WSL
    } else if s == "proot"@ {
        Container::PRoot
    } else if s == "pouch"@ {
        Container::pouch
    } else {
        Container::Other
    }
}

/// The fixed token the kernel and environment emit for each specific
/// variant. `OpenVZ` is detected by a filesystem probe alone and has no
/// token; `Absent` and `Other` have none either.
pub open spec fn spec_container_kernel_token(c: Container) -> Option<Seq<char>> {
    match c {
        Container::lxc => Option::Some("lxc"@),
        Container::lxc_libvirt => Option::Some("lxc-libvirt"@),
        Container::systemd_nspawn => Option::Some("systemd-nspawn"@),
        Container::Docker => Option::Some("docker"@),
        Container::Podman => Option::Some("podman"@),
        Container::rkt => Option::Some("rkt"@),
        Container::WSL => Option::Some("wsl"@),
        Container::PRoot => Option::Some("proot"@),
        Container::pouch => Option::Some("pouch"@),
        Container::OpenVZ => Option::None,
        Container::Absent => Option::None,
        Container::Other => Option::None,
    }
}

/// The specific variants, in the fixed order used for enumeration;
/// `Absent` and `Other` are excluded.
pub open spec fn spec_container_list() -> Seq<Container> {
    seq![
        Container::systemd_nspawn,
        Container::lxc_libvirt,
        Container::lxc,
        Container::OpenVZ,
        Container::Docker,
        Container::Podman,
        Container::rkt,
        Container::WSL,
        Container::PRoot,
        Container::pouch,
    ]
}

impl Container {
    /// True for every variant but `Absent`: `Other` still means "some
    /// container, unknown which".
    pub fn is_container(&self) -> (r: bool)
        ensures
            r == (*self != Container::Absent),
    {
        *self != Container::Absent
    }

    /// Every specific variant, in a fixed, stable order.
    pub fn list() -> (r: Vec<Container>)
        ensures
            r@ == spec_container_list(),
    {
        let mut v: Vec<Container> = Vec::new();
        v.push(Container::systemd_nspawn);
        v.push(Container::lxc_libvirt);
        v.push(Container::lxc);
        v.push(Container::OpenVZ);
        v.push(Container::Docker);
        v.push(Container::Podman);
        v.push(Container::rkt);
        v.push(Container::WSL);
        v.push(Container::PRoot);
        v.push(Container::pouch);
        proof {
            assert(v@ =~= spec_container_list());
        }
        v
    }

    /// The canonical display name.
    pub fn as_str(&self) -> (r: &'static str)
        ensures
            r@ == spec_container_text(*self),
    {
        match self {
            Container::systemd_nspawn => "systemd_nspawn",
            Container::lxc_libvirt => "lxc_libvirt",
            Container::lxc => "lxc",
            Container::OpenVZ => "OpenVZ",
            Container::Docker => "Docker",
            Container::Podman => "Podman",
            Container::rkt => "rkt",
            Container::WSL => "WSL",
            Container::PRoot => "PRoot",
            Container::pouch => "pouch",
            Container::Absent => "none",
            Container::Other => "other",
        }
    }

    /// Map a kernel or environment token to its variant; anything unknown
    /// is `Other`.
    pub fn from_text(s: &str) -> (r: Container)
        ensures
            r == spec_container_from_text(s@),
    {
        if str_eq(s, "lxc") {
            Container::lxc
        } else if str_eq(s, "lxc-libvirt") {
            Container::lxc_libvirt
        } else if str_eq(s, "systemd-nspawn") {
            Container::systemd_nspawn
        } else if str_eq(s, "docker") {
            Container::Docker
        } else if str_eq(s, "podman") {
            Container::Podman
        } else if str_eq(s, "rkt") {
            Container::rkt
        } else if str_eq(s, "wsl") {
            Container::WSL
        } else if str_eq(s, "proot") {
            Container::PRoot
        } else if str_eq(s, "pouch") {
            Container::pouch
        } else {
            Container::Other
        }
    }
}

/// Parsing is left inverse to the kernel token: every specific variant
/// that has a token comes back from it.
pub proof fn lemma_container_token_round_trip(c: Container)
    ensures
        (match spec_container_kernel_token(c) {
            Option::Some(t) => spec_container_from_text(t) == c,
            Option::None => c == Container::OpenVZ || c == Container::Absent || c == Container::Other,
        }),
{
    broadcast use vstd::string::group_string_axioms;

    reveal_strlit("lxc");
    reveal_strlit("lxc-libvirt");
    reveal_strlit("systemd-nspawn");
    reveal_strlit("docker");
    reveal_strlit("podman");
    reveal_strlit("rkt");
    reveal_strlit("wsl");
    reveal_strlit("proot");
    reveal_strlit("pouch");
    assert("lxc"@.len() == 3);
    assert("lxc-libvirt"@.len() == 11);
    assert("systemd-nspawn"@.len() == 14);
    assert("docker"@.len() == 6);
    assert("podman"@.len() == 6);
    assert("rkt"@.len() == 3);
    assert("wsl"@.len() == 3);
    assert("proot"@.len() == 5);
    assert("pouch"@.len() == 5);
    assert("docker"@[0] == 'd' && "podman"@[0] == 'p');
    assert("lxc"@[0] == 'l' && "rkt"@[0] == 'r' && "wsl"@[0] == 'w');
    assert("proot"@[1] == 'r' && "pouch"@[1] == 'o');
    match c {
        Container::lxc => assert(spec_container_from_text("lxc"@) == Container::lxc),
        Container::lxc_libvirt => assert(spec_container_from_text("lxc-libvirt"@)
            == Container::lxc_libvirt),
        Container::systemd_nspawn => assert(spec_container_from_text("systemd-nspawn"@)
            == Container::systemd_nspawn),
        Container::Docker => assert(spec_container_from_text("docker"@) == Container::Docker),
        Container::Podman => assert(spec_container_from_text("podman"@) == Container::Podman),
        Container::rkt => assert(spec_container_from_text("rkt"@) == Container::rkt),
        Container::WSL => assert(spec_container_from_text("wsl"@) == Container::WSL),
        Container::PRoot => assert(spec_container_from_text("proot"@) == Container::PRoot),
        Container::pouch => assert(spec_container_from_text("pouch"@) == Container::pouch),
        Container::OpenVZ => (),
        Container::Absent => (),
        Container::Other => (),
    }
}

/// A token outside the known table, the empty string included, parses
/// to `Other`.
pub proof fn lemma_container_unknown_token_is_other(s: Seq<char>)
    requires
        s != "lxc"@,
        s != "lxc-libvirt"@,
        s != "systemd-nspawn"@,
        s != "docker"@,
        s != "podman"@,
        s != "rkt"@,
        s != "wsl"@,
        s != "proot"@,
        s != "pouch"@,
    ensures
        spec_container_from_text(s) == Container::Other,
{
}

} // verus!
