//! Who the running executable is: where it lies and on which platform it runs.

use crate::error::Error;
use crate::paths::{file_stem, file_stem_of};
use platforms::Platform;
use vstd::prelude::*;

verus! {

/// The name under which the program acts as the redirector.
pub const SHADOWED_TOOL: &'static str = "cargo";

/// The name of this program.
pub const CRATE_NAME: &'static str = "cargo-xbuild-redirector";

/// The reserved file name under which the original `cargo` is kept, beside
/// the place where it was installed.
pub const REDIRECTED_CARGO_NAME: &'static str = "cargo-xbuild-redirector-real";

/// The role that the program plays in one run.
#[derive(Clone, Copy, Debug, PartialEq, Eq, Structural)]
pub enum Role {
    /// Invoked as the shadowed tool: forward the invocation.
    Redirector,
    /// Invoked under any other name: install.
    Installer,
}

/// The role for the name under which the program was invoked, where it has one.
pub open spec fn role_for(invoked_name: Option<Seq<char>>) -> Role {
    if invoked_name == Some(SHADOWED_TOOL@) {
        Role::Redirector
    } else {
        Role::Installer
    }
}

/// One platform of the registry, as far as guessing the host reads it.
#[derive(Debug, PartialEq, Eq)]
pub struct PlatformEntry {
    /// The target triple that names the platform.
    pub target_triple: String,
    /// Its `target_arch`.
    pub arch: String,
    /// Its `target_os`.
    pub os: String,
    /// Its `target_env`; empty where the platform has none.
    pub env: String,
}

/// What a [`PlatformEntry`] holds.
pub struct PlatformEntryView {
    pub target_triple: Seq<char>,
    pub arch: Seq<char>,
    pub os: Seq<char>,
    pub env: Seq<char>,
}

impl View for PlatformEntry {
    type V = PlatformEntryView;

    open spec fn view(&self) -> PlatformEntryView {
        PlatformEntryView {
            target_triple: self.target_triple@,
            arch: self.arch@,
            os: self.os@,
            env: self.env@,
        }
    }
}

impl DeepView for PlatformEntry {
    type V = PlatformEntryView;

    open spec fn deep_view(&self) -> PlatformEntryView {
        self@
    }
}

/// The entry describes a platform with this architecture, system and
/// environment.
pub open spec fn describes(
    entry: PlatformEntryView,
    arch: Seq<char>,
    os: Seq<char>,
    env: Seq<char>,
) -> bool {
    entry.arch == arch && entry.os == os && entry.env == env
}

/// `index` is the place of the first entry of `registry` that describes the
/// platform.
pub open spec fn is_first_described(
    registry: Seq<PlatformEntryView>,
    arch: Seq<char>,
    os: Seq<char>,
    env: Seq<char>,
    index: int,
) -> bool {
    &&& 0 <= index < registry.len()
    &&& describes(registry[index], arch, os, env)
    &&& forall|j: int| 0 <= j < index ==> !describes(#[trigger] registry[j], arch, os, env)
}

/// The best guess at a platform's triple: that of the first entry of the
/// registry that describes it.
pub open spec fn guessed_triple(
    registry: Seq<PlatformEntryView>,
    arch: Seq<char>,
    os: Seq<char>,
    env: Seq<char>,
) -> Option<Seq<char>> {
    if exists|i: int| is_first_described(registry, arch, os, env, i) {
        Some(registry[choose|i: int| is_first_described(registry, arch, os, env, i)].target_triple)
    } else {
        None
    }
}

/// A registry has at most one first entry that describes a platform.
pub proof fn first_described_is_unique(
    registry: Seq<PlatformEntryView>,
    arch: Seq<char>,
    os: Seq<char>,
    env: Seq<char>,
    index: int,
)
    requires
        is_first_described(registry, arch, os, env, index),
    ensures
        guessed_triple(registry, arch, os, env) == Some(registry[index].target_triple),
{
    let chosen = choose|i: int| is_first_described(registry, arch, os, env, i);
    assert(is_first_described(registry, arch, os, env, chosen));
    if chosen < index {
        assert(!describes(registry[chosen], arch, os, env));
    } else if index < chosen {
        assert(!describes(registry[index], arch, os, env));
    }
}

/// What `platforms::Platform::ALL` lists at a place, counted from zero: the
/// platform's triple with what `Arch::as_str`, `OS::as_str` and `Env::as_str`
/// give for it. `None` from the end of the list on.
pub uninterp spec fn registered_platform(index: nat) -> Option<PlatformEntryView>;

/// Reads the entry of `platforms::Platform::ALL` at `index` and the strings
/// that `Arch::as_str`, `OS::as_str` and `Env::as_str` give for it. What the
/// list holds is the registry's matter; the contract only names it.
#[verifier::external_body]
fn platform_at(index: usize) -> (entry: Option<PlatformEntry>)
    ensures
        entry.deep_view() == registered_platform(index as nat),
{
    Platform::ALL.get(index).map(|platform| PlatformEntry {
        target_triple: platform.target_triple.to_owned(),
        arch: platform.target_arch.as_str().to_owned(),
        os: platform.target_os.as_str().to_owned(),
        env: platform.target_env.as_str().to_owned(),
    })
}

/// `registry` is the list of registered platforms: it holds every entry in
/// its place, and the list ends where it ends.
pub open spec fn is_registry(registry: Seq<PlatformEntryView>) -> bool {
    &&& forall|i: nat|
        i < registry.len() ==> #[trigger] registered_platform(i) == Some(registry[i as int])
    &&& registered_platform(registry.len()) is None
}

/// The list of registered platforms, in the registry's order.
pub open spec fn registry() -> Seq<PlatformEntryView> {
    choose|registry: Seq<PlatformEntryView>| is_registry(registry)
}

/// There is at most one list of registered platforms.
pub proof fn registry_is_unique(listed: Seq<PlatformEntryView>)
    requires
        is_registry(listed),
    ensures
        registry() == listed,
{
    let chosen = registry();
    assert(is_registry(chosen));
    if chosen.len() < listed.len() {
        assert(registered_platform(chosen.len()) == Some(listed[chosen.len() as int]));
    } else if listed.len() < chosen.len() {
        assert(registered_platform(listed.len()) == Some(chosen[listed.len() as int]));
    }
    assert forall|i: int| 0 <= i < listed.len() implies chosen[i] == listed[i] by {
        assert(registered_platform(i as nat) == Some(listed[i]));
        assert(registered_platform(i as nat) == Some(chosen[i]));
    }
    assert(chosen =~= listed);
}

/// Guesses a platform's triple from a registry: the triple of the first entry
/// with this architecture, system and environment, `None` where no entry has
/// them.
pub fn guess_triple(registry: &Vec<PlatformEntry>, arch: &str, os: &str, env: &str) -> (guess:
    Option<String>)
    ensures
        guess.deep_view() == guessed_triple(registry.deep_view(), arch@, os@, env@),
{
    let wanted_arch = arch.to_owned();
    let wanted_os = os.to_owned();
    let wanted_env = env.to_owned();
    let mut i: usize = 0;
    while i < registry.len()
        invariant
            i <= registry.len(),
            wanted_arch@ == arch@,
            wanted_os@ == os@,
            wanted_env@ == env@,
            forall|j: int|
                0 <= j < i ==> !describes(#[trigger] registry.deep_view()[j], arch@, os@, env@),
        decreases registry.len() - i,
    {
        let entry = &registry[i];
        assert(registry.deep_view()[i as int] == entry@);
        if entry.arch == wanted_arch && entry.os == wanted_os && entry.env == wanted_env {
            proof {
                first_described_is_unique(registry.deep_view(), arch@, os@, env@, i as int);
            }
            return Some(entry.target_triple.clone());
        }
        i += 1;
    }
    None
}

/// Guesses the triple of the platform with this architecture, system and
/// environment from the registry of Rust platforms: the triple of the first
/// registered platform that has them, `None` where none has.
pub fn guess_host_triple(arch: &str, os: &str, env: &str) -> (guess: Option<String>)
    ensures
        guess.deep_view() == guessed_triple(registry(), arch@, os@, env@),
{
    let mut listed: Vec<PlatformEntry> = Vec::new();
    loop
        invariant
            forall|i: nat|
                i < listed.len() ==> #[trigger] registered_platform(i) == Some(
                    listed.deep_view()[i as int],
                ),
        ensures
            registered_platform(listed.len() as nat) is None,
        decreases usize::MAX - listed.len(),
    {
        match platform_at(listed.len()) {
            None => {
                break ;
            },
            Some(entry) => {
                listed.push(entry);
            },
        }
    }
    proof {
        registry_is_unique(listed.deep_view());
    }
    guess_triple(&listed, arch, os, env)
}

/// The running executable: where it lies and the platform it runs on.
#[derive(Debug, PartialEq, Eq)]
pub struct CargoRedirectHelper {
    /// The absolute path of the running executable.
    pub my_path: String,
    /// The triple of the host platform.
    pub my_host_triple: String,
}

/// What a [`CargoRedirectHelper`] holds.
pub struct IdentityView {
    pub my_path: Seq<char>,
    pub my_host_triple: Seq<char>,
}

impl View for CargoRedirectHelper {
    type V = IdentityView;

    open spec fn view(&self) -> IdentityView {
        IdentityView { my_path: self.my_path@, my_host_triple: self.my_host_triple@ }
    }
}

/// The identity for a resolved path and a guessed host triple: the path must
/// have been resolved, and then the platform must be known.
pub open spec fn identity_for(my_path: Option<Seq<char>>, host_triple: Option<Seq<char>>) -> Result<
    IdentityView,
    Error,
> {
    match (my_path, host_triple) {
        (None, _) => Err(Error::IoError),
        (Some(_), None) => Err(Error::PlatformUnknown),
        (Some(path), Some(triple)) => Ok(IdentityView { my_path: path, my_host_triple: triple }),
    }
}

impl CargoRedirectHelper {
    /// Puts the identity together from what was found: `my_path` is the path
    /// of the running executable, `None` where it could not be resolved;
    /// `host_triple` is the guess at the host platform, `None` where there is
    /// none.
    pub fn new(my_path: Option<String>, host_triple: Option<String>) -> (identity: Result<
        CargoRedirectHelper,
        Error,
    >)
        ensures
            (match identity {
                Ok(helper) => Ok(helper@),
                Err(error) => Err(error),
            }) == identity_for(my_path.deep_view(), host_triple.deep_view()),
            identity is Err <==> my_path is None || host_triple is None,
    {
        match my_path {
            None => Err(Error::IoError),
            Some(my_path) => match host_triple {
                None => Err(Error::PlatformUnknown),
                Some(my_host_triple) => Ok(CargoRedirectHelper { my_path, my_host_triple }),
            },
        }
    }

    /// The role of this executable: the redirector when the file stem of its
    /// path is `cargo`, the installer otherwise.
    pub fn role(&self) -> (role: Role)
        ensures
            role == role_for(file_stem_of(self.my_path@)),
            role == Role::Redirector <==> file_stem_of(self.my_path@) == Some(SHADOWED_TOOL@),
    {
        main_helper(file_stem(self.my_path.as_str()))
    }
}

/// Chooses the role from the name under which the program was invoked: the
/// redirector when that name is `cargo`, the installer otherwise.
pub fn main_helper(invoked_name: Option<String>) -> (role: Role)
    ensures
        role == role_for(invoked_name.deep_view()),
        role == Role::Redirector <==> invoked_name.deep_view() == Some(SHADOWED_TOOL@),
{
    match invoked_name {
        Some(name) => {
            let shadowed = SHADOWED_TOOL.to_owned();
            if name == shadowed {
                Role::Redirector
            } else {
                Role::Installer
            }
        },
        None => Role::Installer,
    }
}

} // verus!
