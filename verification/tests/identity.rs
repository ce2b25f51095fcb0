use cargo_xbuild_redirector::error::Error;
use cargo_xbuild_redirector::identity::{
    guess_host_triple, guess_triple, CargoRedirectHelper, PlatformEntry, Role, CRATE_NAME,
    REDIRECTED_CARGO_NAME, SHADOWED_TOOL,
};
use cargo_xbuild_redirector::main_helper;

fn entry(triple: &str, arch: &str, os: &str, env: &str) -> PlatformEntry {
    PlatformEntry {
        target_triple: triple.to_string(),
        arch: arch.to_string(),
        os: os.to_string(),
        env: env.to_string(),
    }
}

fn helper(path: &str) -> CargoRedirectHelper {
    CargoRedirectHelper {
        my_path: path.to_string(),
        my_host_triple: "x86_64-unknown-linux-gnu".to_string(),
    }
}

#[test]
fn reserved_names() {
    assert_eq!(CRATE_NAME, "cargo-xbuild-redirector");
    assert_eq!(REDIRECTED_CARGO_NAME, "cargo-xbuild-redirector-real");
    assert_eq!(SHADOWED_TOOL, "cargo");
}

#[test]
fn invoked_as_cargo_is_the_redirector() {
    assert_eq!(main_helper(Some("cargo".to_string())), Role::Redirector);
}

#[test]
fn invoked_under_another_name_is_the_installer() {
    assert_eq!(main_helper(Some("cargo-xbuild-redirector".to_string())), Role::Installer);
    assert_eq!(main_helper(Some("Cargo".to_string())), Role::Installer);
    assert_eq!(main_helper(Some("cargo ".to_string())), Role::Installer);
    assert_eq!(main_helper(Some(String::new())), Role::Installer);
}

#[test]
fn invoked_without_a_name_is_the_installer() {
    assert_eq!(main_helper(None), Role::Installer);
}

#[test]
fn role_goes_by_the_file_stem() {
    assert_eq!(helper("/home/me/.cargo/bin/cargo").role(), Role::Redirector);
    assert_eq!(helper("/home/me/.cargo/bin/cargo.exe").role(), Role::Redirector);
    assert_eq!(helper("/home/me/cargo/bin/cargo-xbuild-redirector").role(), Role::Installer);
    assert_eq!(helper("/home/me/cargo/installer").role(), Role::Installer);
}

#[test]
fn identity_needs_the_own_path() {
    assert_eq!(
        CargoRedirectHelper::new(None, Some("x86_64-unknown-linux-gnu".to_string())),
        Err(Error::IoError)
    );
    assert_eq!(CargoRedirectHelper::new(None, None), Err(Error::IoError));
}

#[test]
fn identity_needs_the_platform() {
    assert_eq!(
        CargoRedirectHelper::new(Some("/usr/bin/cargo".to_string()), None),
        Err(Error::PlatformUnknown)
    );
}

#[test]
fn identity_holds_path_and_triple() {
    let identity = CargoRedirectHelper::new(
        Some("/usr/bin/cargo".to_string()),
        Some("aarch64-apple-darwin".to_string()),
    )
    .unwrap();
    assert_eq!(identity.my_path, "/usr/bin/cargo");
    assert_eq!(identity.my_host_triple, "aarch64-apple-darwin");
}

#[test]
fn guess_takes_the_first_entry_that_fits() {
    let registry = vec![
        entry("a-one", "a", "linux", "gnu"),
        entry("b-one", "b", "linux", "gnu"),
        entry("b-two", "b", "linux", "gnu"),
        entry("b-musl", "b", "linux", "musl"),
    ];
    assert_eq!(guess_triple(&registry, "b", "linux", "gnu"), Some("b-one".to_string()));
    assert_eq!(guess_triple(&registry, "b", "linux", "musl"), Some("b-musl".to_string()));
    assert_eq!(guess_triple(&registry, "a", "linux", "gnu"), Some("a-one".to_string()));
}

#[test]
fn guess_needs_all_three_to_fit() {
    let registry = vec![entry("a-one", "a", "linux", "gnu")];
    assert_eq!(guess_triple(&registry, "b", "linux", "gnu"), None);
    assert_eq!(guess_triple(&registry, "a", "windows", "gnu"), None);
    assert_eq!(guess_triple(&registry, "a", "linux", ""), None);
    assert_eq!(guess_triple(&Vec::new(), "a", "linux", "gnu"), None);
}

#[test]
fn host_guess_reads_the_platform_registry() {
    assert_eq!(
        guess_host_triple("x86_64", "linux", "gnu"),
        Some("x86_64-unknown-linux-gnu".to_string())
    );
    assert_eq!(
        guess_host_triple("x86_64", "windows", "msvc"),
        Some("x86_64-pc-windows-msvc".to_string())
    );
    assert_eq!(
        guess_host_triple("aarch64", "macos", ""),
        Some("aarch64-apple-darwin".to_string())
    );
}

#[test]
fn host_guess_fails_for_an_unknown_platform() {
    assert_eq!(guess_host_triple("pdp11", "unix", ""), None);
    assert_eq!(guess_host_triple("", "", ""), None);
}
