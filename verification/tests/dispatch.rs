use cargo_xbuild_redirector::dispatch::{
    dispatch_mode, forwarded_args, propagate_exit, DispatchMode, DownstreamOutcome,
    ForwardedInvocation, BUILD_KEYWORD, TERMINATED_EXIT_CODE, XBUILD_KEYWORD,
};
use cargo_xbuild_redirector::error::{Error, EXIT_FAILURE, EXIT_SUCCESS};

fn strings(tokens: &[&str]) -> Vec<String> {
    tokens.iter().map(|token| token.to_string()).collect()
}

#[test]
fn equal_triples_dispatch_directly() {
    assert_eq!(
        dispatch_mode("x86_64-unknown-linux-gnu", "x86_64-unknown-linux-gnu"),
        DispatchMode::Direct
    );
}

#[test]
fn different_triples_redirect() {
    assert_eq!(
        dispatch_mode("thumbv7em-none-eabihf", "x86_64-unknown-linux-gnu"),
        DispatchMode::Redirect
    );
}

#[test]
fn comparison_is_case_sensitive() {
    assert_eq!(
        dispatch_mode("X86_64-unknown-linux-gnu", "x86_64-unknown-linux-gnu"),
        DispatchMode::Redirect
    );
}

#[test]
fn comparison_does_not_trim() {
    assert_eq!(
        dispatch_mode("x86_64-unknown-linux-gnu ", "x86_64-unknown-linux-gnu"),
        DispatchMode::Redirect
    );
    assert_eq!(
        dispatch_mode(" x86_64-unknown-linux-gnu", "x86_64-unknown-linux-gnu"),
        DispatchMode::Redirect
    );
}

#[test]
fn empty_triples_are_equal() {
    assert_eq!(dispatch_mode("", ""), DispatchMode::Direct);
    assert_eq!(dispatch_mode("", "x"), DispatchMode::Redirect);
}

#[test]
fn keywords_are_build_and_xbuild() {
    assert_eq!(BUILD_KEYWORD, "build");
    assert_eq!(XBUILD_KEYWORD, "xbuild");
}

#[test]
fn direct_mode_passes_arguments_unchanged() {
    let args = strings(&["build", "--release", "build"]);
    assert_eq!(forwarded_args(DispatchMode::Direct, args.clone()), args);
}

#[test]
fn redirect_replaces_build() {
    assert_eq!(
        forwarded_args(DispatchMode::Redirect, strings(&["build"])),
        strings(&["xbuild"])
    );
}

#[test]
fn redirect_replaces_only_the_first_build() {
    assert_eq!(
        forwarded_args(
            DispatchMode::Redirect,
            strings(&["+nightly", "build", "--bin", "build", "build"])
        ),
        strings(&["+nightly", "xbuild", "--bin", "build", "build"])
    );
}

#[test]
fn redirect_keeps_tokens_before_and_after() {
    assert_eq!(
        forwarded_args(
            DispatchMode::Redirect,
            strings(&["-v", "--color", "always", "build", "--release", "--target-dir", "out"])
        ),
        strings(&["-v", "--color", "always", "xbuild", "--release", "--target-dir", "out"])
    );
}

#[test]
fn redirect_without_build_changes_nothing() {
    let args = strings(&["test", "--release", "rebuild", "build-std", "Build", " build"]);
    assert_eq!(forwarded_args(DispatchMode::Redirect, args.clone()), args);
}

#[test]
fn redirect_of_no_arguments_is_empty() {
    assert_eq!(forwarded_args(DispatchMode::Redirect, Vec::new()), Vec::<String>::new());
    assert_eq!(forwarded_args(DispatchMode::Direct, Vec::new()), Vec::<String>::new());
}

#[test]
fn redirect_preserves_count_and_order() {
    let args = strings(&["a", "build", "b", "build", "c"]);
    let out = forwarded_args(DispatchMode::Redirect, args.clone());
    assert_eq!(out.len(), args.len());
    let changed: Vec<usize> = (0..args.len()).filter(|&i| out[i] != args[i]).collect();
    assert_eq!(changed, vec![1]);
    assert_eq!(out[1], "xbuild");
}

#[test]
fn invocation_holds_program_and_rewritten_arguments() {
    let invocation = ForwardedInvocation::new(
        "/opt/bin/real".to_string(),
        DispatchMode::Redirect,
        strings(&["build", "--release"]),
    );
    assert_eq!(invocation.program, "/opt/bin/real");
    assert_eq!(invocation.args, strings(&["xbuild", "--release"]));
}

#[test]
fn exit_code_of_downstream_is_propagated() {
    assert_eq!(propagate_exit(DownstreamOutcome::Exited { code: 0 }), Ok(0));
    assert_eq!(propagate_exit(DownstreamOutcome::Exited { code: 101 }), Ok(101));
    assert_eq!(propagate_exit(DownstreamOutcome::Exited { code: -1 }), Ok(-1));
}

#[test]
fn termination_without_code_gives_the_fallback() {
    assert_eq!(propagate_exit(DownstreamOutcome::Terminated), Ok(1));
    assert_eq!(TERMINATED_EXIT_CODE, 1);
    assert_ne!(TERMINATED_EXIT_CODE, EXIT_SUCCESS);
}

#[test]
fn launch_failure_is_an_error() {
    assert_eq!(propagate_exit(DownstreamOutcome::NotLaunched), Err(Error::LaunchFailure));
    assert_eq!(Error::LaunchFailure.exit_code(), 1);
}

#[test]
fn every_failure_exits_with_one() {
    let all = [
        Error::PlatformUnknown,
        Error::IoError,
        Error::ConfigReadError,
        Error::ToolchainQueryFailure,
        Error::MissingOriginalBinary,
        Error::CopyFailure,
        Error::LaunchFailure,
    ];
    for error in all {
        assert_eq!(error.exit_code(), 1);
    }
    assert_eq!(EXIT_FAILURE, 1);
    assert_eq!(EXIT_SUCCESS, 0);
}
