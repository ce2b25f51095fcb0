//! Reading the declared build target out of the project's configuration.

use crate::error::Error;
use crate::identity::CargoRedirectHelper;
use regex::Regex;
use vstd::prelude::*;

verus! {

/// Where the configuration file lies, relative to the working directory.
pub const CONFIG_PATH: &'static str = ".cargo/config";

/// The pattern of a line that declares the target: at the start of a line
/// the word `target`, then `=`, then the value between double quotes, with
/// any spaces and tabs before the word and around the `=`. The value runs up
/// to the last double quote of its line.
pub const TARGET_PATTERN: &'static str = r#"(?m)^[ \t]*target[ \t]*=[ \t]*"(.*)""#;

/// The capture group of [`TARGET_PATTERN`] that holds the declared value.
pub const TARGET_GROUP: usize = 1;

/// What the `regex` crate finds: the text of capture group `group` in the
/// leftmost match of `pattern` in `haystack`. `None` where the pattern does
/// not compile, where nothing matches, and where the group took no part in
/// the match.
pub uninterp spec fn regex_capture(pattern: Seq<char>, haystack: Seq<char>, group: nat) -> Option<
    Seq<char>,
>;

/// Compiles `pattern` with `regex::Regex::new`, searches `haystack` with
/// `Regex::captures` and reads group `group` with `Captures::get` and
/// `Match::as_str`. The result is the crate's own; the contract only names it.
#[verifier::external_body]
fn capture(pattern: &str, haystack: &str, group: usize) -> (found: Option<String>)
    ensures
        found.deep_view() == regex_capture(pattern@, haystack@, group as nat),
{
    let regex = Regex::new(pattern).ok()?;
    let captures = regex.captures(haystack)?;
    captures.get(group).map(|found| found.as_str().to_owned())
}

/// What was found at the place of the configuration file.
#[derive(Debug, PartialEq, Eq)]
pub enum ConfigFile {
    /// There is no such file.
    Missing,
    /// The file exists and could not be read.
    Unreadable,
    /// The file's full text.
    Text(String),
}

/// What a [`ConfigFile`] holds.
pub enum ConfigFileView {
    Missing,
    Unreadable,
    Text(Seq<char>),
}

impl View for ConfigFile {
    type V = ConfigFileView;

    open spec fn view(&self) -> ConfigFileView {
        match self {
            ConfigFile::Missing => ConfigFileView::Missing,
            ConfigFile::Unreadable => ConfigFileView::Unreadable,
            ConfigFile::Text(text) => ConfigFileView::Text(text@),
        }
    }
}

/// The target that a configuration text declares: the value that the first
/// match of [`TARGET_PATTERN`] captures, which is the value of the first line
/// that declares one.
pub open spec fn declared_target(config_text: Seq<char>) -> Option<Seq<char>> {
    regex_capture(TARGET_PATTERN@, config_text, TARGET_GROUP as nat)
}

/// The declared target where there is one, the host triple otherwise.
pub open spec fn target_or_host(declared: Option<Seq<char>>, host: Seq<char>) -> Seq<char> {
    match declared {
        Some(target) => target,
        None => host,
    }
}

/// The build target for what was found at the place of the configuration
/// file: the host triple without a file, the declared target or else the host
/// triple with one. A file that exists and cannot be read is a failure.
pub open spec fn build_target(config: ConfigFileView, host: Seq<char>) -> Result<Seq<char>, Error> {
    match config {
        ConfigFileView::Missing => Ok(host),
        ConfigFileView::Unreadable => Err(Error::ConfigReadError),
        ConfigFileView::Text(text) => Ok(target_or_host(declared_target(text), host)),
    }
}

/// Extracts the declared target from the text of a configuration file.
pub fn resolve_target(config_text: &str) -> (declared: Option<String>)
    ensures
        declared.deep_view() == declared_target(config_text@),
{
    capture(TARGET_PATTERN, config_text, TARGET_GROUP)
}

/// Settles the target once the search is over: what was declared, or the host
/// triple where nothing was.
pub fn declared_or_host(declared: Option<String>, host: &str) -> (target: String)
    ensures
        target@ == target_or_host(declared.deep_view(), host@),
        declared is Some ==> target@ == declared->0@,
        declared is None ==> target@ == host@,
{
    match declared {
        Some(target) => target,
        None => host.to_owned(),
    }
}

impl CargoRedirectHelper {
    /// Reads the build target out of what was found at the place of the
    /// configuration file: the declared target, or the host triple where
    /// there is no file or no declaration in it. Fails exactly when the file
    /// exists and cannot be read.
    pub fn get_cargo_config_build_target(&self, config: &ConfigFile) -> (target: Result<
        String,
        Error,
    >)
        ensures
            (match target {
                Ok(found) => Ok(found@),
                Err(error) => Err(error),
            }) == build_target(config@, self.my_host_triple@),
            config is Missing ==> target is Ok && target->Ok_0@ == self.my_host_triple@,
            config is Unreadable <==> target is Err,
            target is Err ==> target->Err_0 == Error::ConfigReadError,
    {
        match config {
            ConfigFile::Missing => Ok(self.my_host_triple.clone()),
            ConfigFile::Unreadable => Err(Error::ConfigReadError),
            ConfigFile::Text(text) => Ok(
                declared_or_host(resolve_target(text.as_str()), self.my_host_triple.as_str()),
            ),
        }
    }
}

/// A configuration text that declares a target gives exactly that target,
/// whatever the host is.
pub proof fn declared_target_is_returned(config_text: Seq<char>, host: Seq<char>, target: Seq<char>)
    requires
        declared_target(config_text) == Some(target),
    ensures
        build_target(ConfigFileView::Text(config_text), host) == Ok::<Seq<char>, Error>(target),
{
}

/// Without a configuration file, and with one whose text declares no target,
/// the build target is the host triple.
pub proof fn host_is_the_default(config_text: Seq<char>, host: Seq<char>)
    ensures
        build_target(ConfigFileView::Missing, host) == Ok::<Seq<char>, Error>(host),
        declared_target(config_text) is None ==> build_target(
            ConfigFileView::Text(config_text),
            host,
        ) == Ok::<Seq<char>, Error>(host),
{
}

} // verus!
