//! What the studio launcher decides before it hands over to another
//! program: which environment defaults to set, which image to ask for, how
//! a failed pull is to be read, and the argument list of the container run.
//! Reading the environment and running programs is left to the caller.

use vstd::prelude::*;
use vstd::string::*;
use crate::text::{contains, first_segment, join_path, joined, before_first, occurs_in};

verus! {

/// Variable that names the default origin.
pub const ORIGIN_ENVVAR: &'static str = "HAB_ORIGIN";

/// Variable that names the directory of the key cache.
pub const CACHE_KEY_PATH_ENVVAR: &'static str = "HAB_CACHE_KEY_PATH";

/// The key cache, relative to the file system root.
pub const CACHE_KEY_PATH: &'static str = "hab/cache/keys";

/// Variable that `sudo` sets to the name of the invoking user.
pub const SUDO_USER_ENVVAR: &'static str = "SUDO_USER";

/// The studio program, and the variable that names another one.
pub const STUDIO_CMD: &'static str = "hab-studio";

pub const STUDIO_CMD_ENVVAR: &'static str = "HAB_STUDIO_BINARY";

/// The package that provides the studio program.
pub const STUDIO_PACKAGE_IDENT: &'static str = "core/hab-studio";

/// The container program, and the variable that names another one.
pub const DOCKER_CMD: &'static str = "docker";

pub const DOCKER_CMD_ENVVAR: &'static str = "HAB_DOCKER_BINARY";

/// The studio image without its tag, and the variable that names another
/// image, tag included.
pub const DOCKER_IMAGE: &'static str = "habitat-docker-registry.bintray.io/studio";

pub const DOCKER_IMAGE_ENVVAR: &'static str = "HAB_DOCKER_STUDIO_IMAGE";

/// Why the studio could not be launched.
#[derive(Debug, PartialEq, Eq)]
pub enum StudioError {
    /// No program of this name was found.
    ExecCommandNotFound(String),
    /// The registry does not have this image.
    DockerImageNotFound(String),
    /// The container daemon cannot be reached.
    DockerDaemonDown,
    /// The pull of this image failed for another reason, taken to be the
    /// network.
    DockerNetworkDown(String),
}

/// A [`StudioError`] with its texts as sequences of characters.
pub enum StudioErrorView {
    ExecCommandNotFound(Seq<char>),
    DockerImageNotFound(Seq<char>),
    DockerDaemonDown,
    DockerNetworkDown(Seq<char>),
}

impl View for StudioError {
    type V = StudioErrorView;

    open spec fn view(&self) -> StudioErrorView {
        match *self {
            StudioError::ExecCommandNotFound(name) => StudioErrorView::ExecCommandNotFound(name@),
            StudioError::DockerImageNotFound(image) => StudioErrorView::DockerImageNotFound(
                image@,
            ),
            StudioError::DockerDaemonDown => StudioErrorView::DockerDaemonDown,
            StudioError::DockerNetworkDown(image) => StudioErrorView::DockerNetworkDown(image@),
        }
    }
}

/// One change to the process environment.
#[derive(Debug, PartialEq, Eq)]
pub enum EnvChange {
    Assign { name: String, value: String },
    Unset { name: String },
}

/// An [`EnvChange`] with its texts as sequences of characters.
pub enum EnvChangeView {
    Assign { name: Seq<char>, value: Seq<char> },
    Unset { name: Seq<char> },
}

impl DeepView for EnvChange {
    type V = EnvChangeView;

    open spec fn deep_view(&self) -> EnvChangeView {
        match *self {
            EnvChange::Assign { name, value } => EnvChangeView::Assign { name: name@, value: value@ },
            EnvChange::Unset { name } => EnvChangeView::Unset { name: name@ },
        }
    }
}

/// An environment variable as it was read: its name, and its value where
/// it is set.
#[derive(Debug, PartialEq, Eq)]
pub struct Variable {
    pub name: String,
    pub value: Option<String>,
}

/// A [`Variable`] with its texts as sequences of characters.
pub struct VariableView {
    pub name: Seq<char>,
    pub value: Option<Seq<char>>,
}

impl DeepView for Variable {
    type V = VariableView;

    open spec fn deep_view(&self) -> VariableView {
        VariableView {
            name: self.name@,
            value: match self.value {
                Some(value) => Some(value@),
                None => None,
            },
        }
    }
}

/// Text in a failed pull's error output that, together with
/// [`NOT_FOUND_MARK`], tells that the registry lacks the image.
pub const IMAGE_MARK: &'static str = "image";

pub const NOT_FOUND_MARK: &'static str = "not found";

/// Text in a failed pull's error output that tells that the daemon is not
/// running or not reachable.
pub const DAEMON_DOWN_MARK: &'static str = "Cannot connect to the Docker daemon";

/// The image to run: the one the environment names, else the studio image
/// tagged with the version of this program, which is `version` up to its
/// first `/`, the release behind that left off.
pub open spec fn spec_image_identifier(
    image_override: Option<Seq<char>>,
    version: Seq<char>,
) -> Seq<char> {
    match image_override {
        Some(image) => image,
        None => DOCKER_IMAGE@ + seq![':'] + first_segment(version, '/'),
    }
}

/// How a failed pull of `image` is read from what it wrote to its error
/// output: the image is missing where the output holds both marks of that,
/// else the daemon is down where the output says so, else the network is
/// taken to be down.
pub open spec fn spec_pull_failure(stderr: Seq<u8>, image: Seq<char>) -> StudioErrorView {
    if occurs_in(stderr, IMAGE_MARK.spec_bytes()) && occurs_in(
        stderr,
        NOT_FOUND_MARK.spec_bytes(),
    ) {
        StudioErrorView::DockerImageNotFound(image)
    } else if occurs_in(stderr, DAEMON_DOWN_MARK.spec_bytes()) {
        StudioErrorView::DockerDaemonDown
    } else {
        StudioErrorView::DockerNetworkDown(image)
    }
}

/// The image to run, tag included. `image_override` is the value of
/// [`DOCKER_IMAGE_ENVVAR`] where that is set, and `version` the version of
/// this program, with or without a release behind a `/`.
pub fn image_identifier(image_override: Option<String>, version: &str) -> (image: String)
    ensures
        image@ == spec_image_identifier(
            match image_override {
                Some(named) => Some(named@),
                None => None,
            },
            version@,
        ),
{
    match image_override {
        Some(named) => named,
        None => {
            let mut image = String::from_str(DOCKER_IMAGE);
            image.append(":");
            image.append(before_first(version, '/'));
            proof {
                reveal_strlit(":");
            }
            image
        },
    }
}

/// Reads the error output of a failed pull of `image`.
pub fn pull_failure(stderr: &str, image: &str) -> (failure: StudioError)
    ensures
        failure@ == spec_pull_failure(stderr.spec_bytes(), image@),
{
    if contains(stderr, IMAGE_MARK) && contains(stderr, NOT_FOUND_MARK) {
        StudioError::DockerImageNotFound(String::from_str(image))
    } else if contains(stderr, DAEMON_DOWN_MARK) {
        StudioError::DockerDaemonDown
    } else {
        StudioError::DockerNetworkDown(String::from_str(image))
    }
}

/// Judges a finished pull of `image`: fine where it succeeded, else the
/// failure that its error output tells of.
pub fn check_pull(succeeded: bool, stderr: &str, image: &str) -> (checked: Result<
    (),
    StudioError,
>)
    ensures
        succeeded ==> checked is Ok,
        !succeeded ==> checked is Err && checked->Err_0@ == spec_pull_failure(
            stderr.spec_bytes(),
            image@,
        ),
{
    if succeeded {
        Ok(())
    } else {
        Err(pull_failure(stderr, image))
    }
}

/// The program to run: the one that was found under `name`, or the error
/// that names what was looked for.
pub fn require_command(name: &str, found: Option<String>) -> (command: Result<
    String,
    StudioError,
>)
    ensures
        match found {
            Some(path) => command is Ok && command->Ok_0@ == path@,
            None => command is Err && command->Err_0@ == StudioErrorView::ExecCommandNotFound(
                name@,
            ),
        },
{
    match found {
        Some(path) => Ok(path),
        None => Err(StudioError::ExecCommandNotFound(String::from_str(name))),
    }
}

/// The program name to look for: the one the environment names, else
/// `default`.
pub fn command_name(named: Option<String>, default: &str) -> (name: String)
    ensures
        name@ == (match named {
            Some(chosen) => chosen@,
            None => default@,
        }),
{
    match named {
        Some(chosen) => chosen,
        None => String::from_str(default),
    }
}

/// The arguments that hand the set ones among `variables` on to the
/// container, in their order: for each, `--env` and then `NAME=VALUE`.
pub open spec fn spec_env_arguments(variables: Seq<VariableView>) -> Seq<Seq<char>>
    decreases variables.len(),
{
    if variables.len() == 0 {
        Seq::empty()
    } else {
        let before = spec_env_arguments(variables.drop_last());
        match variables.last().value {
            Some(value) => before + seq!["--env"@, variables.last().name + seq!['='] + value],
            None => before,
        }
    }
}

/// The argument list of the container run: the fixed options, the
/// propagated variables, the three volumes (the daemon's socket, the key
/// cache at its place below the root, the working directory as `/src`), the
/// image, and then what the user passed.
pub open spec fn spec_run_arguments(
    variables: Seq<VariableView>,
    key_cache: Seq<char>,
    working_dir: Seq<char>,
    image: Seq<char>,
    args: Seq<Seq<char>>,
) -> Seq<Seq<char>> {
    seq!["run"@, "--rm"@, "--tty"@, "--interactive"@, "--privileged"@] + spec_env_arguments(
        variables,
    ) + seq![
        "--volume"@,
        "/var/run/docker.sock:/var/run/docker.sock"@,
        "--volume"@,
        key_cache + seq![':', '/'] + CACHE_KEY_PATH@,
        "--volume"@,
        working_dir + ":/src"@,
        image,
    ] + args
}

/// The names of those among `variables` that are set, in their order.
pub open spec fn spec_set_names(variables: Seq<VariableView>) -> Seq<Seq<char>>
    decreases variables.len(),
{
    if variables.len() == 0 {
        Seq::empty()
    } else {
        let before = spec_set_names(variables.drop_last());
        if variables.last().value is Some {
            before.push(variables.last().name)
        } else {
            before
        }
    }
}

/// The variables whose values, where set, are handed on to the container.
pub fn propagated_names() -> (names: Vec<String>)
    ensures
        names.deep_view() == seq!["HAB_DEPOT_URL"@, ORIGIN_ENVVAR@, "http_proxy"@, "https_proxy"@],
{
    let mut names: Vec<String> = Vec::new();
    names.push(String::from_str("HAB_DEPOT_URL"));
    names.push(String::from_str(ORIGIN_ENVVAR));
    names.push(String::from_str("http_proxy"));
    names.push(String::from_str("https_proxy"));
    names
}

/// The variables that are taken out of this process's environment, where
/// set, before the container program runs.
pub fn cleared_names() -> (names: Vec<String>)
    ensures
        names.deep_view() == seq!["http_proxy"@, "https_proxy"@],
{
    let mut names: Vec<String> = Vec::new();
    names.push(String::from_str("http_proxy"));
    names.push(String::from_str("https_proxy"));
    names
}

/// A variable as the launcher sees it: one that is set to the empty text
/// counts as not set.
pub fn read_variable(name: &str, raw: Option<String>) -> (variable: Variable)
    ensures
        variable.name@ == name@,
        variable.deep_view().value == (match raw {
            Some(value) if value@.len() > 0 => Some(value@),
            _ => None,
        }),
{
    let value = match raw {
        Some(value) => if value.as_str().unicode_len() > 0 {
            Some(value)
        } else {
            None
        },
        None => None,
    };
    Variable { name: String::from_str(name), value }
}

/// The `--env` arguments for the set ones among `variables`.
pub fn env_arguments(variables: &Vec<Variable>) -> (arguments: Vec<String>)
    ensures
        arguments.deep_view() == spec_env_arguments(variables.deep_view()),
{
    let mut arguments: Vec<String> = Vec::new();
    let mut done: usize = 0;
    while done < variables.len()
        invariant
            done <= variables.len(),
            arguments.deep_view() == spec_env_arguments(variables.deep_view().take(done as int)),
        decreases variables.len() - done,
    {
        let ghost seen = variables.deep_view().take(done as int + 1);
        assert(seen.drop_last() =~= variables.deep_view().take(done as int));
        let variable = &variables[done];
        if let Some(value) = &variable.value {
            let mut pair = String::from_str(variable.name.as_str());
            pair.append("=");
            pair.append(value.as_str());
            proof {
                reveal_strlit("=");
                assert("="@ =~= seq!['=']);
            }
            arguments.push(String::from_str("--env"));
            arguments.push(pair);
        }
        done += 1;
    }
    assert(variables.deep_view().take(done as int) =~= variables.deep_view());
    arguments
}

/// The names of the set ones among `variables`.
pub fn set_names(variables: &Vec<Variable>) -> (names: Vec<String>)
    ensures
        names.deep_view() == spec_set_names(variables.deep_view()),
{
    let mut names: Vec<String> = Vec::new();
    let mut done: usize = 0;
    while done < variables.len()
        invariant
            done <= variables.len(),
            names.deep_view() == spec_set_names(variables.deep_view().take(done as int)),
        decreases variables.len() - done,
    {
        let ghost seen = variables.deep_view().take(done as int + 1);
        assert(seen.drop_last() =~= variables.deep_view().take(done as int));
        let variable = &variables[done];
        if variable.value.is_some() {
            names.push(String::from_str(variable.name.as_str()));
        }
        done += 1;
    }
    assert(variables.deep_view().take(done as int) =~= variables.deep_view());
    names
}

/// Copies the texts of `more` to the end of `target`.
fn extend(target: &mut Vec<String>, more: &Vec<String>)
    ensures
        final(target).deep_view() == old(target).deep_view() + more.deep_view(),
{
    let mut done: usize = 0;
    while done < more.len()
        invariant
            done <= more.len(),
            target.deep_view() == old(target).deep_view() + more.deep_view().take(done as int),
        decreases more.len() - done,
    {
        let ghost before = target.deep_view();
        target.push(String::from_str(more[done].as_str()));
        assert(target.deep_view() =~= before.push(more[done as int]@));
        done += 1;
    }
}

/// The argument list of the container run.
pub fn run_arguments(
    variables: &Vec<Variable>,
    key_cache: &str,
    working_dir: &str,
    image: &str,
    args: &Vec<String>,
) -> (arguments: Vec<String>)
    ensures
        arguments.deep_view() == spec_run_arguments(
            variables.deep_view(),
            key_cache@,
            working_dir@,
            image@,
            args.deep_view(),
        ),
{
    let mut arguments: Vec<String> = Vec::new();
    arguments.push(String::from_str("run"));
    arguments.push(String::from_str("--rm"));
    arguments.push(String::from_str("--tty"));
    arguments.push(String::from_str("--interactive"));
    arguments.push(String::from_str("--privileged"));
    let propagated = env_arguments(variables);
    extend(&mut arguments, &propagated);

    let mut keys = String::from_str(key_cache);
    keys.append(":/");
    keys.append(CACHE_KEY_PATH);
    let mut source = String::from_str(working_dir);
    source.append(":/src");
    proof {
        reveal_strlit(":/");
        assert(keys@ =~= key_cache@ + seq![':', '/'] + CACHE_KEY_PATH@);
    }
    let ghost before = arguments.deep_view();
    arguments.push(String::from_str("--volume"));
    arguments.push(String::from_str("/var/run/docker.sock:/var/run/docker.sock"));
    arguments.push(String::from_str("--volume"));
    arguments.push(keys);
    arguments.push(String::from_str("--volume"));
    arguments.push(source);
    arguments.push(String::from_str(image));
    assert(arguments.deep_view() =~= before + seq![
        "--volume"@,
        "/var/run/docker.sock:/var/run/docker.sock"@,
        "--volume"@,
        key_cache@ + seq![':', '/'] + CACHE_KEY_PATH@,
        "--volume"@,
        working_dir@ + ":/src"@,
        image@,
    ]);
    extend(&mut arguments, args);
    arguments
}

/// The defaults that the launcher puts into the environment before it
/// hands over. Where no origin is set and the configuration has a default
/// one, that becomes the origin. Where no key cache is named and the
/// program runs under `sudo` for a user with a home directory, the key
/// cache is that user's, at the usual place behind a dot below the home
/// directory, and the mark of `sudo` is taken away so that programs started
/// from here do not do the same again.
pub open spec fn spec_environment_defaults(
    origin: Option<Seq<char>>,
    configured_origin: Option<Seq<char>>,
    key_cache: Option<Seq<char>>,
    sudo_home: Option<Seq<char>>,
) -> Seq<EnvChangeView> {
    let first = match (origin, configured_origin) {
        (None, Some(default_origin)) => seq![
            EnvChangeView::Assign { name: ORIGIN_ENVVAR@, value: default_origin },
        ],
        _ => Seq::empty(),
    };
    let second = match (key_cache, sudo_home) {
        (None, Some(home)) => seq![
            EnvChangeView::Assign {
                name: CACHE_KEY_PATH_ENVVAR@,
                value: joined(home, seq!['.'] + CACHE_KEY_PATH@),
            },
            EnvChangeView::Unset { name: SUDO_USER_ENVVAR@ },
        ],
        _ => Seq::empty(),
    };
    first + second
}

/// The changes that give the environment its defaults. `origin` and
/// `key_cache` are the two variables as they stand, `configured_origin` is
/// the default origin of the configuration, and `sudo_home` the home
/// directory of the user who called `sudo`, where there is one.
pub fn environment_defaults(
    origin: &Variable,
    configured_origin: Option<String>,
    key_cache: &Variable,
    sudo_home: Option<String>,
) -> (changes: Vec<EnvChange>)
    ensures
        changes.deep_view() == spec_environment_defaults(
            origin.deep_view().value,
            match configured_origin {
                Some(default_origin) => Some(default_origin@),
                None => None,
            },
            key_cache.deep_view().value,
            match sudo_home {
                Some(home) => Some(home@),
                None => None,
            },
        ),
{
    let mut changes: Vec<EnvChange> = Vec::new();
    if origin.value.is_none() {
        if let Some(default_origin) = configured_origin {
            changes.push(
                EnvChange::Assign { name: String::from_str(ORIGIN_ENVVAR), value: default_origin },
            );
        }
    }
    if key_cache.value.is_none() {
        if let Some(home) = sudo_home {
            let mut hidden = String::from_str(".");
            hidden.append(CACHE_KEY_PATH);
            proof {
                reveal_strlit(".");
                assert(hidden@ =~= seq!['.'] + CACHE_KEY_PATH@);
            }
            let path = join_path(home.as_str(), hidden.as_str());
            changes.push(
                EnvChange::Assign { name: String::from_str(CACHE_KEY_PATH_ENVVAR), value: path },
            );
            changes.push(EnvChange::Unset { name: String::from_str(SUDO_USER_ENVVAR) });
        }
    }
    changes
}

} // verus!
