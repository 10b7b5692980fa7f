use hab_supervisor::studio::{
    check_pull, cleared_names, command_name, env_arguments, environment_defaults,
    image_identifier, propagated_names, pull_failure, read_variable, require_command,
    run_arguments, set_names, EnvChange, StudioError, Variable, CACHE_KEY_PATH,
    CACHE_KEY_PATH_ENVVAR, DOCKER_CMD, DOCKER_CMD_ENVVAR, DOCKER_IMAGE, DOCKER_IMAGE_ENVVAR,
    ORIGIN_ENVVAR, STUDIO_CMD, STUDIO_CMD_ENVVAR, STUDIO_PACKAGE_IDENT, SUDO_USER_ENVVAR,
};

const VERSION: &str = "0.10.2";

fn variable(name: &str, value: Option<&str>) -> Variable {
    Variable { name: name.to_string(), value: value.map(|v| v.to_string()) }
}

fn texts(items: &[&str]) -> Vec<String> {
    items.iter().map(|item| item.to_string()).collect()
}

#[test]
fn retrieve_image_identifier() {
    assert_eq!(image_identifier(None, VERSION), format!("{}:{}", DOCKER_IMAGE, VERSION));
}

#[test]
fn image_identifier_leaves_the_release_off() {
    assert_eq!(
        image_identifier(None, "0.10.2/20160930230245"),
        "habitat-docker-registry.bintray.io/studio:0.10.2"
    );
    assert_eq!(
        image_identifier(None, "0.10.2/2016/09"),
        "habitat-docker-registry.bintray.io/studio:0.10.2"
    );
    assert_eq!(image_identifier(None, "/x"), "habitat-docker-registry.bintray.io/studio:");
    assert_eq!(image_identifier(None, ""), "habitat-docker-registry.bintray.io/studio:");
}

#[test]
fn image_identifier_prefers_the_named_image() {
    assert_eq!(
        image_identifier(Some("example.org/studio:dev".to_string()), "0.10.2/20160930230245"),
        "example.org/studio:dev"
    );
}

#[test]
fn names_of_programs_and_variables() {
    assert_eq!(ORIGIN_ENVVAR, "HAB_ORIGIN");
    assert_eq!(CACHE_KEY_PATH_ENVVAR, "HAB_CACHE_KEY_PATH");
    assert_eq!(CACHE_KEY_PATH, "hab/cache/keys");
    assert_eq!(SUDO_USER_ENVVAR, "SUDO_USER");
    assert_eq!(STUDIO_CMD, "hab-studio");
    assert_eq!(STUDIO_CMD_ENVVAR, "HAB_STUDIO_BINARY");
    assert_eq!(STUDIO_PACKAGE_IDENT, "core/hab-studio");
    assert_eq!(DOCKER_CMD, "docker");
    assert_eq!(DOCKER_CMD_ENVVAR, "HAB_DOCKER_BINARY");
    assert_eq!(DOCKER_IMAGE, "habitat-docker-registry.bintray.io/studio");
    assert_eq!(DOCKER_IMAGE_ENVVAR, "HAB_DOCKER_STUDIO_IMAGE");
    assert_eq!(
        propagated_names(),
        texts(&["HAB_DEPOT_URL", "HAB_ORIGIN", "http_proxy", "https_proxy"])
    );
    assert_eq!(cleared_names(), texts(&["http_proxy", "https_proxy"]));
}

#[test]
fn pull_failure_image_not_found() {
    let stderr = "Error: image habitat/studio:0.10.2 not found\n";
    assert_eq!(
        pull_failure(stderr, "studio:0.10.2"),
        StudioError::DockerImageNotFound("studio:0.10.2".to_string())
    );
    // Both marks are needed, in any order and anywhere.
    assert_eq!(
        pull_failure("not found: that image", "i"),
        StudioError::DockerImageNotFound("i".to_string())
    );
    assert_eq!(
        pull_failure("layer not found", "i"),
        StudioError::DockerNetworkDown("i".to_string())
    );
    assert_eq!(
        pull_failure("bad image name", "i"),
        StudioError::DockerNetworkDown("i".to_string())
    );
}

#[test]
fn pull_failure_daemon_down() {
    let stderr = "Cannot connect to the Docker daemon. Is the docker daemon running on this host?";
    assert_eq!(pull_failure(stderr, "studio:0.10.2"), StudioError::DockerDaemonDown);
    // The marks are matched exactly, letter case included.
    assert_eq!(
        pull_failure("cannot connect to the docker daemon", "i"),
        StudioError::DockerNetworkDown("i".to_string())
    );
}

#[test]
fn pull_failure_missing_image_comes_before_daemon_down() {
    let stderr = "Cannot connect to the Docker daemon; image not found";
    assert_eq!(pull_failure(stderr, "i"), StudioError::DockerImageNotFound("i".to_string()));
}

#[test]
fn pull_failure_anything_else_is_the_network() {
    assert_eq!(
        pull_failure("dial tcp: lookup registry: no such host", "studio:0.10.2"),
        StudioError::DockerNetworkDown("studio:0.10.2".to_string())
    );
    assert_eq!(pull_failure("", "i"), StudioError::DockerNetworkDown("i".to_string()));
}

#[test]
fn check_pull_passes_success_whatever_was_written() {
    assert_eq!(check_pull(true, "", "i"), Ok(()));
    assert_eq!(check_pull(true, "image not found", "i"), Ok(()));
    assert_eq!(
        check_pull(false, "image not found", "i"),
        Err(StudioError::DockerImageNotFound("i".to_string()))
    );
    assert_eq!(
        check_pull(false, "Cannot connect to the Docker daemon", "i"),
        Err(StudioError::DockerDaemonDown)
    );
    assert_eq!(check_pull(false, "timeout", "i"), Err(StudioError::DockerNetworkDown("i".to_string())));
}

#[test]
fn command_name_prefers_the_named_program() {
    assert_eq!(command_name(None, DOCKER_CMD), "docker");
    assert_eq!(command_name(Some("/opt/bin/podman".to_string()), DOCKER_CMD), "/opt/bin/podman");
}

#[test]
fn require_command_reports_what_was_looked_for() {
    assert_eq!(
        require_command("docker", Some("/usr/bin/docker".to_string())),
        Ok("/usr/bin/docker".to_string())
    );
    assert_eq!(
        require_command("docker", None),
        Err(StudioError::ExecCommandNotFound("docker".to_string()))
    );
}

#[test]
fn read_variable_takes_empty_for_unset() {
    assert_eq!(read_variable("HAB_ORIGIN", None), variable("HAB_ORIGIN", None));
    assert_eq!(read_variable("HAB_ORIGIN", Some(String::new())), variable("HAB_ORIGIN", None));
    assert_eq!(
        read_variable("HAB_ORIGIN", Some("core".to_string())),
        variable("HAB_ORIGIN", Some("core"))
    );
    assert_eq!(read_variable("x", Some(" ".to_string())), variable("x", Some(" ")));
}

#[test]
fn env_arguments_for_set_variables_only() {
    assert_eq!(env_arguments(&vec![]), Vec::<String>::new());
    let variables = vec![
        variable("HAB_DEPOT_URL", None),
        variable("HAB_ORIGIN", Some("core")),
        variable("http_proxy", Some("http://proxy:3128")),
        variable("https_proxy", None),
    ];
    assert_eq!(
        env_arguments(&variables),
        texts(&["--env", "HAB_ORIGIN=core", "--env", "http_proxy=http://proxy:3128"])
    );
    assert_eq!(set_names(&variables), texts(&["HAB_ORIGIN", "http_proxy"]));
}

#[test]
fn set_names_of_nothing_and_of_all() {
    assert_eq!(set_names(&vec![]), Vec::<String>::new());
    assert_eq!(
        set_names(&vec![variable("http_proxy", None), variable("https_proxy", None)]),
        Vec::<String>::new()
    );
    assert_eq!(
        set_names(&vec![variable("http_proxy", Some("a")), variable("https_proxy", Some("b"))]),
        texts(&["http_proxy", "https_proxy"])
    );
}

#[test]
fn run_arguments_in_full() {
    let variables = vec![
        variable("HAB_DEPOT_URL", Some("https://depot.example/v1")),
        variable("HAB_ORIGIN", None),
        variable("http_proxy", None),
        variable("https_proxy", Some("https://proxy:3129")),
    ];
    let arguments = run_arguments(
        &variables,
        "/home/ann/.hab/cache/keys",
        "/work/project",
        "habitat-docker-registry.bintray.io/studio:0.10.2",
        &texts(&["enter", "-k", "core"]),
    );
    assert_eq!(
        arguments,
        texts(&[
            "run",
            "--rm",
            "--tty",
            "--interactive",
            "--privileged",
            "--env",
            "HAB_DEPOT_URL=https://depot.example/v1",
            "--env",
            "https_proxy=https://proxy:3129",
            "--volume",
            "/var/run/docker.sock:/var/run/docker.sock",
            "--volume",
            "/home/ann/.hab/cache/keys:/hab/cache/keys",
            "--volume",
            "/work/project:/src",
            "habitat-docker-registry.bintray.io/studio:0.10.2",
            "enter",
            "-k",
            "core",
        ])
    );
}

#[test]
fn run_arguments_without_variables_or_user_arguments() {
    let arguments = run_arguments(&vec![], "/hab/cache/keys", "/", "studio:1", &vec![]);
    assert_eq!(
        arguments,
        texts(&[
            "run",
            "--rm",
            "--tty",
            "--interactive",
            "--privileged",
            "--volume",
            "/var/run/docker.sock:/var/run/docker.sock",
            "--volume",
            "/hab/cache/keys:/hab/cache/keys",
            "--volume",
            "/:/src",
            "studio:1",
        ])
    );
}

#[test]
fn environment_defaults_when_nothing_is_set() {
    let changes = environment_defaults(
        &variable("HAB_ORIGIN", None),
        Some("acme".to_string()),
        &variable("HAB_CACHE_KEY_PATH", None),
        Some("/home/ann".to_string()),
    );
    assert_eq!(
        changes,
        vec![
            EnvChange::Assign { name: "HAB_ORIGIN".to_string(), value: "acme".to_string() },
            EnvChange::Assign {
                name: "HAB_CACHE_KEY_PATH".to_string(),
                value: "/home/ann/.hab/cache/keys".to_string(),
            },
            EnvChange::Unset { name: "SUDO_USER".to_string() },
        ]
    );
}

#[test]
fn environment_defaults_leave_set_variables_alone() {
    let changes = environment_defaults(
        &variable("HAB_ORIGIN", Some("core")),
        Some("acme".to_string()),
        &variable("HAB_CACHE_KEY_PATH", Some("/keys")),
        Some("/home/ann".to_string()),
    );
    assert_eq!(changes, vec![]);
}

#[test]
fn environment_defaults_need_something_to_default_to() {
    let changes = environment_defaults(
        &variable("HAB_ORIGIN", None),
        None,
        &variable("HAB_CACHE_KEY_PATH", None),
        None,
    );
    assert_eq!(changes, vec![]);

    let changes = environment_defaults(
        &variable("HAB_ORIGIN", Some("core")),
        None,
        &variable("HAB_CACHE_KEY_PATH", None),
        Some("/root/".to_string()),
    );
    assert_eq!(
        changes,
        vec![
            EnvChange::Assign {
                name: "HAB_CACHE_KEY_PATH".to_string(),
                value: "/root/.hab/cache/keys".to_string(),
            },
            EnvChange::Unset { name: "SUDO_USER".to_string() },
        ]
    );

    let changes = environment_defaults(
        &variable("HAB_ORIGIN", None),
        Some("acme".to_string()),
        &variable("HAB_CACHE_KEY_PATH", Some("/keys")),
        None,
    );
    assert_eq!(
        changes,
        vec![EnvChange::Assign { name: "HAB_ORIGIN".to_string(), value: "acme".to_string() }]
    );
}
