use installer::errors::InstallerError;
use installer::flags::{CaData, ConfigFlag, Flags, LogLevel, Platform, TypeCheckMode};
use installer::fsys::FileSys;
use installer::shim::{Env, InstallFlags};
use installer::{
    create_install_shim, get_hidden_file_with_ext, get_installer_root, infer_name_from_url,
    is_in_path, resolve_shim_data, specifier_needs_redirect, uninstall, validate_name,
};

fn plain_env() -> Env {
    Env {
        install_root: None,
        home: None,
        cwd: None,
        path_var: None,
        no_prompt_env: false,
        redirect: None,
    }
}

fn request(module_url: &str, name: Option<&str>, root: &str) -> InstallFlags {
    InstallFlags {
        module_url: module_url.to_string(),
        args: vec![],
        name: name.map(|n| n.to_string()),
        root: Some(root.to_string()),
        force: false,
    }
}

#[test]
fn install_infer_name_from_url() {
    assert_eq!(
        infer_name_from_url("https://example.com/abc/server.ts", None),
        Some("server".to_string())
    );
    assert_eq!(
        infer_name_from_url("https://example.com/abc/main.ts", None),
        Some("abc".to_string())
    );
    assert_eq!(
        infer_name_from_url("https://example.com/abc/mod.ts", None),
        Some("abc".to_string())
    );
    assert_eq!(
        infer_name_from_url("https://example.com/abc/index.ts", None),
        Some("abc".to_string())
    );
    assert_eq!(
        infer_name_from_url("https://example.com/abc/cli.ts", None),
        Some("abc".to_string())
    );
    assert_eq!(
        infer_name_from_url("https://example.com/main.ts", None),
        Some("main".to_string())
    );
    assert_eq!(infer_name_from_url("https://example.com", None), None);
    assert_eq!(
        infer_name_from_url("file:///abc/server.ts", None),
        Some("server".to_string())
    );
    assert_eq!(
        infer_name_from_url("file:///abc/main.ts", None),
        Some("abc".to_string())
    );
    assert_eq!(
        infer_name_from_url("file:///main.ts", None),
        Some("main".to_string())
    );
    assert_eq!(infer_name_from_url("file:///", None), None);
    assert_eq!(
        infer_name_from_url("https://example.com/abc@0.1.0", None),
        Some("abc".to_string())
    );
    assert_eq!(
        infer_name_from_url("https://example.com/abc@0.1.0/main.ts", None),
        Some("abc".to_string())
    );
    assert_eq!(
        infer_name_from_url("https://example.com/abc@def@ghi", None),
        Some("abc".to_string())
    );
    assert_eq!(
        infer_name_from_url("https://example.com/@abc.ts", None),
        Some("@abc".to_string())
    );
    assert_eq!(
        infer_name_from_url("https://example.com/@abc/mod.ts", None),
        Some("@abc".to_string())
    );
    assert_eq!(
        infer_name_from_url("file:///@abc.ts", None),
        Some("@abc".to_string())
    );
    assert_eq!(
        infer_name_from_url("file:///@abc/cli.ts", None),
        Some("@abc".to_string())
    );
    assert_eq!(
        infer_name_from_url("npm:cowsay@1.2/cowthink", None),
        Some("cowthink".to_string())
    );
    assert_eq!(
        infer_name_from_url("npm:cowsay@1.2/cowthink/test", None),
        Some("cowsay".to_string())
    );
    assert_eq!(
        infer_name_from_url("npm:cowsay@1.2", None),
        Some("cowsay".to_string())
    );
    assert_eq!(infer_name_from_url("npm:@types/node@1.2", None), None);
}

#[test]
fn redirect_probe_only_for_root_path() {
    assert!(specifier_needs_redirect("https://example.com"));
    assert!(specifier_needs_redirect("http://localhost:4550/?redirect_to=/subdir/redirects/a.ts"));
    assert!(!specifier_needs_redirect("https://example.com/abc/server.ts"));
    assert!(!specifier_needs_redirect("npm:cowsay"));
    assert!(!specifier_needs_redirect("not a url"));
}

#[test]
fn install_unstable() {
    let mut fsys = FileSys::new();
    let flags = Flags {
        unstable: true,
        ..Flags::default()
    };
    create_install_shim(
        &flags,
        &request("http://localhost:4545/echo_server.ts", Some("echo_test"), "/temp"),
        &plain_env(),
        &mut fsys,
        Platform::Posix,
    )
    .unwrap();

    let file_path = "/temp/bin/echo_test";
    assert!(fsys.has_file(file_path));
    let content = fsys.read(file_path).unwrap();
    assert!(content.contains("run --unstable --no-config 'http://localhost:4545/echo_server.ts'"));
    assert!(fsys.is_executable(file_path));
}

#[test]
fn install_inferred_name() {
    let fsys = FileSys::new();
    let shim_data = resolve_shim_data(
        &Flags::default(),
        &request("http://localhost:4545/echo_server.ts", None, "/temp"),
        &plain_env(),
        &fsys,
        Platform::Posix,
    )
    .unwrap();

    assert_eq!(shim_data.name, "echo_server");
    assert_eq!(
        shim_data.args,
        vec!["run", "--no-config", "http://localhost:4545/echo_server.ts"]
    );
}

#[test]
fn install_inferred_name_from_parent() {
    let fsys = FileSys::new();
    let shim_data = resolve_shim_data(
        &Flags::default(),
        &request("http://localhost:4545/subdir/main.ts", None, "/temp"),
        &plain_env(),
        &fsys,
        Platform::Posix,
    )
    .unwrap();

    assert_eq!(shim_data.name, "subdir");
    assert_eq!(
        shim_data.args,
        vec!["run", "--no-config", "http://localhost:4545/subdir/main.ts"]
    );
}

#[test]
fn install_inferred_name_after_redirect_for_no_path_url() {
    let fsys = FileSys::new();
    let mut env = plain_env();
    env.redirect = Some("http://localhost:4550/subdir/redirects/a.ts".to_string());
    let shim_data = resolve_shim_data(
        &Flags::default(),
        &request(
            "http://localhost:4550/?redirect_to=/subdir/redirects/a.ts",
            None,
            "/temp",
        ),
        &env,
        &fsys,
        Platform::Posix,
    )
    .unwrap();

    assert_eq!(shim_data.name, "a");
    assert_eq!(
        shim_data.args,
        vec![
            "run",
            "--no-config",
            "http://localhost:4550/?redirect_to=/subdir/redirects/a.ts",
        ]
    );
}

#[test]
fn install_custom_dir_option() {
    let fsys = FileSys::new();
    let shim_data = resolve_shim_data(
        &Flags::default(),
        &request("http://localhost:4545/echo_server.ts", Some("echo_test"), "/temp"),
        &plain_env(),
        &fsys,
        Platform::Posix,
    )
    .unwrap();

    assert_eq!(shim_data.name, "echo_test");
    assert_eq!(
        shim_data.args,
        vec!["run", "--no-config", "http://localhost:4545/echo_server.ts"]
    );
}

#[test]
fn install_with_flags() {
    let fsys = FileSys::new();
    let mut iflags = request("http://localhost:4545/echo_server.ts", Some("echo_test"), "/temp");
    iflags.args = vec!["--foobar".to_string()];
    let shim_data = resolve_shim_data(
        &Flags {
            allow_net: Some(vec![]),
            allow_read: Some(vec![]),
            type_check_mode: TypeCheckMode::NoCheck,
            log_level: Some(LogLevel::Error),
            ..Flags::default()
        },
        &iflags,
        &plain_env(),
        &fsys,
        Platform::Posix,
    )
    .unwrap();

    assert_eq!(shim_data.name, "echo_test");
    assert_eq!(
        shim_data.args,
        vec![
            "run",
            "--allow-read",
            "--allow-net",
            "--quiet",
            "--no-config",
            "http://localhost:4545/echo_server.ts",
            "--foobar",
        ]
    );
}

#[test]
fn install_prompt() {
    let fsys = FileSys::new();
    let shim_data = resolve_shim_data(
        &Flags {
            no_prompt: true,
            ..Flags::default()
        },
        &request("http://localhost:4545/echo_server.ts", Some("echo_test"), "/temp"),
        &plain_env(),
        &fsys,
        Platform::Posix,
    )
    .unwrap();

    assert_eq!(
        shim_data.args,
        vec![
            "run",
            "--no-prompt",
            "--no-config",
            "http://localhost:4545/echo_server.ts",
        ]
    );
}

#[test]
fn install_allow_all() {
    let fsys = FileSys::new();
    let shim_data = resolve_shim_data(
        &Flags {
            allow_all: true,
            ..Flags::default()
        },
        &request("http://localhost:4545/echo_server.ts", Some("echo_test"), "/temp"),
        &plain_env(),
        &fsys,
        Platform::Posix,
    )
    .unwrap();

    assert_eq!(
        shim_data.args,
        vec![
            "run",
            "--allow-all",
            "--no-config",
            "http://localhost:4545/echo_server.ts",
        ]
    );
}

#[test]
fn install_npm_lockfile_default() {
    let fsys = FileSys::new();
    let shim_data = resolve_shim_data(
        &Flags {
            allow_all: true,
            ..Flags::default()
        },
        &request("npm:cowsay", None, "/temp"),
        &plain_env(),
        &fsys,
        Platform::Posix,
    )
    .unwrap();

    let lock_path = "/temp/bin/.cowsay.lock.json";
    assert_eq!(
        shim_data.args,
        vec![
            "run",
            "--allow-all",
            "--no-config",
            "--lock",
            lock_path,
            "npm:cowsay",
        ]
    );
    assert_eq!(
        shim_data.extra_files,
        vec![(lock_path.to_string(), "{}".to_string())]
    );
}

#[test]
fn install_npm_no_lock() {
    let fsys = FileSys::new();
    let shim_data = resolve_shim_data(
        &Flags {
            allow_all: true,
            no_lock: true,
            ..Flags::default()
        },
        &request("npm:cowsay", None, "/temp"),
        &plain_env(),
        &fsys,
        Platform::Posix,
    )
    .unwrap();

    assert_eq!(
        shim_data.args,
        vec!["run", "--allow-all", "--no-config", "--no-lock", "npm:cowsay"]
    );
    assert_eq!(shim_data.extra_files, vec![]);
}

#[test]
fn install_local_module() {
    let mut fsys = FileSys::new();
    let local_module = "/testdir/echo_server.ts";
    let local_module_url = "file:///testdir/echo_server.ts";
    create_install_shim(
        &Flags::default(),
        &request(local_module, Some("echo_test"), "/temp"),
        &plain_env(),
        &mut fsys,
        Platform::Posix,
    )
    .unwrap();

    let file_path = "/temp/bin/echo_test";
    assert!(fsys.has_file(file_path));
    let content = fsys.read(file_path).unwrap();
    assert!(content.contains(local_module_url));
}

#[test]
fn install_force() {
    let mut fsys = FileSys::new();
    create_install_shim(
        &Flags::default(),
        &request("http://localhost:4545/echo_server.ts", Some("echo_test"), "/temp"),
        &plain_env(),
        &mut fsys,
        Platform::Posix,
    )
    .unwrap();
    let file_path = "/temp/bin/echo_test";
    assert!(fsys.has_file(file_path));

    // No force. Install failed.
    let no_force_result = create_install_shim(
        &Flags::default(),
        &request("http://localhost:4545/cat.ts", Some("echo_test"), "/temp"),
        &plain_env(),
        &mut fsys,
        Platform::Posix,
    );
    assert!(no_force_result.is_err());
    assert!(no_force_result
        .unwrap_err()
        .message()
        .contains("Existing installation found"));
    // Assert not modified
    let file_content = fsys.read(file_path).unwrap();
    assert!(file_content.contains("echo_server.ts"));

    // Force. Install success.
    let mut forced = request("http://localhost:4545/cat.ts", Some("echo_test"), "/temp");
    forced.force = true;
    let force_result = create_install_shim(
        &Flags::default(),
        &forced,
        &plain_env(),
        &mut fsys,
        Platform::Posix,
    );
    assert!(force_result.is_ok());
    // Assert modified
    let file_content_2 = fsys.read(file_path).unwrap();
    assert!(file_content_2.contains("cat.ts"));
}

#[test]
fn install_with_config() {
    let mut fsys = FileSys::new();
    let config_file_path = "/temp/test_tsconfig.json";
    fsys.write(config_file_path, "{}".to_string(), false);

    let mut iflags = request("http://localhost:4545/cat.ts", Some("echo_test"), "/temp");
    iflags.force = true;
    let result = create_install_shim(
        &Flags {
            config_flag: ConfigFlag::Path(config_file_path.to_string()),
            ..Flags::default()
        },
        &iflags,
        &plain_env(),
        &mut fsys,
        Platform::Posix,
    );
    assert!(result.is_ok());

    let copied = fsys.read("/temp/bin/.echo_test.deno.json").unwrap();
    assert!(copied == "{}");
}

#[test]
fn install_shell_escaping() {
    let mut fsys = FileSys::new();
    let mut iflags = request("http://localhost:4545/echo_server.ts", Some("echo_test"), "/temp");
    iflags.args = vec!["\"".to_string()];
    create_install_shim(
        &Flags::default(),
        &iflags,
        &plain_env(),
        &mut fsys,
        Platform::Posix,
    )
    .unwrap();

    let content = fsys.read("/temp/bin/echo_test").unwrap();
    assert!(content.contains(r#"run --no-config 'http://localhost:4545/echo_server.ts' '"'"#));
}

#[test]
fn install_unicode() {
    let mut fsys = FileSys::new();
    let local_module = "/temp/Magnús/echo_server.ts";
    create_install_shim(
        &Flags::default(),
        &request(local_module, Some("echo_test"), "/temp"),
        &plain_env(),
        &mut fsys,
        Platform::Posix,
    )
    .unwrap();

    let file_path = "/temp/bin/echo_test";
    assert!(fsys.has_file(file_path));
    let content = fsys.read(file_path).unwrap();
    assert!(content.contains("echo_server.ts"));
}

#[test]
fn install_with_import_map() {
    let mut fsys = FileSys::new();
    let import_map_path = "/temp/import_map.json";
    let import_map_url = "file:///temp/import_map.json";
    let mut iflags = request("http://localhost:4545/cat.ts", Some("echo_test"), "/temp");
    iflags.force = true;
    let result = create_install_shim(
        &Flags {
            import_map_path: Some(import_map_path.to_string()),
            ..Flags::default()
        },
        &iflags,
        &plain_env(),
        &mut fsys,
        Platform::Posix,
    );
    assert!(result.is_ok());

    let file_path = "/temp/bin/echo_test";
    assert!(fsys.has_file(file_path));
    let expected_string = format!(
        "--import-map '{}' --no-config 'http://localhost:4545/cat.ts'",
        import_map_url
    );
    let content = fsys.read(file_path).unwrap();
    assert!(content.contains(&expected_string));
}

#[test]
fn install_file_url() {
    let mut fsys = FileSys::new();
    let file_module_string = "file:///testdata/cat.ts";
    let mut iflags = request(file_module_string, Some("echo_test"), "/temp");
    iflags.force = true;
    let result = create_install_shim(
        &Flags::default(),
        &iflags,
        &plain_env(),
        &mut fsys,
        Platform::Posix,
    );
    assert!(result.is_ok());

    let file_path = "/temp/bin/echo_test";
    assert!(fsys.has_file(file_path));
    let expected_string = format!("run --no-config '{}'", file_module_string);
    let content = fsys.read(file_path).unwrap();
    assert!(content.contains(&expected_string));
}

#[test]
fn uninstall_basic() {
    let mut fsys = FileSys::new();
    let file_path = "/temp/bin/echo_test";
    fsys.write(file_path, String::new(), false);
    // extra files, including the legacy tsconfig.json
    fsys.write("/temp/bin/echo_test.deno.json", String::new(), false);
    fsys.write("/temp/bin/echo_test.tsconfig.json", String::new(), false);
    fsys.write("/temp/bin/echo_test.lock.json", String::new(), false);

    uninstall(
        "echo_test".to_string(),
        Some("/temp".to_string()),
        &plain_env(),
        &mut fsys,
        Platform::Posix,
    )
    .unwrap();

    assert!(!fsys.has_file(file_path));
    assert!(!fsys.has_file("/temp/bin/echo_test.tsconfig.json"));
    assert!(!fsys.has_file("/temp/bin/echo_test.deno.json"));
    assert!(!fsys.has_file("/temp/bin/echo_test.lock.json"));
}

#[test]
fn uninstall_removes_hidden_side_files() {
    let mut fsys = FileSys::new();
    // an npm install pins a hidden lock snapshot beside the shim
    let mut iflags = request("npm:cowsay", None, "/temp");
    iflags.force = true;
    create_install_shim(
        &Flags::default(),
        &iflags,
        &plain_env(),
        &mut fsys,
        Platform::Posix,
    )
    .unwrap();
    assert!(fsys.has_file("/temp/bin/cowsay"));
    assert!(fsys.has_file("/temp/bin/.cowsay.lock.json"));
    fsys.write("/temp/bin/.cowsay.deno.json", String::new(), false);

    uninstall(
        "cowsay".to_string(),
        Some("/temp".to_string()),
        &plain_env(),
        &mut fsys,
        Platform::Posix,
    )
    .unwrap();

    assert!(!fsys.has_file("/temp/bin/cowsay"));
    assert!(!fsys.has_file("/temp/bin/.cowsay.lock.json"));
    assert!(!fsys.has_file("/temp/bin/.cowsay.deno.json"));
}

#[test]
fn uninstall_missing_fails() {
    let mut fsys = FileSys::new();
    // a stray side file alone does not make an installation
    fsys.write("/temp/bin/ghost.lock.json", String::new(), false);
    let result = uninstall(
        "ghost".to_string(),
        Some("/temp".to_string()),
        &plain_env(),
        &mut fsys,
        Platform::Posix,
    );
    match result {
        Err(InstallerError::NotInstalled { name }) => assert_eq!(name, "ghost"),
        other => panic!("expected a not-installed failure, got {:?}", other),
    }
    // the side file was still cleaned up
    assert!(!fsys.has_file("/temp/bin/ghost.lock.json"));
}

#[test]
fn uninstall_windows_removes_cmd_variant() {
    let mut fsys = FileSys::new();
    fsys.write("/temp/bin/echo_test", String::new(), false);
    fsys.write("/temp/bin/echo_test.cmd", String::new(), false);
    uninstall(
        "echo_test".to_string(),
        Some("/temp".to_string()),
        &plain_env(),
        &mut fsys,
        Platform::Windows,
    )
    .unwrap();
    assert!(!fsys.has_file("/temp/bin/echo_test"));
    assert!(!fsys.has_file("/temp/bin/echo_test.cmd"));
}

#[test]
fn validate_name_pattern() {
    assert!(validate_name("foo-bar_1").is_ok());
    assert!(validate_name("Server2").is_ok());
    assert!(validate_name("1abc").is_err());
    assert!(validate_name("_abc").is_err());
    assert!(validate_name("-abc").is_err());
    assert!(validate_name("ab c").is_err());
    assert!(validate_name("").is_err());
    match validate_name("bad name") {
        Err(InstallerError::InvalidName { name }) => {
            assert_eq!(name, "bad name");
        }
        other => panic!("expected an invalid-name failure, got {:?}", other),
    }
}

#[test]
fn invalid_name_aborts_install() {
    let fsys = FileSys::new();
    let result = resolve_shim_data(
        &Flags::default(),
        &request("http://localhost:4545/echo_server.ts", Some("3cho"), "/temp"),
        &plain_env(),
        &fsys,
        Platform::Posix,
    );
    match result {
        Err(InstallerError::InvalidName { name }) => assert_eq!(name, "3cho"),
        other => panic!("expected an invalid-name failure, got {:?}", other),
    }
}

#[test]
fn no_name_inferred_fails() {
    let fsys = FileSys::new();
    let result = resolve_shim_data(
        &Flags::default(),
        &request("https://example.com", None, "/temp"),
        &plain_env(),
        &fsys,
        Platform::Posix,
    );
    match result {
        Err(InstallerError::NoNameInferred) => {}
        other => panic!("expected a no-name failure, got {:?}", other),
    }
}

#[test]
fn invalid_log_level_fails() {
    let fsys = FileSys::new();
    let result = resolve_shim_data(
        &Flags {
            log_level: Some(LogLevel::Warn),
            ..Flags::default()
        },
        &request("http://localhost:4545/a.ts", Some("a"), "/temp"),
        &plain_env(),
        &fsys,
        Platform::Posix,
    );
    match result {
        Err(InstallerError::InvalidLogLevel { level }) => assert_eq!(level, "WARN"),
        other => panic!("expected a log-level failure, got {:?}", other),
    }
}

#[test]
fn debug_log_level_forwarded() {
    let fsys = FileSys::new();
    let shim_data = resolve_shim_data(
        &Flags {
            log_level: Some(LogLevel::Debug),
            ..Flags::default()
        },
        &request("http://localhost:4545/a.ts", Some("a"), "/temp"),
        &plain_env(),
        &fsys,
        Platform::Posix,
    )
    .unwrap();
    assert_eq!(
        shim_data.args,
        vec![
            "run",
            "--log-level",
            "debug",
            "--no-config",
            "http://localhost:4545/a.ts",
        ]
    );
}

#[test]
fn missing_config_read_fails() {
    let fsys = FileSys::new();
    let result = resolve_shim_data(
        &Flags {
            config_flag: ConfigFlag::Path("/temp/deno.json".to_string()),
            ..Flags::default()
        },
        &request("http://localhost:4545/a.ts", Some("a"), "/temp"),
        &plain_env(),
        &fsys,
        Platform::Posix,
    );
    match result {
        Err(InstallerError::ConfigReadFailed { path }) => {
            assert_eq!(path, "/temp/deno.json");
        }
        other => panic!("expected a config-read failure, got {:?}", other),
    }
}

#[test]
fn missing_lock_read_fails() {
    let fsys = FileSys::new();
    let result = resolve_shim_data(
        &Flags {
            lock: Some("/temp/lock.json".to_string()),
            ..Flags::default()
        },
        &request("http://localhost:4545/a.ts", Some("a"), "/temp"),
        &plain_env(),
        &fsys,
        Platform::Posix,
    );
    match result {
        Err(InstallerError::LockReadFailed { path }) => {
            assert_eq!(path, "/temp/lock.json");
        }
        other => panic!("expected a lock-read failure, got {:?}", other),
    }
}

#[test]
fn explicit_lock_content_copied() {
    let mut fsys = FileSys::new();
    fsys.write("/temp/my.lock", "{\"v\":1}".to_string(), false);
    let shim_data = resolve_shim_data(
        &Flags {
            lock: Some("/temp/my.lock".to_string()),
            ..Flags::default()
        },
        &request("http://localhost:4545/a.ts", Some("a"), "/temp"),
        &plain_env(),
        &fsys,
        Platform::Posix,
    )
    .unwrap();
    assert_eq!(
        shim_data.extra_files,
        vec![("/temp/bin/.a.lock.json".to_string(), "{\"v\":1}".to_string())]
    );
}

#[test]
fn bad_import_map_fails() {
    let fsys = FileSys::new();
    let result = resolve_shim_data(
        &Flags {
            import_map_path: Some("relative/map.json".to_string()),
            ..Flags::default()
        },
        &request("http://localhost:4545/a.ts", Some("a"), "/temp"),
        &plain_env(),
        &fsys,
        Platform::Posix,
    );
    match result {
        Err(InstallerError::ImportMapResolveFailed { path }) => {
            assert_eq!(path, "relative/map.json");
        }
        other => panic!("expected an import-map failure, got {:?}", other),
    }
}

#[test]
fn seed_and_v8_flags_forwarded() {
    let fsys = FileSys::new();
    let shim_data = resolve_shim_data(
        &Flags {
            seed: Some(123),
            v8_flags: vec!["--expose-gc".to_string(), "--async-stack-traces".to_string()],
            ..Flags::default()
        },
        &request("http://localhost:4545/a.ts", Some("a"), "/temp"),
        &plain_env(),
        &fsys,
        Platform::Posix,
    )
    .unwrap();
    assert_eq!(
        shim_data.args,
        vec![
            "run",
            "--v8-flags=--expose-gc,--async-stack-traces",
            "--seed",
            "123",
            "--no-config",
            "http://localhost:4545/a.ts",
        ]
    );
}

#[test]
fn location_cert_and_inspect_forwarded() {
    let fsys = FileSys::new();
    let shim_data = resolve_shim_data(
        &Flags {
            location: Some("https://foo/".to_string()),
            ca_data: Some(CaData::File("/certs/ca.pem".to_string())),
            inspect: Some("127.0.0.1:9229".to_string()),
            type_check_mode: TypeCheckMode::All,
            ..Flags::default()
        },
        &request("http://localhost:4545/a.ts", Some("a"), "/temp"),
        &plain_env(),
        &fsys,
        Platform::Posix,
    )
    .unwrap();
    assert_eq!(
        shim_data.args,
        vec![
            "run",
            "--location",
            "https://foo/",
            "--cert",
            "/certs/ca.pem",
            "--check=all",
            "--inspect=127.0.0.1:9229",
            "--no-config",
            "http://localhost:4545/a.ts",
        ]
    );
}

#[test]
fn windows_shim_writes_two_files() {
    let mut fsys = FileSys::new();
    let mut iflags = request("http://localhost:4545/echo_server.ts", Some("echo_test"), "/temp");
    iflags.args = vec!["100%".to_string()];
    create_install_shim(
        &Flags::default(),
        &iflags,
        &plain_env(),
        &mut fsys,
        Platform::Windows,
    )
    .unwrap();

    let cmd = fsys.read("/temp/bin/echo_test.cmd").unwrap();
    assert!(cmd.contains(
        "@deno \"run\" \"--no-config\" \"http://localhost:4545/echo_server.ts\" \"100%%\" %*"
    ));
    let companion = fsys.read("/temp/bin/echo_test").unwrap();
    assert!(companion.contains(
        "deno \"run\" \"--no-config\" \"http://localhost:4545/echo_server.ts\" \"100%\" \"$@\""
    ));
}

#[test]
fn root_resolution_precedence() {
    let mut env = plain_env();
    env.install_root = Some("/opt/custom".to_string());
    env.home = Some("/home/user".to_string());
    assert_eq!(get_installer_root(&env, Platform::Posix).unwrap(), "/opt/custom");

    env.install_root = Some(String::new());
    assert_eq!(
        get_installer_root(&env, Platform::Posix).unwrap(),
        "/home/user/.deno"
    );

    env.home = None;
    match get_installer_root(&env, Platform::Posix) {
        Err(InstallerError::HomeNotDefined { var }) => assert_eq!(var, "HOME"),
        other => panic!("expected a missing-home failure, got {:?}", other),
    }
    match get_installer_root(&env, Platform::Windows) {
        Err(InstallerError::HomeNotDefined { var }) => assert_eq!(var, "USERPROFILE"),
        other => panic!("expected a missing-home failure, got {:?}", other),
    }
}

#[test]
fn install_path_not_directory() {
    let mut fsys = FileSys::new();
    fsys.write("/temp/bin", String::new(), false);
    let result = create_install_shim(
        &Flags::default(),
        &request("http://localhost:4545/a.ts", Some("a"), "/temp"),
        &plain_env(),
        &mut fsys,
        Platform::Posix,
    );
    match result {
        Err(InstallerError::PathNotDirectory) => {}
        other => panic!("expected a not-a-directory failure, got {:?}", other),
    }
}

#[test]
fn hidden_file_naming() {
    assert_eq!(
        get_hidden_file_with_ext("/r/bin/echo_test", "deno.json"),
        "/r/bin/.echo_test.deno.json"
    );
    assert_eq!(
        get_hidden_file_with_ext("/r/bin/echo_test.cmd", "lock.json"),
        "/r/bin/.echo_test.lock.json"
    );
}

#[test]
fn search_path_membership() {
    assert!(is_in_path(
        "/r/bin",
        Some("/usr/bin:/r/bin:/sbin"),
        Platform::Posix
    ));
    assert!(!is_in_path("/r/bin", Some("/usr/bin:/sbin"), Platform::Posix));
    assert!(!is_in_path("/r/bin", None, Platform::Posix));
    assert!(is_in_path(
        "C:/r/bin",
        Some("C:/win;C:/r/bin"),
        Platform::Windows
    ));
}

#[test]
fn error_messages() {
    assert_eq!(
        InstallerError::AlreadyInstalled.message(),
        "Existing installation found. Aborting (Use -f to overwrite)."
    );
    assert_eq!(
        InstallerError::PathNotDirectory.message(),
        "Installation path is not a directory"
    );
    assert_eq!(
        InstallerError::NotInstalled {
            name: "x".to_string()
        }
        .message(),
        "No installation found for x"
    );
}
