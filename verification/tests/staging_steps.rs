use deploy_tools::config::{Server, Upload};
use deploy_tools::staging::{CompressPlan, ValidationError};
use deploy_tools::upload::SftpUpload;

fn server() -> Server {
    Server {
        host: "192.1.1.1".to_string(),
        port: 22,
        username: "test".to_string(),
        password: "test".to_string(),
        timeout: None,
    }
}

fn upload(name: Option<&str>) -> Upload {
    Upload {
        cmds: vec![],
        dir: "/usr/local/test".to_string(),
        server_dir: "/usr/local/nginx/www/".to_string(),
        server_file_name: name.map(String::from),
        need_increment: false,
    }
}

fn names(list: &[&str]) -> Vec<String> {
    list.iter().map(|s| s.to_string()).collect()
}

#[test]
fn the_name_asked_for_wins() {
    let r = SftpUpload::get_upload_file_name(&upload(Some("site")), &names(&["a"]), &names(&[]));
    assert_eq!(r, Some("site".to_string()));
}

#[test]
fn the_only_directory_names_the_artifact() {
    let r = SftpUpload::get_upload_file_name(&upload(None), &names(&["dist"]), &names(&[]));
    assert_eq!(r, Some("dist".to_string()));
}

#[test]
fn the_only_file_names_the_artifact() {
    let r = SftpUpload::get_upload_file_name(&upload(None), &names(&[]), &names(&["app.zip"]));
    assert_eq!(r, Some("app.zip".to_string()));
}

#[test]
fn the_source_directory_names_the_artifact_otherwise() {
    let r = SftpUpload::get_upload_file_name(
        &upload(None),
        &names(&["js", "css"]),
        &names(&["index.html"]),
    );
    assert_eq!(r, Some("test".to_string()));
    let mut u = upload(None);
    u.dir = "/usr/local/test/build/".to_string();
    let r = SftpUpload::get_upload_file_name(&u, &names(&["js"]), &names(&["index.html"]));
    assert_eq!(r, Some("build".to_string()));
}

#[test]
fn an_empty_source_has_no_name() {
    let r = SftpUpload::get_upload_file_name(&upload(None), &names(&[]), &names(&[]));
    assert_eq!(r, None);
}

#[test]
fn validation_turns_down_an_incomplete_server() {
    let mut s = server();
    s.host = String::new();
    let r = SftpUpload::exec(&s, &upload(None), true, &names(&["a"]), &names(&[]));
    assert_eq!(r, Err(ValidationError::HostMissing));
    let mut s = server();
    s.port = 0;
    let r = SftpUpload::exec(&s, &upload(None), true, &names(&["a"]), &names(&[]));
    assert_eq!(r, Err(ValidationError::PortMissing));
    let mut s = server();
    s.username = String::new();
    let r = SftpUpload::exec(&s, &upload(None), true, &names(&["a"]), &names(&[]));
    assert_eq!(r, Err(ValidationError::UsernameMissing));
    let mut s = server();
    s.password = String::new();
    let r = SftpUpload::exec(&s, &upload(None), true, &names(&["a"]), &names(&[]));
    assert_eq!(r, Err(ValidationError::PasswordMissing));
}

#[test]
fn validation_turns_down_an_incomplete_upload() {
    let mut u = upload(None);
    u.server_dir = String::new();
    let r = SftpUpload::exec(&server(), &u, true, &names(&["a"]), &names(&[]));
    assert_eq!(r, Err(ValidationError::ServerDirMissing));
    let mut u = upload(None);
    u.dir = String::new();
    let r = SftpUpload::exec(&server(), &u, true, &names(&["a"]), &names(&[]));
    assert_eq!(r, Err(ValidationError::DirMissing));
}

#[test]
fn validation_turns_down_a_missing_source() {
    let r = SftpUpload::exec(&server(), &upload(None), false, &names(&["a"]), &names(&[]));
    assert_eq!(r, Err(ValidationError::SourceNotFound));
}

#[test]
fn validation_fails_exactly_where_the_settings_are_incomplete_or_the_source_is_unusable() {
    for host in ["", "h"] {
        for port in [0u32, 22] {
            for dir in ["", "/d"] {
                for dir_exists in [false, true] {
                    for entries in [0usize, 1] {
                        let s = Server {
                            host: host.to_string(),
                            port,
                            ..server()
                        };
                        let mut u = upload(Some("n"));
                        u.dir = dir.to_string();
                        let found = names(&["x"][..entries]);
                        let r = SftpUpload::exec(&s, &u, dir_exists, &found, &names(&[]));
                        let fine = !s.is_empty() && !u.is_empty() && dir_exists && entries > 0;
                        assert_eq!(r.is_ok(), fine);
                    }
                }
            }
        }
    }
}

#[test]
fn validation_turns_down_an_empty_source() {
    let r = SftpUpload::exec(&server(), &upload(None), true, &names(&[]), &names(&[]));
    assert_eq!(r, Err(ValidationError::SourceEmpty));
    let r = SftpUpload::exec(&server(), &upload(Some("x")), true, &names(&[]), &names(&[]));
    assert_eq!(r, Err(ValidationError::SourceEmpty));
}

#[test]
fn validation_turns_down_an_empty_name() {
    let r = SftpUpload::exec(&server(), &upload(Some("")), true, &names(&["a"]), &names(&[]));
    assert_eq!(r, Err(ValidationError::NoFileName));
    let mut u = upload(None);
    u.dir = "/".to_string();
    let r = SftpUpload::exec(&server(), &u, true, &names(&["a", "b"]), &names(&[]));
    assert_eq!(r, Err(ValidationError::NoFileName));
}

#[test]
fn validation_checks_in_order() {
    let mut s = server();
    s.password = String::new();
    s.port = 0;
    let mut u = upload(None);
    u.dir = String::new();
    u.server_dir = String::new();
    let r = SftpUpload::exec(&s, &u, false, &names(&[]), &names(&[]));
    assert_eq!(r, Err(ValidationError::PortMissing));
    let r = SftpUpload::exec(&server(), &u, false, &names(&[]), &names(&[]));
    assert_eq!(r, Err(ValidationError::DirMissing));
    let r = SftpUpload::exec(&server(), &upload(None), false, &names(&[]), &names(&[]));
    assert_eq!(r, Err(ValidationError::SourceNotFound));
}

#[test]
fn validation_gives_the_name() {
    let r = SftpUpload::exec(&server(), &upload(Some("test")), true, &names(&["a"]), &names(&[]));
    assert_eq!(r, Ok("test".to_string()));
    let r = SftpUpload::exec(&server(), &upload(None), true, &names(&["dist"]), &names(&[]));
    assert_eq!(r, Ok("dist".to_string()));
}

#[test]
fn the_scratch_directory_stands_beside_the_server_directory() {
    assert_eq!(
        SftpUpload::server_temp_path("/usr/local/nginx/www/"),
        "/usr/local/nginx/__SFTP_TEMP_DIR__"
    );
    assert_eq!(
        SftpUpload::server_temp_path("  /usr/local/nginx/www "),
        "/usr/local/nginx/__SFTP_TEMP_DIR__"
    );
    assert_eq!(SftpUpload::server_temp_path("/www"), "/__SFTP_TEMP_DIR__");
    assert_eq!(SftpUpload::server_temp_path("/"), "/__SFTP_TEMP_DIR__");
    assert_eq!(SftpUpload::server_temp_path("www"), "__SFTP_TEMP_DIR__");
    assert_eq!(SftpUpload::server_temp_path("www/"), "__SFTP_TEMP_DIR__");
    assert_eq!(SftpUpload::server_temp_path("srv/www"), "srv/__SFTP_TEMP_DIR__");
    assert_eq!(SftpUpload::server_temp_path(""), "__SFTP_TEMP_DIR__");
}

#[test]
fn the_scratch_directory_agrees_with_std_paths() {
    for dir in ["/usr/local/nginx/www/", "/www", "/", "www", "www/", "srv/www", "", "/a/b"] {
        let path = std::path::PathBuf::from(dir);
        let expected = match path.parent() {
            Some(parent) => parent.join("__SFTP_TEMP_DIR__"),
            None => path.join("__SFTP_TEMP_DIR__"),
        };
        assert_eq!(
            SftpUpload::server_temp_path(dir),
            expected.to_string_lossy().to_string(),
            "{:?}",
            dir
        );
    }
}

#[test]
fn the_places_of_a_run() {
    let places = SftpUpload::stage_paths(
        &upload(Some("test")),
        "/usr/local/test/test-20240102030405.zip",
        "test",
    );
    assert_eq!(places.server_temp_path, "/usr/local/nginx/__SFTP_TEMP_DIR__");
    assert_eq!(places.zip_file_name, "test-20240102030405.zip");
    assert_eq!(
        places.server_file_path,
        "/usr/local/nginx/__SFTP_TEMP_DIR__/test-20240102030405.zip"
    );
    assert_eq!(places.unzip_dir, "/usr/local/nginx/__SFTP_TEMP_DIR__/test");
    assert_eq!(places.server_file_dir, "/usr/local/nginx/www/test");
}

#[test]
fn the_commands_that_unpack() {
    let places = SftpUpload::stage_paths(&upload(Some("test")), "/tmp/test-1.zip", "test");
    assert_eq!(
        SftpUpload::uncompress_zip(&places),
        vec![
            "cd /usr/local/nginx/__SFTP_TEMP_DIR__".to_string(),
            "rm -rf /usr/local/nginx/__SFTP_TEMP_DIR__/test".to_string(),
            "unzip /usr/local/nginx/__SFTP_TEMP_DIR__/test-1.zip -d /usr/local/nginx/__SFTP_TEMP_DIR__"
                .to_string(),
        ]
    );
}

#[test]
fn what_cleanup_removes() {
    let places = SftpUpload::stage_paths(&upload(Some("test")), "/tmp/test-1.zip", "test");
    let plan = SftpUpload::end(&places, "/tmp/test-1.zip");
    assert_eq!(plan.remote_archive, "/usr/local/nginx/__SFTP_TEMP_DIR__/test-1.zip");
    assert_eq!(plan.commands, vec!["rm -rf /usr/local/nginx/__SFTP_TEMP_DIR__/test".to_string()]);
    assert_eq!(plan.local_archive, "/tmp/test-1.zip");
}

#[test]
fn a_batch_is_one_text() {
    let commands = vec!["cd /a".to_string(), "rm -rf /a/b".to_string(), "unzip x".to_string()];
    assert_eq!(SftpUpload::exec_command(&commands), "cd /a \n rm -rf /a/b \n unzip x");
    assert_eq!(SftpUpload::exec_command(&commands), commands.join(" \n "));
    assert_eq!(SftpUpload::exec_command(&vec!["ls".to_string()]), "ls");
    assert_eq!(SftpUpload::exec_command(&Vec::new()), "");
}

#[test]
fn the_time_stamp_goes_before_the_extension() {
    assert_eq!(
        SftpUpload::rename_file_upload_path("/usr/local/test/build.zip", "20240102030405"),
        "/usr/local/test/build-20240102030405.zip"
    );
    assert_eq!(SftpUpload::rename_file_upload_path("build.zip", "1"), "build-1.zip");
    assert_eq!(SftpUpload::rename_file_upload_path("/a.b/build", "1"), "/a.b/build-1.zip");
    assert_eq!(SftpUpload::rename_file_upload_path("/a/my.app.zip", "7"), "/a/my.app-7.zip");
}

#[test]
fn the_archive_has_the_extension_zip() {
    assert_eq!(SftpUpload::generate_zip("/usr/local/test/build"), "/usr/local/test/build.zip");
    assert_eq!(SftpUpload::generate_zip("/usr/local/test/app.tar"), "/usr/local/test/app.zip");
    assert_eq!(SftpUpload::generate_zip("/usr/local/te.st/app"), "/usr/local/te.st/app.zip");
    assert_eq!(SftpUpload::generate_zip("/usr/local/.hidden"), "/usr/local/.hidden.zip");
    let expected = std::path::Path::new("/usr/local/test/app.min.js").with_extension("zip");
    assert_eq!(
        SftpUpload::generate_zip("/usr/local/test/app.min.js"),
        expected.to_string_lossy().to_string()
    );
}

#[test]
fn how_the_archive_comes_about() {
    assert_eq!(SftpUpload::compress_upload_dir(0, 1, true, false), CompressPlan::UseArchive);
    assert_eq!(SftpUpload::compress_upload_dir(0, 1, false, true), CompressPlan::GatherAndPack);
    assert_eq!(SftpUpload::compress_upload_dir(1, 0, false, true), CompressPlan::PackDirectory);
    assert_eq!(SftpUpload::compress_upload_dir(1, 0, true, false), CompressPlan::GatherAndPack);
    assert_eq!(SftpUpload::compress_upload_dir(2, 3, true, true), CompressPlan::GatherAndPack);
    assert_eq!(SftpUpload::compress_upload_dir(1, 1, true, true), CompressPlan::GatherAndPack);
}
