use deploy_tools::command::{CommandFuncHandler, CommandHandler, ProcessOutput};
use deploy_tools::file::{FileHandler, Utils};

fn output(success: bool, stdout: &str, stderr: &str) -> ProcessOutput {
    ProcessOutput { success, stdout: stdout.to_string(), stderr: stderr.to_string() }
}

#[test]
fn the_result_of_a_command_is_its_output_on_success() {
    let ok = output(true, "Docker version 24\n", "warning");
    assert_eq!(CommandHandler::exec_command_result(Some(&ok)), "Docker version 24\n");
    let failed = output(false, "partial", "no such command");
    assert_eq!(CommandHandler::exec_command_result(Some(&failed)), "");
    assert_eq!(CommandHandler::exec_command_result(None), "");
}

#[test]
fn the_lines_of_a_command() {
    let ok = output(true, "a\r\nb\n", "ignored");
    assert_eq!(
        CommandHandler::exec_command(Some(&ok)),
        (true, vec!["a".to_string(), "b".to_string()])
    );
    let failed = output(false, "ignored", "e1\ne2");
    assert_eq!(
        CommandHandler::exec_command(Some(&failed)),
        (false, vec!["e1".to_string(), "e2".to_string()])
    );
    assert_eq!(CommandHandler::exec_command(None), (false, Vec::new()));
    assert_eq!(CommandHandler::exec_command(Some(&output(true, "", ""))), (true, Vec::new()));
}

#[test]
fn a_line_is_added_behind_a_line_break() {
    assert_eq!(FileHandler::write_file_string_pre_line(None, "first"), "first");
    assert_eq!(
        FileHandler::write_file_string_pre_line(Some("first"), "second"),
        "first\r\nsecond"
    );
    assert_eq!(FileHandler::write_file_string_pre_line(Some(""), "x"), "\r\nx");
    assert_eq!(FileHandler::write_file_string_pre_line(Some("a\r\n"), ""), "a\r\n\r\n");
}

#[test]
fn moved_files_keep_their_base_names() {
    let paths = vec!["/src/a.txt".to_string(), "/src/sub/b.txt".to_string(), "c".to_string()];
    assert_eq!(
        FileHandler::move_files(&paths, "/dest/tmp"),
        vec!["/dest/tmp/a.txt".to_string(), "/dest/tmp/b.txt".to_string(), "/dest/tmp/c".to_string()]
    );
    assert!(FileHandler::move_files(&Vec::new(), "/dest").is_empty());
}

#[test]
fn a_command_of_several_lines_becomes_one_line() {
    assert_eq!(
        CommandHandler::get_command_lines("cd /tmp\nls\npwd"),
        Some("cd /tmp && ls && pwd".to_string())
    );
    assert_eq!(CommandHandler::get_command_lines("ls"), Some("ls".to_string()));
    assert_eq!(CommandHandler::get_command_lines(""), None);
    assert_eq!(
        CommandFuncHandler::exec_command("docker build .\ndocker push x"),
        Some("exec command: docker build . && docker push x".to_string())
    );
    assert_eq!(CommandFuncHandler::exec_command(""), None);
}

#[test]
fn the_date_pattern_defaults_to_date_and_time() {
    assert_eq!(Utils::get_date(None), "%Y-%m-%d %H:%M:%S");
    assert_eq!(Utils::get_date(Some("%Y%m%d%H%M%S")), "%Y%m%d%H%M%S");
}

#[test]
fn only_archives_are_packed_into() {
    assert!(Utils::generate_zip("/a/b/build.zip"));
    assert!(Utils::generate_zip(".zip"));
    assert!(!Utils::generate_zip("/a/b/build.tar"));
    assert!(!Utils::generate_zip("/a/b/build.ZIP"));
    assert!(!Utils::generate_zip("zip"));
    assert!(!Utils::generate_zip(""));
    for path in ["/a/b/build.zip", "x.zip.", "azip", "a.zipp", "日本.zip"] {
        assert_eq!(Utils::generate_zip(path), path.ends_with(".zip"));
    }
}

#[test]
fn a_directory_is_stored_under_its_name_beside_the_archive() {
    assert_eq!(Utils::add_directory_to_zip("/work/out/build", "/work/out/build.zip"), "build");
    assert_eq!(Utils::add_directory_to_zip("/work/out/a/b", "/work/out/build.zip"), "a/b");
    assert_eq!(
        Utils::add_directory_to_zip("/elsewhere/build", "/work/out/build.zip"),
        "/work/out/build.zip"
    );
}

#[test]
fn parts_are_placed_one_under_the_other() {
    let parts = vec!["a".to_string(), "b".to_string(), "c.txt".to_string()];
    assert_eq!(Utils::get_path("/root", &parts), "/root/a/b/c.txt");
    assert_eq!(Utils::get_path("/root", &Vec::new()), "/root");
    let mut expected = std::path::PathBuf::from("/root/");
    for part in &parts {
        expected.push(part);
    }
    assert_eq!(Utils::get_path("/root/", &parts), expected.to_string_lossy().to_string());
}
