use deploy_tools::config::{Server, ValidateCopy};
use deploy_tools::runnable::{CopyPlan, RunError, SftpRunnableHandler};

fn server() -> Server {
    Server {
        host: "192.1.1.1".to_string(),
        port: 22,
        username: "test".to_string(),
        password: "test".to_string(),
        timeout: None,
    }
}

fn copy() -> ValidateCopy {
    ValidateCopy {
        hash: "abc123".to_string(),
        file_path: "/usr/local/test/__MONITOR__/n-nacos-tools".to_string(),
        dest_dir: "__MONITOR__".to_string(),
    }
}

#[test]
fn checks_before_a_program_is_sent() {
    assert_eq!(
        SftpRunnableHandler::exec(&server(), &copy(), true, true),
        Ok("n-nacos-tools".to_string())
    );
    assert_eq!(
        SftpRunnableHandler::exec(&Server::default(), &copy(), true, true),
        Err(RunError::ServerIncomplete)
    );
    assert_eq!(
        SftpRunnableHandler::exec(&server(), &ValidateCopy::default(), true, true),
        Err(RunError::CopyIncomplete)
    );
    assert_eq!(
        SftpRunnableHandler::exec(&server(), &copy(), false, false),
        Err(RunError::FileMissing)
    );
    assert_eq!(
        SftpRunnableHandler::exec(&server(), &copy(), true, false),
        Err(RunError::NotAFile)
    );
    let mut c = copy();
    c.file_path = "/usr/local/test/".to_string();
    assert_eq!(SftpRunnableHandler::exec(&server(), &c, true, true), Err(RunError::NoFileName));
}

#[test]
fn a_program_is_sent_unless_the_host_holds_it() {
    assert_eq!(
        SftpRunnableHandler::validate_copy_file(Some("abc123"), &copy(), ""),
        CopyPlan { kill: false, upload: false }
    );
    assert_eq!(
        SftpRunnableHandler::validate_copy_file(Some(" abc123\n"), &copy(), "4711"),
        CopyPlan { kill: false, upload: false }
    );
    assert_eq!(
        SftpRunnableHandler::validate_copy_file(Some("ffff"), &copy(), ""),
        CopyPlan { kill: false, upload: true }
    );
    assert_eq!(
        SftpRunnableHandler::validate_copy_file(Some("ffff"), &copy(), "4711"),
        CopyPlan { kill: true, upload: true }
    );
    assert_eq!(
        SftpRunnableHandler::validate_copy_file(Some(""), &copy(), "4711"),
        CopyPlan { kill: true, upload: true }
    );
    assert_eq!(
        SftpRunnableHandler::validate_copy_file(None, &copy(), "4711"),
        CopyPlan { kill: true, upload: true }
    );
    assert_eq!(
        SftpRunnableHandler::validate_copy_file(None, &copy(), ""),
        CopyPlan { kill: false, upload: true }
    );
}

#[test]
fn the_process_id_is_the_second_word_of_the_first_line_that_names_the_program() {
    let output = "test  812 0.0 0.1 grep n-nacos-tools\n\
                  test  4711  0.3  1.2 123456 7890 ?  Sl  10:00  0:01 /home/test/n-nacos-tools\n\
                  test  4712  0.3  1.2 123456 7890 ?  Sl  10:00  0:01 /home/test/n-nacos-tools\n";
    assert_eq!(SftpRunnableHandler::judge_program_running(output, "n-nacos-tools"), "4711");
    assert_eq!(SftpRunnableHandler::judge_program_running(output, "other"), "");
    assert_eq!(SftpRunnableHandler::judge_program_running("", "n-nacos-tools"), "");
    assert_eq!(SftpRunnableHandler::judge_program_running("n-nacos-tools", "n-nacos-tools"), "");
    assert_eq!(
        SftpRunnableHandler::judge_program_running("n-nacos-tools\r\nu 9 n-nacos-tools", "n-nacos-tools"),
        ""
    );
}

#[test]
fn the_process_id_agrees_with_a_search_by_std() {
    let outputs = [
        "a 1 x\nb 2 prog\nc 3 prog",
        "grep prog\n  d   44   prog  ",
        "prog",
        "\n\nu\t77\tprog\r\n",
        "u 1 program\nu 2 prog",
    ];
    for output in outputs {
        let expected = output
            .lines()
            .filter(|line| line.contains("prog") && !line.contains("grep"))
            .next()
            .and_then(|line| line.split_whitespace().nth(1))
            .unwrap_or("")
            .to_string();
        assert_eq!(SftpRunnableHandler::judge_program_running(output, "prog"), expected);
    }
}

#[test]
fn the_commands_for_a_process() {
    assert_eq!(
        SftpRunnableHandler::judge_command("n-nacos-tools"),
        "ps aux | grep n-nacos-tools | grep -v grep"
    );
    assert_eq!(SftpRunnableHandler::kill_pid("4711"), "kill 4711");
}

#[test]
fn the_pause_between_reads_defaults_to_one_second() {
    assert_eq!(SftpRunnableHandler::exec_program(None), 1);
    assert_eq!(SftpRunnableHandler::exec_program(Some(5)), 5);
    assert_eq!(SftpRunnableHandler::exec_program(Some(0)), 0);
}

#[test]
fn test_run_program() {
    let server = Server {
        host: "192.1.1.1".to_string(),
        port: 22,
        username: "test".to_string(),
        password: "test".to_string(),
        timeout: None,
    };
    assert!(!server.is_empty());
    let dest_file_path = "/usr/local/test/__MONITOR__/n-nacos-tools";
    let name = deploy_tools::paths::file_name(dest_file_path);
    assert_eq!(name, "n-nacos-tools");
    assert_eq!(
        SftpRunnableHandler::judge_command(&name),
        "ps aux | grep n-nacos-tools | grep -v grep"
    );
    assert_eq!(SftpRunnableHandler::exec_program(None), 1);
}
