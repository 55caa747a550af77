use deploy_tools::config::{Server, SftpUploadResult, Upload, ValidateCopy};
use deploy_tools::sftp::{ChannelStep, LogLevel, LogLine, SftpHandler, UploadStep};

#[test]
fn time_out_defaults_to_ten_seconds() {
    assert_eq!(SftpHandler::get_time_out(None), 10);
    assert_eq!(SftpHandler::get_time_out(Some(0)), 10);
    assert_eq!(SftpHandler::get_time_out(Some(1)), 1);
    assert_eq!(SftpHandler::get_time_out(Some(45)), 45);
    assert_eq!(SftpHandler::get_time_out(Some(u64::MAX)), u64::MAX);
}

#[test]
fn time_out_in_milliseconds_stops_at_32_bits() {
    assert_eq!(SftpHandler::get_time_out_millis(None), 10_000);
    assert_eq!(SftpHandler::get_time_out_millis(Some(0)), 10_000);
    assert_eq!(SftpHandler::get_time_out_millis(Some(3)), 3_000);
    assert_eq!(SftpHandler::get_time_out_millis(Some(4_294_967)), 4_294_967_000);
    assert_eq!(SftpHandler::get_time_out_millis(Some(4_294_968)), u32::MAX);
    assert_eq!(SftpHandler::get_time_out_millis(Some(u64::MAX)), u32::MAX);
}

#[test]
fn progress_lines_are_kept_in_order() {
    let mut log: Vec<LogLine> = Vec::new();
    SftpHandler::log_info("create tcp ..", &mut log);
    SftpHandler::log_error("connect failed", &mut log);
    SftpHandler::log_info("", &mut log);
    assert_eq!(log.len(), 3);
    assert_eq!((log[0].level, log[0].text.as_str()), (LogLevel::Info, "create tcp .."));
    assert_eq!((log[1].level, log[1].text.as_str()), (LogLevel::Error, "connect failed"));
    assert_eq!((log[2].level, log[2].text.as_str()), (LogLevel::Info, ""));
}

#[test]
fn upload_steps_depend_on_what_the_host_holds() {
    assert_eq!(SftpHandler::upload(false, true, true), None);
    assert_eq!(
        SftpHandler::upload(true, true, false),
        Some(vec![UploadStep::Create, UploadStep::Write, UploadStep::SetPermission])
    );
    assert_eq!(
        SftpHandler::upload(true, false, false),
        Some(vec![
            UploadStep::MakeDir,
            UploadStep::Create,
            UploadStep::Write,
            UploadStep::SetPermission
        ])
    );
    assert_eq!(
        SftpHandler::upload(true, true, true),
        Some(vec![
            UploadStep::Unlink,
            UploadStep::Create,
            UploadStep::Write,
            UploadStep::SetPermission
        ])
    );
    assert_eq!(
        SftpHandler::upload(true, false, true),
        Some(vec![
            UploadStep::MakeDir,
            UploadStep::Unlink,
            UploadStep::Create,
            UploadStep::Write,
            UploadStep::SetPermission
        ])
    );
    assert!(SftpHandler::check_dir(false));
    assert!(!SftpHandler::check_dir(true));
}

#[test]
fn home_directory_is_the_sixth_field() {
    assert_eq!(
        SftpHandler::get_user_home_dir("test:x:1000:1000:Test User:/home/test:/bin/bash\n"),
        Some("/home/test".to_string())
    );
    assert_eq!(
        SftpHandler::get_user_home_dir("root:x:0:0:root:/root"),
        Some("/root".to_string())
    );
    assert_eq!(SftpHandler::get_user_home_dir("a:b:c:d:e::g"), Some(String::new()));
    assert_eq!(SftpHandler::get_user_home_dir("a:b:c:d:e"), None);
    assert_eq!(SftpHandler::get_user_home_dir(""), None);
    assert_eq!(SftpHandler::get_user_home_dir("  \n"), None);
}

#[test]
fn a_channel_closes_in_four_steps() {
    assert_eq!(
        SftpHandler::close_channel(),
        vec![ChannelStep::SendEof, ChannelStep::WaitEof, ChannelStep::Close, ChannelStep::WaitClose]
    );
}

#[test]
fn anything_on_the_error_stream_is_a_failure() {
    assert!(SftpHandler::get_channel_output(""));
    assert!(!SftpHandler::get_channel_output("rm: cannot remove"));
    assert!(!SftpHandler::get_channel_output(" "));
}

#[test]
fn incomplete_settings() {
    let full = Server {
        host: "10.0.0.1".to_string(),
        port: 22,
        username: "u".to_string(),
        password: "p".to_string(),
        timeout: None,
    };
    assert!(!full.is_empty());
    assert!(Server { host: String::new(), ..full.clone() }.is_empty());
    assert!(Server { port: 0, ..full.clone() }.is_empty());
    assert!(Server { username: String::new(), ..full.clone() }.is_empty());
    assert!(Server { password: String::new(), ..full.clone() }.is_empty());
    assert!(Server::default().is_empty());

    let upload = Upload {
        cmds: vec![],
        dir: "/a".to_string(),
        server_dir: "/b".to_string(),
        server_file_name: None,
        need_increment: true,
    };
    assert!(!upload.is_empty());
    assert!(Upload { dir: String::new(), ..upload.clone() }.is_empty());
    assert!(Upload { server_dir: String::new(), ..upload.clone() }.is_empty());

    let copy = ValidateCopy {
        hash: "ff".to_string(),
        file_path: "/a/b".to_string(),
        dest_dir: "bin".to_string(),
    };
    assert!(!copy.is_empty());
    assert!(ValidateCopy { hash: String::new(), ..copy.clone() }.is_empty());
    assert!(ValidateCopy { file_path: String::new(), ..copy.clone() }.is_empty());
    assert!(ValidateCopy { dest_dir: String::new(), ..copy.clone() }.is_empty());

    let result = SftpUploadResult::default();
    assert_eq!(result.file_count, 0);
    assert_eq!(result.delete_file_count, 0);
    assert!(result.exec_commands.is_empty());
    assert!(!result.need_increment);
}

#[test]
fn the_address_is_host_colon_port() {
    let server = Server {
        host: "192.1.1.1".to_string(),
        port: 22,
        username: "test".to_string(),
        password: "test".to_string(),
        timeout: None,
    };
    assert_eq!(SftpHandler::connect(&server), "192.1.1.1:22");
    assert_eq!(SftpHandler::connect(&server), format!("{}:{}", server.host, server.port));
    let other = Server { port: u32::MAX, host: "h".to_string(), ..server };
    assert_eq!(SftpHandler::connect(&other), "h:4294967295");
}
