use dropshipping::log::{Log, LogFileSystem};

#[test]
fn test_info() {
    let mut out: Vec<u8> = Vec::new();
    let mut log = Log::new("foo.bar.com", &mut out);
    log.info(format!("hello world").as_str());
    let line = String::from_utf8(out).unwrap();
    let data = line[19..].to_string();
    assert_eq!(data, " INFO   - foo.bar.com - hello world\n");
}

#[test]
fn test_info_with_arguments() {
    let mut out: Vec<u8> = Vec::new();
    let mut log = Log::new("foo.bar.com", &mut out);
    log.info(format!("hello {}", "world").as_str());
    let line = String::from_utf8(out).unwrap();
    let data = line[19..].to_string();
    assert_eq!(data, " INFO   - foo.bar.com - hello world\n");
}

#[test]
fn test_error() {
    let mut out: Vec<u8> = Vec::new();
    let mut log = Log::new("foo.bar.com", &mut out);
    log.error(format!("hello world").as_str());
    let line = String::from_utf8(out).unwrap();
    let data = line[19..].to_string();
    assert_eq!(data, " ERROR  - foo.bar.com - hello world\n");
}

#[test]
fn test_error_with_arguments() {
    let mut out: Vec<u8> = Vec::new();
    let mut log = Log::new("foo.bar.com", &mut out);
    log.error(format!("hello {}", "world").as_str());
    let line = String::from_utf8(out).unwrap();
    let data = line[19..].to_string();
    assert_eq!(data, " ERROR  - foo.bar.com - hello world\n");
}

#[test]
fn test_fork() {
    let mut out: Vec<u8> = Vec::new();
    let mut parent = Log::new("foo.bar", &mut out);
    let mut child = Log::fork("com", &mut parent);
    child.info(format!("hello world").as_str());
    let line = String::from_utf8(out).unwrap();
    let data = line[19..].to_string();
    assert_eq!(data, " INFO   - foo.bar.com - hello world\n");
}

#[test]
fn test_fork_mutability() {
    let mut out: Vec<u8> = Vec::new();
    let mut parent = Log::new("foo.bar", &mut out);
    let mut child = Log::fork("com", &mut parent);
    child.info(format!("hello world").as_str());
    let mut grant_child = Log::fork("net", &mut child);
    grant_child.info(format!("hello world").as_str());
    parent.info(format!("hello world").as_str());
}

#[test]
fn fork_writes_to_the_parent_buffer_in_order() {
    let mut out: Vec<u8> = Vec::new();
    {
        let mut parent = Log::new("a", &mut out);
        {
            let mut child = Log::fork("b", &mut parent);
            child.error("one");
        }
        parent.info("two");
    }
    let text = String::from_utf8(out).unwrap();
    let lines: Vec<&str> = text.lines().collect();
    assert_eq!(lines.len(), 2);
    assert_eq!(&lines[0][19..], " ERROR  - a.b - one");
    assert_eq!(&lines[1][19..], " INFO   - a - two");
}

#[test]
fn long_level_names_are_not_cut() {
    let mut out: Vec<u8> = Vec::new();
    let mut log = Log::new("", &mut out);
    log.info("");
    let text = String::from_utf8(out).unwrap();
    assert_eq!(&text[19..], " INFO   -  - \n");
}

#[test]
fn log_file_paths_are_named_by_time_and_postfix() {
    let fs = LogFileSystem::new("logs".to_string());
    let p = fs.get_path("error.json", Some("pull"));
    let prefix = std::path::Path::new("logs").join("pull");
    let name = std::path::Path::new(&p).strip_prefix(&prefix).unwrap().to_str().unwrap().to_string();
    assert_eq!(name.len(), "20240101T000000_error.json".len());
    assert!(name.ends_with("_error.json"));
    assert_eq!(&name[8..9], "T");
    assert!(name[..8].chars().all(|c| c.is_ascii_digit()));
    let top = fs.get_path("x", None);
    assert_eq!(std::path::Path::new(&top).parent().unwrap(), std::path::Path::new("logs"));
    assert!(top.ends_with("_x"));
}

#[test]
fn log_lines_start_with_the_time() {
    let mut out: Vec<u8> = Vec::new();
    let mut log = Log::new("t", &mut out);
    log.info("x");
    let text = String::from_utf8(out).unwrap();
    let time = &text[..19];
    assert_eq!(&time[4..5], "-");
    assert_eq!(&time[10..11], " ");
    assert_eq!(&time[13..14], ":");
    assert!(time[..4].chars().all(|c| c.is_ascii_digit()));
}
