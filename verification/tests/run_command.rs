use specdown::commands::run::RunCommand;
use std::path::Path;

fn command() -> RunCommand {
    RunCommand {
        spec_files: vec![],
        spec_dir: "/usr/local/specdown".to_string(),
        shell_cmd: "".to_string(),
        running_dir: None,
    }
}

#[test]
fn test_returns_the_path_when_it_is_absolute() {
    let path = Path::new("/home/user/file");
    assert_eq!(path, Path::new(&command().to_absolute("/home/user/file")));
}

#[test]
fn test_returns_the_working_dir_prepended_when_path_is_relative() {
    assert_eq!(
        Path::new("/usr/local/specdown/file"),
        Path::new(&command().to_absolute("./file"))
    );
}

#[test]
fn test_returns_the_working_dir_prepended_when_path_contains_parent() {
    assert_eq!(
        Path::new("/usr/local/specdown/../file"),
        Path::new(&command().to_absolute("../file"))
    );
}

#[test]
fn to_absolute_joins_with_one_separator() {
    assert_eq!(command().to_absolute("./file"), "/usr/local/specdown/./file");
    let rooted = RunCommand {
        spec_files: vec![],
        spec_dir: "/".to_string(),
        shell_cmd: "".to_string(),
        running_dir: None,
    };
    assert_eq!(rooted.to_absolute("file"), "/file");
    let nowhere = RunCommand {
        spec_files: vec![],
        spec_dir: "".to_string(),
        shell_cmd: "".to_string(),
        running_dir: None,
    };
    assert_eq!(nowhere.to_absolute("file"), "file");
}
