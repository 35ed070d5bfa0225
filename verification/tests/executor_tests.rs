use smcmanager::executor::Executor;

#[test]
fn command_line_joins_arguments_with_spaces() {
    let e = Executor::new("ls".to_string(), vec!["/".to_string()]);
    assert_eq!(e.command_line(), "ls /");
}

#[test]
fn command_line_with_several_arguments() {
    let e = Executor::new(
        "cp".to_string(),
        vec!["-r".to_string(), "a".to_string(), "b".to_string()],
    );
    assert_eq!(e.command_line(), "cp -r a b");
}

#[test]
fn command_line_without_arguments_is_the_command() {
    let e = Executor::new("true".to_string(), vec![]);
    assert_eq!(e.command_line(), "true");
}

#[test]
fn script_is_taken_verbatim() {
    let e = Executor::from_script("redis-cli -p 6379 ping | grep PONG".to_string());
    assert_eq!(e.command_line(), "redis-cli -p 6379 ping | grep PONG");
}

#[test]
fn current_dir_overrides_only_the_directory() {
    let mut e = Executor::new("ls".to_string(), vec!["/".to_string()]);
    assert_eq!(e.current_dir, "");
    e.current_dir("/srv/www".to_string());
    assert_eq!(e.current_dir, "/srv/www");
    assert_eq!(e.command_line(), "ls /");
}
