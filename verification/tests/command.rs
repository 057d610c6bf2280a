use kingdom_viewer::command::{
    geometry, make_startup_script, make_terminals_root, shell_command, PtyGeometry,
};

#[test]
fn geometry_is_twenty_four_by_eighty() {
    assert_eq!(geometry(), PtyGeometry { rows: 24, cols: 80, pixel_width: 0, pixel_height: 0 });
}

#[test]
fn terminals_root_lies_beside_the_base() {
    assert_eq!(make_terminals_root("/opt/viewer"), "/opt/viewer/../.terminals");
    assert_eq!(make_terminals_root(""), "/../.terminals");
}

#[test]
fn startup_script_is_named_by_the_session() {
    assert_eq!(make_startup_script("/r/.terminals", 1), "/r/.terminals/1/.bashrc");
    assert_eq!(make_startup_script("/r/.terminals", 42), "/r/.terminals/42/.bashrc");
    assert_eq!(make_startup_script("", 255), "/255/.bashrc");
}

#[test]
fn shell_command_of_a_session() {
    let command = shell_command(3, "/home/k/../.terminals");
    assert_eq!(command.program, "bash");
    assert_eq!(
        command.args,
        vec!["--noprofile", "--rcfile", "/home/k/../.terminals/3/.bashrc", "-i"]
    );
    let env: Vec<(&str, &str)> =
        command.env.iter().map(|v| (v.name.as_str(), v.value.as_str())).collect();
    assert_eq!(env, vec![("TERMINAL_ID", "3"), ("TERM", "xterm-256color")]);
}

#[test]
fn shell_commands_tell_sessions_apart() {
    let one = shell_command(1, "root");
    let two = shell_command(2, "root");
    assert_eq!(one.env[0].value, "1");
    assert_eq!(two.env[0].value, "2");
    assert_eq!(one.args[2], "root/1/.bashrc");
    assert_eq!(two.args[2], "root/2/.bashrc");
    assert_eq!(shell_command(200, "root").env[0].value, "200");
}
