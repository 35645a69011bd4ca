use file_syncer::build_git_ssh_command;
use file_syncer::escape_shell_arg;

#[test]
fn escape_shell_arg_escapes_special_chars() {
    let cases = vec![
        ("/home/user/.ssh/id_rsa", "/home/user/.ssh/id_rsa"),
        (
            "/home/user/my files/.ssh/id_rsa",
            "/home/user/my\\ files/.ssh/id_rsa",
        ),
        ("/home/user's/.ssh/id_rsa", "/home/user\\'s/.ssh/id_rsa"),
        ("/home/user/.ssh/key$file", "/home/user/.ssh/key\\$file"),
        (
            "/home/user name/.ssh/key file (1).pem",
            "/home/user\\ name/.ssh/key\\ file\\ \\(1\\).pem",
        ),
    ];

    for (input, expected) in cases {
        assert_eq!(escape_shell_arg(input), expected);
    }
}

#[test]
fn build_git_ssh_command_formats_correctly() {
    let cases = vec![
        (
            "/home/user/.ssh/id_rsa",
            "ssh -i /home/user/.ssh/id_rsa -o IdentitiesOnly=yes -o StrictHostKeyChecking=accept-new",
        ),
        (
            "/home/user/my files/.ssh/id_rsa",
            "ssh -i /home/user/my\\ files/.ssh/id_rsa -o IdentitiesOnly=yes -o StrictHostKeyChecking=accept-new",
        ),
        (
            "/home/user's key/.ssh/deploy (prod).pem",
            "ssh -i /home/user\\'s\\ key/.ssh/deploy\\ \\(prod\\).pem -o IdentitiesOnly=yes -o StrictHostKeyChecking=accept-new",
        ),
    ];

    for (input, expected) in cases {
        assert_eq!(build_git_ssh_command(input), expected);
    }
}

#[test]
fn escape_shell_arg_handles_every_listed_character() {
    let specials = " \t\n\r\"'`$\\|&;<>(){}[]!*?";
    for c in specials.chars() {
        let input = c.to_string();
        let escaped = escape_shell_arg(&input);
        assert_eq!(escaped, format!("\\{c}"));
    }
    assert_eq!(escape_shell_arg("plain-path_1.txt"), "plain-path_1.txt");
}
