use chip8_desktop::launch::rom_path;

fn command_line(words: &[&str]) -> Vec<String> {
    words.iter().map(|word| word.to_string()).collect()
}

#[test]
fn one_argument_is_the_path() {
    let args = command_line(&["desktop", "roms/pong.ch8"]);
    assert_eq!(rom_path(&args), Some(&"roms/pong.ch8".to_string()));
}

#[test]
fn no_argument_gives_nothing_to_run() {
    let args = command_line(&["desktop"]);
    assert_eq!(rom_path(&args), None);
}

#[test]
fn two_or_more_arguments_give_nothing_to_run() {
    assert_eq!(rom_path(&command_line(&["desktop", "a.ch8", "b.ch8"])), None);
    assert_eq!(rom_path(&command_line(&["desktop", "a.ch8", "b.ch8", "c.ch8"])), None);
}

#[test]
fn an_empty_command_line_gives_nothing_to_run() {
    assert_eq!(rom_path(&command_line(&[])), None);
}
