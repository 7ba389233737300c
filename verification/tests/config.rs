use hooked::config::{copy_texts, parse_args};

fn args(words: &[&str]) -> Vec<String> {
    words.iter().map(|w| w.to_string()).collect()
}

#[test]
fn parse_args_finds_the_path() {
    assert_eq!(parse_args(args(&["hooked", "--config", "conf.yml"])), Ok("conf.yml".to_owned()));
    assert_eq!(parse_args(args(&["--config", "a", "b"])), Ok("a".to_owned()));
}

#[test]
fn parse_args_without_the_flag() {
    assert_eq!(parse_args(args(&["hooked"])), Err("No config parameter provided"));
    assert_eq!(parse_args(args(&[])), Err("No config parameter provided"));
    assert_eq!(
        parse_args(args(&["hooked", "-config", "x", "y", "z"])),
        Err("No config parameter provided")
    );
}

#[test]
fn parse_args_without_a_path() {
    assert_eq!(parse_args(args(&["hooked", "--config"])), Err("Path not provided for --config"));
    assert_eq!(
        parse_args(args(&["a", "b", "c", "--config"])),
        Err("Path not provided for --config")
    );
}

#[test]
fn parse_args_with_too_many_arguments() {
    assert_eq!(
        parse_args(args(&["hooked", "--config", "conf.yml", "extra"])),
        Err("Too many arguments provided")
    );
}

#[test]
fn parse_args_takes_the_first_flag() {
    assert_eq!(parse_args(args(&["--config", "--config", "x"])), Ok("--config".to_owned()));
}

#[test]
fn copy_texts_keeps_every_text() {
    let v = args(&["a", "", "b c"]);
    assert_eq!(copy_texts(&v), v);
}
