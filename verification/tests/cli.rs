use angle_gles_generator::{select_command, Command};

#[test]
fn generate_is_selected_by_name() {
    assert_eq!(select_command(false, Some("generate")), Command::Generate);
}

#[test]
fn generate_is_selected_by_its_short_name() {
    assert_eq!(select_command(false, Some("g")), Command::Generate);
}

#[test]
fn the_help_flag_wins_over_the_subcommand() {
    assert_eq!(select_command(true, Some("generate")), Command::Help);
    assert_eq!(select_command(true, Some("g")), Command::Help);
    assert_eq!(select_command(true, None), Command::Help);
}

#[test]
fn no_subcommand_prints_the_usage() {
    assert_eq!(select_command(false, None), Command::Help);
}

#[test]
fn an_unknown_subcommand_prints_the_usage() {
    for name in ["", "gen", "Generate", "GENERATE", "G", "generate ", "help", "gg"] {
        assert_eq!(select_command(false, Some(name)), Command::Help, "{:?}", name);
    }
}
