use ferrflow::cli::{Cli, Commands, Operation};

fn cli(command: Commands, dry_run: bool, verbose: bool) -> Cli {
    Cli { dry_run, verbose, command }
}

#[test]
fn each_subcommand_takes_its_flags() {
    assert_eq!(cli(Commands::Check, true, true).run(), Operation::Check { verbose: true });
    assert_eq!(
        cli(Commands::Release, true, false).run(),
        Operation::Release { dry_run: true, verbose: false }
    );
    assert_eq!(
        cli(Commands::Changelog, true, true).run(),
        Operation::Changelog { dry_run: true }
    );
    assert_eq!(cli(Commands::Init, true, true).run(), Operation::Init);
}
