use freshfetch::context::{Field, ScriptContext, Value};
use freshfetch::errors::FetchError;
use freshfetch::info::memory::Memory;
use freshfetch::info::record::{copy_fields, Record};
use freshfetch::info::shell::{CommandOutput, Shell, ShellProbe, VersionCommand};
use freshfetch::info::uptime::Uptime;
use freshfetch::inject::Inject;
use freshfetch::misc::Terminal;

#[test]
fn memory_publishes_max_and_used() {
    let mut ctx = ScriptContext::new();
    let mut memory = Memory::new(16777216, 8388608);
    assert_eq!(memory.prep(), Ok(()));
    memory.inject(&mut ctx);
    assert_eq!(
        ctx.get("memory"),
        Some(&Value::Record(vec![
            Field::integer("max", 16777216),
            Field::integer("used", 8388608)
        ]))
    );
    memory.inject(&mut ctx);
    assert_eq!(ctx.len(), 1);
}

#[test]
fn memory_keeps_the_largest_values() {
    let mut ctx = ScriptContext::new();
    Memory::new(u64::MAX, 0).inject(&mut ctx);
    assert_eq!(
        ctx.get("memory"),
        Some(&Value::Record(vec![
            Field::integer("max", 18446744073709551615),
            Field::integer("used", 0)
        ]))
    );
}

#[test]
fn terminal_publishes_width_and_height() {
    let mut ctx = ScriptContext::new();
    Terminal::new(80, 24).inject(&mut ctx);
    assert_eq!(
        ctx.get("terminal"),
        Some(&Value::Record(vec![Field::integer("width", 80), Field::integer("height", 24)]))
    );
}

#[test]
fn uptime_reads_days_and_time_of_day() {
    let uptime = Uptime::new("Linux", 90061).unwrap();
    assert_eq!(uptime, Uptime { days: 1, hours: 1, minutes: 1, seconds: 1 });
    let uptime = Uptime::new("Windows", 364 * 86400 + 86399).unwrap();
    assert_eq!(uptime, Uptime { days: 364, hours: 23, minutes: 59, seconds: 59 });
}

#[test]
fn uptime_is_zero_where_it_is_not_measured() {
    assert!(Uptime::measured_on("MINIX"));
    assert!(!Uptime::measured_on("BSD"));
    let uptime = Uptime::new("BSD", 90061).unwrap();
    assert_eq!(uptime, Uptime { days: 0, hours: 0, minutes: 0, seconds: 0 });
    assert!(Uptime::new("Haiku", i64::MAX).is_some());
}

#[test]
fn uptime_of_a_year_and_more_counts_all_its_days() {
    let uptime = Uptime::new("Linux", 31536000).unwrap();
    assert_eq!(uptime, Uptime { days: 365, hours: 0, minutes: 0, seconds: 0 });
    let uptime = Uptime::new("Linux", 400 * 86400 + 3661).unwrap();
    assert_eq!(uptime, Uptime { days: 400, hours: 1, minutes: 1, seconds: 1 });
    let uptime = Uptime::new("Linux", 4294967295).unwrap();
    assert_eq!(uptime, Uptime { days: 49710, hours: 6, minutes: 28, seconds: 15 });
}

#[test]
fn uptime_below_zero_rounds_the_days_towards_the_past() {
    let uptime = Uptime::new("Linux", -3600).unwrap();
    assert_eq!(uptime, Uptime { days: -1, hours: 23, minutes: 0, seconds: 0 });
    let uptime = Uptime::new("Linux", -1).unwrap();
    assert_eq!(uptime, Uptime { days: -1, hours: 23, minutes: 59, seconds: 59 });
    assert_eq!(-86400 + 23 * 3600 + 59 * 60 + 59, -1);
}

#[test]
fn since_boot_is_now_less_boot_where_it_fits() {
    assert_eq!(Uptime::since_boot(1000, 91061), Some(90061));
    assert_eq!(Uptime::since_boot(5, 5), Some(0));
    assert_eq!(Uptime::since_boot(10, 4), Some(-6));
    assert_eq!(Uptime::since_boot(i64::MIN, 0), None);
    assert_eq!(Uptime::since_boot(1, i64::MIN), None);
    assert_eq!(Uptime::since_boot(0, i64::MAX), Some(i64::MAX));
}

#[test]
fn uptime_beyond_the_calendar_is_none() {
    assert_eq!(Uptime::new("Linux", i64::MAX), None);
    assert_eq!(Uptime::new("Linux", i64::MIN), None);
    assert!(Uptime::new("Linux", 4294967295).is_some());
}

#[test]
fn uptime_publishes_its_four_fields() {
    let mut ctx = ScriptContext::new();
    Uptime { days: 2, hours: 3, minutes: 4, seconds: 5 }.inject(&mut ctx);
    assert_eq!(
        ctx.get("uptime"),
        Some(&Value::Record(vec![
            Field::integer("days", 2),
            Field::integer("hours", 3),
            Field::integer("minutes", 4),
            Field::integer("seconds", 5)
        ]))
    );
}

#[test]
fn shell_is_looked_for_where_the_variable_must_be_set() {
    assert_eq!(Shell::new("Linux"), ShellProbe::Variable);
    assert_eq!(Shell::new("BSD"), ShellProbe::Variable);
    assert_eq!(Shell::new("Windows"), ShellProbe::Variable);
    assert_eq!(
        Shell::new("MINIX"),
        ShellProbe::Done { shell: Shell { name: String::new(), version: String::new() } }
    );
}

#[test]
fn shell_name_is_the_final_component() {
    assert_eq!(
        Shell::named(Ok("/usr/bin/fish".to_string())),
        Ok(ShellProbe::Done { shell: Shell { name: "fish".to_string(), version: String::new() } })
    );
    assert_eq!(
        Shell::named(Ok("/bin/zsh".to_string())),
        Ok(ShellProbe::Version {
            name: "zsh".to_string(),
            command: VersionCommand {
                program: "zsh".to_string(),
                arguments: vec!["-c".to_string(), "printf $ZSH_VERSION".to_string()]
            }
        })
    );
    assert_eq!(
        Shell::identified(Some("bash".to_string())),
        Ok(ShellProbe::Done { shell: Shell { name: "bash".to_string(), version: String::new() } })
    );
}

#[test]
fn shell_variable_that_is_unset_or_invalid_is_an_environment_failure() {
    assert_eq!(
        Shell::named(Err("environment variable not found".to_string())),
        Err(FetchError::Environment {
            variable: "SHELL".to_string(),
            diagnostic: "environment variable not found".to_string()
        })
    );
    let invalid = FetchError::Environment {
        variable: "SHELL".to_string(),
        diagnostic: "$SHELL is invalid!".to_string(),
    };
    assert_eq!(Shell::named(Ok("/usr/bin/..".to_string())), Err(invalid.clone()));
    assert_eq!(Shell::named(Ok(String::new())), Err(invalid.clone()));
    assert_eq!(Shell::identified(None), Err(invalid));
}

#[test]
fn shell_version_command_is_known_for_zsh_alone() {
    assert_eq!(
        Shell::version_command("zsh"),
        Some(VersionCommand {
            program: "zsh".to_string(),
            arguments: vec!["-c".to_string(), "printf $ZSH_VERSION".to_string()]
        })
    );
    assert_eq!(Shell::version_command("bash"), None);
}

#[test]
fn shell_version_is_what_the_command_printed() {
    assert_eq!(
        Shell::versioned(
            "zsh".to_string(),
            CommandOutput::Finished { success: true, stdout: b"5.9".to_vec() }
        ),
        Ok(Shell { name: "zsh".to_string(), version: "5.9".to_string() })
    );
}

#[test]
fn shell_version_command_failures() {
    let command = "zsh -c printf $ZSH_VERSION".to_string();
    assert_eq!(
        Shell::versioned(
            "zsh".to_string(),
            CommandOutput::Failed { diagnostic: "not found".to_string() }
        ),
        Err(FetchError::Command { command: command.clone(), diagnostic: "not found".to_string() })
    );
    assert_eq!(
        Shell::versioned(
            "zsh".to_string(),
            CommandOutput::Finished { success: false, stdout: b"5.9".to_vec() }
        ),
        Err(FetchError::Command {
            command: command.clone(),
            diagnostic: "The command did not succeed.".to_string()
        })
    );
    assert_eq!(
        Shell::versioned(
            "zsh".to_string(),
            CommandOutput::Finished { success: true, stdout: vec![0xff, 0xfe] }
        ),
        Err(FetchError::Command {
            command,
            diagnostic: "The output contained invalid UTF-8.".to_string()
        })
    );
}

#[test]
fn shell_publishes_name_and_version() {
    let mut ctx = ScriptContext::new();
    Shell { name: "zsh".to_string(), version: "5.9".to_string() }.inject(&mut ctx);
    assert_eq!(
        ctx.get("shell"),
        Some(&Value::Record(vec![Field::text("name", "zsh"), Field::text("version", "5.9")]))
    );
}

#[test]
fn record_publishes_its_fields_under_its_name() {
    let mut ctx = ScriptContext::new();
    let fields = vec![Field::text("name", "Linux"), Field::integer("bits", 64)];
    assert_eq!(copy_fields(&fields), fields);
    Record::new("kernel".to_string(), fields.clone()).inject(&mut ctx);
    assert_eq!(ctx.get("kernel"), Some(&Value::Record(fields)));
}

#[test]
fn shell_name_follows_the_path_and_nothing_else() {
    for (path, name) in [("/bin/bash", "bash"), ("fish", "fish"), ("/usr/local/bin/nu/", "nu")] {
        assert_eq!(
            Shell::named(Ok(path.to_string())),
            Ok(ShellProbe::Done { shell: Shell { name: name.to_string(), version: String::new() } })
        );
    }
    assert_eq!(Shell::named(Ok("/".to_string())), Shell::identified(None));
}
