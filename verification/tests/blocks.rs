use freshfetch::art::Art;
use freshfetch::context::{Field, ScriptContext, Value};
use freshfetch::errors::FetchError;
use freshfetch::info::memory::Memory;
use freshfetch::info::record::Record;
use freshfetch::info::shell::Shell;
use freshfetch::info::uptime::Uptime;
use freshfetch::info::Info;
use freshfetch::inject::Inject;
use freshfetch::interpreter::Interpreter;
use freshfetch::layout::Layout;
use freshfetch::metrics::measure;
use freshfetch::misc::Terminal;
use freshfetch::panel::Panel;
use freshfetch::render::{Template, TemplateFile};

fn template(default_source: &str) -> Template {
    Template {
        path: "/home/u/.config/freshfetch/info.lua".to_string(),
        file: TemplateFile::Absent,
        default_source: default_source.to_string(),
    }
}

fn info(source: &str) -> Info {
    Info::new(
        vec!["function red(s) return \"\\27[31m\" .. s .. \"\\27[0m\" end".to_string()],
        template(source),
        Uptime { days: 1, hours: 2, minutes: 3, seconds: 4 },
        Shell { name: "zsh".to_string(), version: "5.9".to_string() },
        Memory::new(16777216, 8388608),
        vec![Record::new("kernel".to_string(), vec![Field::text("name", "Linux")])],
    )
}

const INFO: &str = "__freshfetch__ = red(kernel.name) .. \"\\n\" .. shell.name .. \" \" .. shell.version .. \"\\n\" .. uptime.days .. \"d \" .. memory.used";

#[test]
fn panel_keeps_text_and_dimensions_together() {
    let panel = Panel::new("ab\n\u{1b}[31mcde\u{1b}[0m\nf".to_string());
    assert_eq!(panel.text(), "ab\n\u{1b}[31mcde\u{1b}[0m\nf");
    assert_eq!(panel.width(), 3);
    assert_eq!(panel.height(), 3);
    let mut ctx = ScriptContext::new();
    panel.inject(&mut ctx, "a", "b", "c");
    assert_eq!(ctx.get("a"), Some(&Value::Text("ab\n\u{1b}[31mcde\u{1b}[0m\nf".to_string())));
    assert_eq!(ctx.get("b"), Some(&Value::Integer(3)));
    assert_eq!(ctx.get("c"), Some(&Value::Integer(3)));
}

#[test]
fn art_publishes_its_text_and_dimensions() {
    let art = Art::new(" /\\\n/__\\".to_string());
    assert_eq!(art.text(), " /\\\n/__\\");
    assert_eq!(art.width(), 4);
    assert_eq!(art.height(), 2);
    let mut ctx = ScriptContext::new();
    art.inject(&mut ctx);
    assert_eq!(ctx.get("art"), Some(&Value::Text(" /\\\n/__\\".to_string())));
    assert_eq!(ctx.get("artWidth"), Some(&Value::Integer(4)));
    assert_eq!(ctx.get("artHeight"), Some(&Value::Integer(2)));
}

#[test]
fn info_is_not_prepared_when_new() {
    let info = info(INFO);
    assert_eq!(info.rendered(), None);
    assert_eq!(info.width(), None);
    assert_eq!(info.height(), None);
    assert_eq!(info.ctx.len(), 0);
}

#[test]
fn info_prep_publishes_the_facts_and_renders() {
    let mut info = info(INFO);
    assert_eq!(info.prep(), Ok(()));
    assert_eq!(info.rendered(), Some("\u{1b}[31mLinux\u{1b}[0m\nzsh 5.9\n1d 8388608"));
    assert_eq!(info.width(), Some(10));
    assert_eq!(info.height(), Some(3));
    assert_eq!(info.ctx.len(), 4);
    assert_eq!(info.ctx.binding(0).name, "uptime");
    assert_eq!(info.ctx.binding(1).name, "shell");
    assert_eq!(info.ctx.binding(2).name, "memory");
    assert_eq!(info.ctx.binding(3).name, "kernel");
}

#[test]
fn info_width_and_height_are_those_of_the_published_text() {
    let mut info = info(INFO);
    info.prep().unwrap();
    let mut ctx = ScriptContext::new();
    info.inject(&mut ctx);
    let text = match ctx.get("info") {
        Some(Value::Text(text)) => text.clone(),
        other => panic!("{:?}", other),
    };
    let dimensions = measure(&text);
    assert_eq!(ctx.get("infoWidth"), Some(&Value::Integer(dimensions.width as i128)));
    assert_eq!(ctx.get("infoHeight"), Some(&Value::Integer(dimensions.height as i128)));
    assert_eq!(ctx.len(), 3);
}

#[test]
fn info_render_failure_keeps_what_was_rendered() {
    let mut info = info(INFO);
    info.prep().unwrap();
    info.template = template("x = 1");
    assert!(matches!(info.render(), Err(FetchError::OutputMissing { .. })));
    assert_eq!(info.rendered(), Some("\u{1b}[31mLinux\u{1b}[0m\nzsh 5.9\n1d 8388608"));
    info.template = template("__freshfetch__ = \"\"");
    assert_eq!(info.render(), Ok(()));
    assert_eq!(info.rendered(), Some(""));
    assert_eq!(info.width(), Some(0));
    assert_eq!(info.height(), Some(1));
}

#[test]
fn info_with_unreadable_template_fails_with_the_read_failure() {
    let mut info = info(INFO);
    info.template.file = TemplateFile::Unreadable { diagnostic: "busy".to_string() };
    assert_eq!(
        info.prep(),
        Err(FetchError::Read {
            path: "/home/u/.config/freshfetch/info.lua".to_string(),
            diagnostic: "busy".to_string()
        })
    );
    assert_eq!(info.rendered(), None);
    assert_eq!(info.ctx.len(), 4);
}

#[test]
fn layout_runs_the_whole_pass() {
    let mut layout =
        Layout::new(Art::new("##\n##".to_string()), info(INFO), Terminal::new(80, 24));
    let mut ctx = ScriptContext::new();
    let outer = template(
        "__freshfetch__ = art .. \"|\" .. artWidth .. \"x\" .. artHeight .. \"|\" .. infoWidth .. \"x\" .. infoHeight .. \"|\" .. terminal.width .. \"x\" .. terminal.height .. \"|\" .. #info",
    );
    assert_eq!(layout.run(&mut ctx, &outer), Ok("##\n##|2x2|10x3|80x24|33".to_string()));
    assert_eq!(ctx.len(), 7);
    assert_eq!(ctx.binding(0).name, "art");
    assert_eq!(ctx.binding(3).name, "terminal");
    assert_eq!(ctx.binding(4).name, "info");
}

#[test]
fn layout_publishes_nothing_when_preparing_fails() {
    let mut layout =
        Layout::new(Art::new("##".to_string()), info("error(\"no\")"), Terminal::new(80, 24));
    let mut ctx = ScriptContext::new();
    let outer = template("__freshfetch__ = \"never\"");
    assert!(matches!(layout.run(&mut ctx, &outer), Err(FetchError::Script { .. })));
    assert_eq!(ctx.len(), 0);
    assert_eq!(layout.prep().is_err(), true);
}

#[test]
fn layout_prep_and_inject_in_two_steps() {
    let mut layout =
        Layout::new(Art::new("##".to_string()), info(INFO), Terminal::new(100, 30));
    assert_eq!(layout.prep(), Ok(()));
    let mut ctx = ScriptContext::new();
    ctx.publish("info".to_string(), Value::Integer(0));
    layout.inject(&mut ctx);
    assert_eq!(
        ctx.get("info"),
        Some(&Value::Text("\u{1b}[31mLinux\u{1b}[0m\nzsh 5.9\n1d 8388608".to_string()))
    );
    assert_eq!(ctx.binding(0).name, "info");
    assert_eq!(ctx.len(), 7);
}

#[test]
fn info_prep_in_hands_the_facts_to_the_given_interpreter() {
    let mut interpreter = Interpreter::new();
    let mut info = info("__freshfetch__ = memory.max .. \",\" .. memory.used");
    assert_eq!(info.prep_in(&mut interpreter), Ok(()));
    assert_eq!(info.rendered(), Some("16777216,8388608"));
    assert_eq!(interpreter.execute("__freshfetch__ = kernel.name .. uptime.days"), Ok(()));
    assert_eq!(interpreter.output(), Ok("Linux1".to_string()));
    info.template = template("__freshfetch__ = shell.name");
    assert_eq!(info.render_in(&mut interpreter), Ok(()));
    assert_eq!(info.rendered(), Some("zsh"));
}

#[test]
fn layout_run_in_uses_the_two_interpreters_in_turn() {
    let mut inner = Interpreter::new();
    let mut outer = Interpreter::new();
    let mut layout =
        Layout::new(Art::new("##\n##".to_string()), info(INFO), Terminal::new(80, 24));
    let mut ctx = ScriptContext::new();
    let outer_template = template("__freshfetch__ = infoWidth .. \"x\" .. infoHeight .. tostring(memory)");
    assert_eq!(
        layout.run_in(&mut ctx, &outer_template, &mut inner, &mut outer),
        Ok("10x3nil".to_string())
    );
    assert_eq!(inner.output(), Ok("\u{1b}[31mLinux\u{1b}[0m\nzsh 5.9\n1d 8388608".to_string()));
    assert_eq!(inner.execute("__freshfetch__ = tostring(infoWidth) .. memory.max"), Ok(()));
    assert_eq!(inner.output(), Ok("nil16777216".to_string()));
    assert_eq!(outer.output(), Ok("10x3nil".to_string()));
}

#[test]
fn layout_run_in_asks_the_outer_interpreter_nothing_when_preparing_fails() {
    let mut inner = Interpreter::new();
    let mut outer = Interpreter::new();
    let mut layout =
        Layout::new(Art::new("##".to_string()), info("error(\"no\")"), Terminal::new(80, 24));
    let mut ctx = ScriptContext::with_preludes(vec!["__freshfetch__ = \"ran\"".to_string()]);
    let outer_template = template("__freshfetch__ = \"never\"");
    assert!(matches!(
        layout.run_in(&mut ctx, &outer_template, &mut inner, &mut outer),
        Err(FetchError::Script { .. })
    ));
    assert_eq!(ctx.len(), 0);
    assert_eq!(layout.info.ctx.len(), 4);
    assert!(matches!(outer.output(), Err(FetchError::OutputMissing { .. })));
}
