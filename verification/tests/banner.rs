use treefetch::art::select_art;
use treefetch::art::Mode;
use treefetch::cli::help_lines;
use treefetch::cli::legacy_lines;
use treefetch::cli::parse_args;
use treefetch::cli::Invocation;
use treefetch::compose::compose_rows;
use treefetch::facts::assemble_facts;
use treefetch::facts::Unavailable;
use treefetch::render::render_banner;

fn strings(items: &[&str]) -> Vec<String> {
    items.iter().map(|s| String::from(*s)).collect()
}

#[test]
fn compose_row_count_is_the_longer_length() {
    let art = strings(&["a1", "a2", "a3"]);
    let facts = strings(&["f1", "f2", "f3", "f4", "f5"]);
    assert_eq!(compose_rows(&art, &facts, false).len(), 5);
    assert_eq!(compose_rows(&facts, &art, false).len(), 5);
    assert_eq!(compose_rows(&art, &art, false).len(), 3);
}

#[test]
fn compose_row_count_degenerate_cases() {
    let art = strings(&["a1", "a2"]);
    let none: Vec<String> = Vec::new();
    assert_eq!(compose_rows(&art, &none, false).len(), 2);
    assert_eq!(compose_rows(&none, &art, false).len(), 2);
    assert_eq!(compose_rows(&none, &none, false).len(), 0);
}

#[test]
fn compose_with_no_facts_is_exactly_the_art() {
    let art = strings(&["a1", "a2", "a3"]);
    let none: Vec<String> = Vec::new();
    assert_eq!(compose_rows(&art, &none, false), art);
    assert_eq!(compose_rows(&art, &none, true), art);
}

#[test]
fn compose_with_no_art_is_exactly_the_facts() {
    let facts = strings(&["f1", "f2"]);
    let none: Vec<String> = Vec::new();
    assert_eq!(compose_rows(&none, &facts, false), facts);
}

#[test]
fn compose_joins_art_and_fact_on_each_row() {
    let art = strings(&["A", "B", "C"]);
    let facts = strings(&["x", "y"]);
    let rows = compose_rows(&art, &facts, false);
    assert_eq!(rows, strings(&["Ax", "By", "C"]));
}

#[test]
fn compose_decorates_facts_only_in_festive_mode() {
    let art = strings(&["A"]);
    let facts = strings(&["\u{25aa} fact"]);
    let plain = compose_rows(&art, &facts, false);
    assert_eq!(plain, strings(&["A\u{25aa} fact"]));
    let festive = compose_rows(&art, &facts, true);
    assert_eq!(festive, strings(&["A\x1b[0;31m\u{25aa}\x1b[0;32m fact"]));
}

#[test]
fn assemble_keeps_successes_in_query_order() {
    let list = assemble_facts(
        Ok((String::from("user"), String::from("host"))),
        Ok(String::from("distro")),
        Ok(String::from("kernel")),
        Ok(String::from("shell")),
        Ok(String::from("uptime")),
        Ok(String::from("memory")),
    );
    assert_eq!(
        list,
        strings(&["user", "host", "distro", "kernel", "shell", "uptime", "memory"])
    );
}

#[test]
fn unavailable_fact_leaves_no_gap() {
    let with_shell = assemble_facts(
        Ok((String::from("user"), String::from("host"))),
        Err(Unavailable),
        Ok(String::from("kernel")),
        Ok(String::from("shell")),
        Err(Unavailable),
        Ok(String::from("memory")),
    );
    assert_eq!(with_shell, strings(&["user", "host", "kernel", "shell", "memory"]));
    let without_shell = assemble_facts(
        Ok((String::from("user"), String::from("host"))),
        Err(Unavailable),
        Ok(String::from("kernel")),
        Err(Unavailable),
        Err(Unavailable),
        Ok(String::from("memory")),
    );
    assert_eq!(without_shell, strings(&["user", "host", "kernel", "memory"]));
    assert_eq!(without_shell.len() + 1, with_shell.len());
}

#[test]
fn all_queries_unavailable_render_exactly_the_art() {
    for mode in [Mode::Default, Mode::Bonsai, Mode::Christmas] {
        let rows = render_banner(
            mode,
            Err(Unavailable),
            Err(Unavailable),
            Err(Unavailable),
            Err(Unavailable),
            Err(Unavailable),
            Err(Unavailable),
        );
        assert_eq!(rows, select_art(mode));
    }
}

#[test]
fn default_mode_with_all_facts_has_one_row_per_art_line() {
    let art = select_art(Mode::Default);
    assert!(art.len() >= 7);
    let rows = render_banner(
        Mode::Default,
        Ok((String::from("user"), String::from("host"))),
        Ok(String::from("distro")),
        Ok(String::from("kernel")),
        Ok(String::from("shell")),
        Ok(String::from("uptime")),
        Ok(String::from("memory")),
    );
    assert_eq!(rows.len(), art.len());
    let facts = ["user", "host", "distro", "kernel", "shell", "uptime", "memory"];
    for i in 0..7 {
        assert_eq!(rows[i], format!("{}{}", art[i], facts[i]));
    }
    for i in 7..art.len() {
        assert_eq!(rows[i], art[i]);
    }
}

#[test]
fn parse_selects_the_mode_from_the_first_argument() {
    assert_eq!(parse_args(&strings(&["treefetch"])), Invocation::Run(Mode::Default));
    assert_eq!(parse_args(&strings(&["treefetch", "--bonsai"])), Invocation::Run(Mode::Bonsai));
    assert_eq!(parse_args(&strings(&["treefetch", "-b"])), Invocation::Run(Mode::Bonsai));
    assert_eq!(parse_args(&strings(&["treefetch", "--xmas"])), Invocation::Run(Mode::Christmas));
    assert_eq!(parse_args(&strings(&["treefetch", "-x"])), Invocation::Run(Mode::Christmas));
    assert_eq!(parse_args(&strings(&["treefetch", "stray"])), Invocation::Run(Mode::Default));
}

#[test]
fn parse_help_wins_over_everything() {
    assert_eq!(parse_args(&strings(&["treefetch", "--help"])), Invocation::Help);
    assert_eq!(parse_args(&strings(&["treefetch", "-h"])), Invocation::Help);
    assert_eq!(parse_args(&strings(&["treefetch", "--bonsai", "-h"])), Invocation::Help);
    assert_eq!(parse_args(&strings(&["treefetch", "-xmas", "--help"])), Invocation::Help);
}

#[test]
fn parse_rejects_the_legacy_festive_spelling() {
    assert_eq!(parse_args(&strings(&["treefetch", "-xmas"])), Invocation::LegacyXmas);
    assert_eq!(parse_args(&strings(&["treefetch", "stray", "-xmas"])), Invocation::LegacyXmas);
    assert_eq!(
        parse_args(&strings(&["treefetch", "--bonsai", "-xmas"])),
        Invocation::LegacyXmas
    );
    assert_eq!(
        parse_args(&strings(&["treefetch", "-xmas", "--xmas"])),
        Invocation::LegacyXmas
    );
}

#[test]
fn legacy_notice_is_exactly_two_lines() {
    let lines = legacy_lines();
    assert_eq!(lines.len(), 2);
    assert_eq!(
        lines[0],
        "\x1b[0;32m\x1b[1mERROR:\x1b[0m \x1b[1m-xmas\x1b[0m has been replaced by \x1b[1m--xmas\x1b[0m."
    );
    assert_eq!(lines[1], "Run \x1b[1mtreefetch --xmas\x1b[0m instead.");
}

#[test]
fn help_text_lists_usage_and_the_mode_flags() {
    let lines = help_lines();
    assert_eq!(lines.len(), 7);
    assert_eq!(lines[0], "Usage:");
    assert_eq!(lines[3], "OPTIONS");
    assert!(lines[4].contains("--bonsai"));
    assert!(lines[5].contains("--xmas"));
    assert!(lines[6].contains("--help"));
}
