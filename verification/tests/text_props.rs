use treefetch::art::select_art;
use treefetch::art::Mode;
use treefetch::colors::blue;
use treefetch::colors::bold;
use treefetch::colors::bright_yellow;
use treefetch::colors::gray;
use treefetch::colors::green;
use treefetch::colors::red;
use treefetch::colors::reset;
use treefetch::colors::yellow;
use treefetch::decorate::decorate_fact;
use treefetch::text::split_by_newline;
use treefetch::text::str_eq;
use treefetch::text::trim_str;

#[test]
fn trim_removes_surrounding_whitespace() {
    assert_eq!(trim_str("  a tree  "), "a tree");
    assert_eq!(trim_str("\t x\r\n"), "x");
    assert_eq!(trim_str("\u{a0}\u{2009}x\u{3000}"), "x");
    assert_eq!(trim_str("plain"), "plain");
    assert_eq!(trim_str("   "), "");
    assert_eq!(trim_str(""), "");
}

#[test]
fn split_trims_each_line_and_drops_the_tail() {
    let lines = split_by_newline(String::from("  a \n b\nc"));
    assert_eq!(lines, vec![String::from("a"), String::from("b")]);
}

#[test]
fn split_keeps_empty_lines_between_separators() {
    let lines = split_by_newline(String::from("a\n\nb\n"));
    assert_eq!(lines, vec![String::from("a"), String::new(), String::from("b")]);
}

#[test]
fn split_of_empty_template_is_empty() {
    let lines = split_by_newline(String::new());
    assert!(lines.is_empty());
    let lines = split_by_newline(String::from("no separator at all"));
    assert!(lines.is_empty());
}

#[test]
fn split_then_join_then_split_is_stable() {
    for sample in [
        "  one \n  two  \n three\n   ",
        "\n\na\n",
        "x\n",
        "",
    ] {
        let first = split_by_newline(String::from(sample));
        let mut joined = String::new();
        for line in &first {
            joined.push_str(line);
            joined.push('\n');
        }
        let second = split_by_newline(joined);
        assert_eq!(second, first);
    }
}

#[test]
fn split_join_is_stable_on_every_template() {
    for mode in [Mode::Default, Mode::Bonsai, Mode::Christmas] {
        let first = select_art(mode);
        let mut joined = String::new();
        for line in &first {
            joined.push_str(line);
            joined.push('\n');
        }
        let second = split_by_newline(joined);
        assert_eq!(second, first);
    }
}

#[test]
fn str_eq_compares_by_characters() {
    assert!(str_eq("", ""));
    assert!(str_eq("--xmas", "--xmas"));
    assert!(!str_eq("--xmas", "-xmas"));
    assert!(!str_eq("a", "ab"));
}

#[test]
fn decorate_leaves_ornament_free_text_unchanged() {
    assert_eq!(decorate_fact("user@host"), "user@host");
    assert_eq!(decorate_fact(""), "");
}

#[test]
fn decorate_wraps_every_ornament_occurrence() {
    let wrapped = format!("{}\u{25aa}{}", red(), green());
    let got = decorate_fact("a\u{25aa}b\u{25aa}");
    let want = format!("a{}b{}", wrapped, wrapped);
    assert_eq!(got, want);
    let once = decorate_fact("\u{25aa}");
    assert_eq!(once, wrapped);
}

#[test]
fn art_selection_is_deterministic_per_mode() {
    for mode in [Mode::Default, Mode::Bonsai, Mode::Christmas] {
        let first = select_art(mode);
        let second = select_art(mode);
        assert_eq!(first, second);
        assert!(!first.is_empty());
    }
}

#[test]
fn default_art_block_lines() {
    let art = select_art(Mode::Default);
    assert_eq!(art.len(), 8);
    assert_eq!(art[0], format!("{}     /\\*\\       {}", green(), reset()));
    assert_eq!(art[1], format!("{}    /\\O\\*\\      {}", green(), reset()));
    assert_eq!(art[6], format!("{}      ||        {}", yellow(), reset()));
    assert_eq!(art[7], format!("{}      ||        {}", yellow(), reset()));
}

#[test]
fn bonsai_and_christmas_art_block_lines() {
    let bonsai = select_art(Mode::Bonsai);
    assert_eq!(bonsai.len(), 12);
    assert_eq!(
        bonsai[0],
        format!("{} {}             &               {}", green(), bold(), reset())
    );
    assert_eq!(bonsai[11], format!("{}          (_)     (_)            {}", gray(), reset()));
    let xmas = select_art(Mode::Christmas);
    assert_eq!(xmas.len(), 8);
    assert_eq!(
        xmas[0],
        format!("{}{}      \u{2605}         {}", bright_yellow(), bold(), reset())
    );
    assert_eq!(
        xmas[3],
        format!(
            "{g}   /{r}{b}o{g}/\\/\\{bl}{b}o{g}\\     {rs}",
            g = green(),
            r = red(),
            b = bold(),
            bl = blue(),
            rs = reset()
        )
    );
    assert_eq!(xmas[7], format!("{}      ||        {}", yellow(), reset()));
}
