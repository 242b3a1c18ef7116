use vstd::prelude::*;

use crate::text::split_by_newline;
use crate::text::split_lines_spec;

verus! {

/// Which art variant a run displays.
#[derive(Clone, Copy, PartialEq, Eq, Structural, Debug)]
pub enum Mode {
    Default,
    Bonsai,
    Christmas,
}

/// The raw template for a mode: a single block of colored text whose
/// only structural delimiter is the line separator; the indentation is
/// incidental and is trimmed away when the block is split.
pub open spec fn template_spec(mode: Mode) -> Seq<char> {
    match mode {
        Mode::Default => "\x1b[0;32m     /\\*\\       \x1b[0m
        \x1b[0;32m    /\\O\\*\\      \x1b[0m
        \x1b[0;32m   /*/\\/\\/\\     \x1b[0m
        \x1b[0;32m  /\\O\\/\\*\\/\\    \x1b[0m
        \x1b[0;32m /\\*\\/\\*\\/\\/\\   \x1b[0m
        \x1b[0;32m |O\\/\\/*/\\/O|   \x1b[0m
        \x1b[0;33m      ||        \x1b[0m
        \x1b[0;33m      ||        \x1b[0m
        "@,
        Mode::Bonsai => "\x1b[0;32m \x1b[1m             &               \x1b[0m
        \x1b[0;32m          && & &&             \x1b[0m
        \x1b[0;32m         &\x1b[0;33m_& & _/\x1b[0;32m&            \x1b[0m
        \x1b[0;33m\x1b[1m           /~\\                \x1b[0m
        \x1b[0;32m &  & &\x1b[0;33m     /|                \x1b[0m
        \x1b[0;32m & \x1b[0;33m\x1b[1m_&\x1b[0m\x1b[0;32m&\x1b[0;33m   _\\_/|   \x1b[0;32m             \x1b[0m
        \x1b[0;32m&& \x1b[0;33m\x1b[1m&\x1b[0m\x1b[0;32m&&\x1b[0;33m_/    |\\     \x1b[0;32m && &      \x1b[0m
        \x1b[0;32m  &&\x1b[0;33m_|/\x1b[0;32m\x1b[1m &\x1b[0m\x1b[0;33m  \\//~\\\x1b[0;32m\x1b[1m   &&\x1b[0m\x1b[0;33m &&\x1b[0;32m&  \x1b[0m
        \x1b[0;33m            |/\\__/\x1b[0;32m& &\x1b[0;33m_/_\x1b[0;32m&&  \x1b[0m
        \x1b[0;90m        :\x1b[0;32m____\x1b[0;33m./~\\.\x1b[0;32m____\x1b[0;90m:         \x1b[0m
        \x1b[0;90m         \\___________/         \x1b[0m
        \x1b[0;90m          (_)     (_)            \x1b[0m
        "@,
        Mode::Christmas => "\x1b[93m\x1b[1m      \u{2605}         \x1b[0m
        \x1b[0;32m     /\\\x1b[0;31m\x1b[1mo\x1b[0;32m\\       \x1b[0m
        \x1b[0;32m    /\\\x1b[0;31m\x1b[1mo\x1b[0;32m\\*\\      \x1b[0m
        \x1b[0;32m   /\x1b[0;31m\x1b[1mo\x1b[0;32m/\\/\\\x1b[0;34m\x1b[1mo\x1b[0;32m\\     \x1b[0m
        \x1b[0;32m  /\\O\\/\\\x1b[0;31m\x1b[1mo\x1b[0;32m\\/\x1b[0;31m\x1b[1mo\x1b[0;32m    \x1b[0m
        \x1b[0;32m /\x1b[0;34m\x1b[1mo\x1b[0;32m*\x1b[0;31m\x1b[1mo\x1b[0;32m/\x1b[0;34m\x1b[1mo\x1b[0;32m*\\/\x1b[0;31m\x1b[1mo\x1b[0;32m/\\   \x1b[0m
        \x1b[0;32m |O\\/\\/*/\x1b[0;31m\x1b[1mo\x1b[0;32m/O|   \x1b[0m
        \x1b[0;33m      ||        \x1b[0m
        "@,
    }
}

/// The chosen template's display lines, trimmed, in display order.
pub open spec fn art_block_spec(mode: Mode) -> Seq<Seq<char>> {
    split_lines_spec(template_spec(mode))
}

/// The raw template text for a mode.
pub fn template_text(mode: Mode) -> (r: &'static str)
    ensures
        r@ == template_spec(mode),
{
    match mode {
        Mode::Default => "\x1b[0;32m     /\\*\\       \x1b[0m
        \x1b[0;32m    /\\O\\*\\      \x1b[0m
        \x1b[0;32m   /*/\\/\\/\\     \x1b[0m
        \x1b[0;32m  /\\O\\/\\*\\/\\    \x1b[0m
        \x1b[0;32m /\\*\\/\\*\\/\\/\\   \x1b[0m
        \x1b[0;32m |O\\/\\/*/\\/O|   \x1b[0m
        \x1b[0;33m      ||        \x1b[0m
        \x1b[0;33m      ||        \x1b[0m
        ",
        Mode::Bonsai => "\x1b[0;32m \x1b[1m             &               \x1b[0m
        \x1b[0;32m          && & &&             \x1b[0m
        \x1b[0;32m         &\x1b[0;33m_& & _/\x1b[0;32m&            \x1b[0m
        \x1b[0;33m\x1b[1m           /~\\                \x1b[0m
        \x1b[0;32m &  & &\x1b[0;33m     /|                \x1b[0m
        \x1b[0;32m & \x1b[0;33m\x1b[1m_&\x1b[0m\x1b[0;32m&\x1b[0;33m   _\\_/|   \x1b[0;32m             \x1b[0m
        \x1b[0;32m&& \x1b[0;33m\x1b[1m&\x1b[0m\x1b[0;32m&&\x1b[0;33m_/    |\\     \x1b[0;32m && &      \x1b[0m
        \x1b[0;32m  &&\x1b[0;33m_|/\x1b[0;32m\x1b[1m &\x1b[0m\x1b[0;33m  \\//~\\\x1b[0;32m\x1b[1m   &&\x1b[0m\x1b[0;33m &&\x1b[0;32m&  \x1b[0m
        \x1b[0;33m            |/\\__/\x1b[0;32m& &\x1b[0;33m_/_\x1b[0;32m&&  \x1b[0m
        \x1b[0;90m        :\x1b[0;32m____\x1b[0;33m./~\\.\x1b[0;32m____\x1b[0;90m:         \x1b[0m
        \x1b[0;90m         \\___________/         \x1b[0m
        \x1b[0;90m          (_)     (_)            \x1b[0m
        ",
        Mode::Christmas => "\x1b[93m\x1b[1m      \u{2605}         \x1b[0m
        \x1b[0;32m     /\\\x1b[0;31m\x1b[1mo\x1b[0;32m\\       \x1b[0m
        \x1b[0;32m    /\\\x1b[0;31m\x1b[1mo\x1b[0;32m\\*\\      \x1b[0m
        \x1b[0;32m   /\x1b[0;31m\x1b[1mo\x1b[0;32m/\\/\\\x1b[0;34m\x1b[1mo\x1b[0;32m\\     \x1b[0m
        \x1b[0;32m  /\\O\\/\\\x1b[0;31m\x1b[1mo\x1b[0;32m\\/\x1b[0;31m\x1b[1mo\x1b[0;32m    \x1b[0m
        \x1b[0;32m /\x1b[0;34m\x1b[1mo\x1b[0;32m*\x1b[0;31m\x1b[1mo\x1b[0;32m/\x1b[0;34m\x1b[1mo\x1b[0;32m*\\/\x1b[0;31m\x1b[1mo\x1b[0;32m/\\   \x1b[0m
        \x1b[0;32m |O\\/\\/*/\x1b[0;31m\x1b[1mo\x1b[0;32m/O|   \x1b[0m
        \x1b[0;33m      ||        \x1b[0m
        ",
    }
}

/// Pure lookup and split: the art block for a mode is a function of the
/// mode alone, so its line count and content are the same on every call.
pub fn select_art(mode: Mode) -> (r: Vec<String>)
    ensures
        r.deep_view() == art_block_spec(mode),
{
    let template = template_text(mode);
    split_by_newline(template.to_owned())
}

} // verus!
