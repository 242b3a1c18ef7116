use vstd::prelude::*;

use crate::art::art_block_spec;
use crate::art::select_art;
use crate::art::Mode;
use crate::compose::compose_rows;
use crate::compose::compose_spec;
use crate::compose::lemma_compose_art_only;
use crate::facts::assemble_facts;
use crate::facts::fact_list_spec;
use crate::facts::fact_view;
use crate::facts::lemma_fact_list_len;
use crate::facts::pair_view;
use crate::facts::Unavailable;

verus! {

/// Every printed line of a full render: the mode's art block laid out
/// beside the resolved facts, festive decoration exactly when the mode
/// is the festive one.
pub open spec fn render_spec(
    mode: Mode,
    user_host: Option<(Seq<char>, Seq<char>)>,
    distro: Option<Seq<char>>,
    kernel: Option<Seq<char>>,
    shell: Option<Seq<char>>,
    uptime: Option<Seq<char>>,
    memory: Option<Seq<char>>,
) -> Seq<Seq<char>> {
    compose_spec(
        art_block_spec(mode),
        fact_list_spec(user_host, distro, kernel, shell, uptime, memory),
        mode is Christmas,
    )
}

/// A run where every fact query fails still renders: the output is
/// exactly the chosen art block, one art line per row, nothing appended.
pub proof fn lemma_render_all_unavailable(mode: Mode)
    ensures
        render_spec(mode, None, None, None, None, None, None) == art_block_spec(mode),
{
    assert(fact_list_spec(None, None, None, None, None, None) =~= Seq::<Seq<char>>::empty());
    lemma_compose_art_only(art_block_spec(mode), mode is Christmas);
}

/// A run where all six queries resolve shows seven fact lines (two for
/// the identity pair); if the art block has at least that many lines,
/// the output has exactly one row per art line.
pub proof fn lemma_full_run_row_count(
    mode: Mode,
    user_host: (Seq<char>, Seq<char>),
    distro: Seq<char>,
    kernel: Seq<char>,
    shell: Seq<char>,
    uptime: Seq<char>,
    memory: Seq<char>,
)
    requires
        art_block_spec(mode).len() >= 7,
    ensures
        render_spec(
            mode,
            Some(user_host),
            Some(distro),
            Some(kernel),
            Some(shell),
            Some(uptime),
            Some(memory),
        ).len() == art_block_spec(mode).len(),
{
    lemma_fact_list_len(
        Some(user_host),
        Some(distro),
        Some(kernel),
        Some(shell),
        Some(uptime),
        Some(memory),
    );
}

/// Render the banner for a mode from the six fact query outcomes; a
/// failed query never aborts the render, it only shortens the list.
pub fn render_banner(
    mode: Mode,
    user_host: Result<(String, String), Unavailable>,
    distro: Result<String, Unavailable>,
    kernel: Result<String, Unavailable>,
    shell: Result<String, Unavailable>,
    uptime: Result<String, Unavailable>,
    memory: Result<String, Unavailable>,
) -> (rows: Vec<String>)
    ensures
        rows.deep_view() == render_spec(
            mode,
            pair_view(user_host),
            fact_view(distro),
            fact_view(kernel),
            fact_view(shell),
            fact_view(uptime),
            fact_view(memory),
        ),
{
    let art = select_art(mode);
    let christmas = match mode {
        Mode::Christmas => true,
        _ => false,
    };
    let facts = assemble_facts(user_host, distro, kernel, shell, uptime, memory);
    compose_rows(&art, &facts, christmas)
}

} // verus!
