use vstd::prelude::*;

verus! {

/// Failure signal of a fact query: the underlying OS value could not be
/// read. The query's line is omitted; the run itself never fails on it.
#[derive(Clone, Copy, PartialEq, Eq, Structural, Debug)]
pub struct Unavailable;

/// View of a single fact query's outcome.
pub open spec fn fact_view(r: Result<String, Unavailable>) -> Option<Seq<char>> {
    match r {
        Ok(s) => Some(s@),
        Err(_) => None,
    }
}

/// View of the identity query's outcome: user line and host line.
pub open spec fn pair_view(r: Result<(String, String), Unavailable>) -> Option<
    (Seq<char>, Seq<char>),
> {
    match r {
        Ok(p) => Some((p.0@, p.1@)),
        Err(_) => None,
    }
}

/// What one resolved fact contributes to the list: its line, or nothing.
pub open spec fn opt_entry(o: Option<Seq<char>>) -> Seq<Seq<char>> {
    match o {
        Some(v) => seq![v],
        None => seq![],
    }
}

/// What the identity query contributes: two adjacent lines, or nothing.
pub open spec fn pair_entries(o: Option<(Seq<char>, Seq<char>)>) -> Seq<Seq<char>> {
    match o {
        Some(p) => seq![p.0, p.1],
        None => seq![],
    }
}

/// The fact list: every successfully resolved fact, in query order
/// (identity, distro, kernel, shell, uptime, memory); a failed query
/// contributes no entry and leaves no gap.
pub open spec fn fact_list_spec(
    user_host: Option<(Seq<char>, Seq<char>)>,
    distro: Option<Seq<char>>,
    kernel: Option<Seq<char>>,
    shell: Option<Seq<char>>,
    uptime: Option<Seq<char>>,
    memory: Option<Seq<char>>,
) -> Seq<Seq<char>> {
    pair_entries(user_host) + opt_entry(distro) + opt_entry(kernel) + opt_entry(shell) + opt_entry(
        uptime,
    ) + opt_entry(memory)
}

/// The list is exactly as long as the number of resolved lines: two for
/// the identity pair, one for each other fact, none for a failure.
pub proof fn lemma_fact_list_len(
    user_host: Option<(Seq<char>, Seq<char>)>,
    distro: Option<Seq<char>>,
    kernel: Option<Seq<char>>,
    shell: Option<Seq<char>>,
    uptime: Option<Seq<char>>,
    memory: Option<Seq<char>>,
)
    ensures
        fact_list_spec(user_host, distro, kernel, shell, uptime, memory).len() == (if user_host
            is Some {
            2int
        } else {
            0int
        }) + (if distro is Some {
            1int
        } else {
            0int
        }) + (if kernel is Some {
            1int
        } else {
            0int
        }) + (if shell is Some {
            1int
        } else {
            0int
        }) + (if uptime is Some {
            1int
        } else {
            0int
        }) + (if memory is Some {
            1int
        } else {
            0int
        }),
{
}

/// A fact that resolves adds exactly its own line at its place in the
/// order; relative to a run where it signals `Unavailable` the list is
/// one entry longer (two for the identity pair), with no placeholder or
/// blank entry anywhere.
proof fn lemma_omit_user_host(
    p: (Seq<char>, Seq<char>),
    distro: Option<Seq<char>>,
    kernel: Option<Seq<char>>,
    shell: Option<Seq<char>>,
    uptime: Option<Seq<char>>,
    memory: Option<Seq<char>>,
)
    ensures
        fact_list_spec(Some(p), distro, kernel, shell, uptime, memory) == seq![p.0, p.1]
            + fact_list_spec(None, distro, kernel, shell, uptime, memory),
{
    assert(fact_list_spec(Some(p), distro, kernel, shell, uptime, memory) =~= seq![p.0, p.1]
        + fact_list_spec(None, distro, kernel, shell, uptime, memory));
}

proof fn lemma_omit_distro(
    user_host: Option<(Seq<char>, Seq<char>)>,
    v: Seq<char>,
    kernel: Option<Seq<char>>,
    shell: Option<Seq<char>>,
    uptime: Option<Seq<char>>,
    memory: Option<Seq<char>>,
)
    ensures
        fact_list_spec(user_host, Some(v), kernel, shell, uptime, memory) == fact_list_spec(
            user_host,
            None,
            kernel,
            shell,
            uptime,
            memory,
        ).insert(pair_entries(user_host).len() as int, v),
{
    assert(fact_list_spec(user_host, Some(v), kernel, shell, uptime, memory) =~= fact_list_spec(
        user_host,
        None,
        kernel,
        shell,
        uptime,
        memory,
    ).insert(pair_entries(user_host).len() as int, v));
}

proof fn lemma_omit_kernel(
    user_host: Option<(Seq<char>, Seq<char>)>,
    distro: Option<Seq<char>>,
    v: Seq<char>,
    shell: Option<Seq<char>>,
    uptime: Option<Seq<char>>,
    memory: Option<Seq<char>>,
)
    ensures
        fact_list_spec(user_host, distro, Some(v), shell, uptime, memory) == fact_list_spec(
            user_host,
            distro,
            None,
            shell,
            uptime,
            memory,
        ).insert(pair_entries(user_host).len() + opt_entry(distro).len() as int, v),
{
    assert(fact_list_spec(user_host, distro, Some(v), shell, uptime, memory) =~= fact_list_spec(
        user_host,
        distro,
        None,
        shell,
        uptime,
        memory,
    ).insert(pair_entries(user_host).len() + opt_entry(distro).len() as int, v));
}

proof fn lemma_omit_shell(
    user_host: Option<(Seq<char>, Seq<char>)>,
    distro: Option<Seq<char>>,
    kernel: Option<Seq<char>>,
    v: Seq<char>,
    uptime: Option<Seq<char>>,
    memory: Option<Seq<char>>,
)
    ensures
        fact_list_spec(user_host, distro, kernel, Some(v), uptime, memory) == fact_list_spec(
            user_host,
            distro,
            kernel,
            None,
            uptime,
            memory,
        ).insert(
            pair_entries(user_host).len() + opt_entry(distro).len() + opt_entry(kernel).len() as int,
            v,
        ),
{
    assert(fact_list_spec(user_host, distro, kernel, Some(v), uptime, memory) =~= fact_list_spec(
        user_host,
        distro,
        kernel,
        None,
        uptime,
        memory,
    ).insert(
        pair_entries(user_host).len() + opt_entry(distro).len() + opt_entry(kernel).len() as int,
        v,
    ));
}

proof fn lemma_omit_uptime(
    user_host: Option<(Seq<char>, Seq<char>)>,
    distro: Option<Seq<char>>,
    kernel: Option<Seq<char>>,
    shell: Option<Seq<char>>,
    v: Seq<char>,
    memory: Option<Seq<char>>,
)
    ensures
        fact_list_spec(user_host, distro, kernel, shell, Some(v), memory) == fact_list_spec(
            user_host,
            distro,
            kernel,
            shell,
            None,
            memory,
        ).insert(
            pair_entries(user_host).len() + opt_entry(distro).len() + opt_entry(kernel).len()
                + opt_entry(shell).len() as int,
            v,
        ),
{
    assert(fact_list_spec(user_host, distro, kernel, shell, Some(v), memory) =~= fact_list_spec(
        user_host,
        distro,
        kernel,
        shell,
        None,
        memory,
    ).insert(
        pair_entries(user_host).len() + opt_entry(distro).len() + opt_entry(kernel).len()
            + opt_entry(shell).len() as int,
        v,
    ));
}

proof fn lemma_omit_memory(
    user_host: Option<(Seq<char>, Seq<char>)>,
    distro: Option<Seq<char>>,
    kernel: Option<Seq<char>>,
    shell: Option<Seq<char>>,
    uptime: Option<Seq<char>>,
    v: Seq<char>,
)
    ensures
        fact_list_spec(user_host, distro, kernel, shell, uptime, Some(v)) == fact_list_spec(
            user_host,
            distro,
            kernel,
            shell,
            uptime,
            None,
        ).insert(
            pair_entries(user_host).len() + opt_entry(distro).len() + opt_entry(kernel).len()
                + opt_entry(shell).len() + opt_entry(uptime).len() as int,
            v,
        ),
{
    assert(fact_list_spec(user_host, distro, kernel, shell, uptime, Some(v)) =~= fact_list_spec(
        user_host,
        distro,
        kernel,
        shell,
        uptime,
        None,
    ).insert(
        pair_entries(user_host).len() + opt_entry(distro).len() + opt_entry(kernel).len()
            + opt_entry(shell).len() + opt_entry(uptime).len() as int,
        v,
    ));
}

pub proof fn lemma_unavailable_omits_entry(
    user_host: Option<(Seq<char>, Seq<char>)>,
    distro: Option<Seq<char>>,
    kernel: Option<Seq<char>>,
    shell: Option<Seq<char>>,
    uptime: Option<Seq<char>>,
    memory: Option<Seq<char>>,
)
    ensures
        user_host is Some ==> fact_list_spec(user_host, distro, kernel, shell, uptime, memory)
            == seq![(user_host->0).0, (user_host->0).1] + fact_list_spec(
            None,
            distro,
            kernel,
            shell,
            uptime,
            memory,
        ),
        distro is Some ==> fact_list_spec(user_host, distro, kernel, shell, uptime, memory)
            == fact_list_spec(user_host, None, kernel, shell, uptime, memory).insert(
            pair_entries(user_host).len() as int,
            distro->0,
        ),
        kernel is Some ==> fact_list_spec(user_host, distro, kernel, shell, uptime, memory)
            == fact_list_spec(user_host, distro, None, shell, uptime, memory).insert(
            pair_entries(user_host).len() + opt_entry(distro).len() as int,
            kernel->0,
        ),
        shell is Some ==> fact_list_spec(user_host, distro, kernel, shell, uptime, memory)
            == fact_list_spec(user_host, distro, kernel, None, uptime, memory).insert(
            pair_entries(user_host).len() + opt_entry(distro).len() + opt_entry(kernel).len() as int,
            shell->0,
        ),
        uptime is Some ==> fact_list_spec(user_host, distro, kernel, shell, uptime, memory)
            == fact_list_spec(user_host, distro, kernel, shell, None, memory).insert(
            pair_entries(user_host).len() + opt_entry(distro).len() + opt_entry(kernel).len()
                + opt_entry(shell).len() as int,
            uptime->0,
        ),
        memory is Some ==> fact_list_spec(user_host, distro, kernel, shell, uptime, memory)
            == fact_list_spec(user_host, distro, kernel, shell, uptime, None).insert(
            pair_entries(user_host).len() + opt_entry(distro).len() + opt_entry(kernel).len()
                + opt_entry(shell).len() + opt_entry(uptime).len() as int,
            memory->0,
        ),
{
    if user_host is Some {
        lemma_omit_user_host(user_host->0, distro, kernel, shell, uptime, memory);
    }
    if distro is Some {
        lemma_omit_distro(user_host, distro->0, kernel, shell, uptime, memory);
    }
    if kernel is Some {
        lemma_omit_kernel(user_host, distro, kernel->0, shell, uptime, memory);
    }
    if shell is Some {
        lemma_omit_shell(user_host, distro, kernel, shell->0, uptime, memory);
    }
    if uptime is Some {
        lemma_omit_uptime(user_host, distro, kernel, shell, uptime->0, memory);
    }
    if memory is Some {
        lemma_omit_memory(user_host, distro, kernel, shell, uptime, memory->0);
    }
}

/// Collect the resolved facts into the display list, in query order,
/// skipping every query that signalled `Unavailable`.
pub fn assemble_facts(
    user_host: Result<(String, String), Unavailable>,
    distro: Result<String, Unavailable>,
    kernel: Result<String, Unavailable>,
    shell: Result<String, Unavailable>,
    uptime: Result<String, Unavailable>,
    memory: Result<String, Unavailable>,
) -> (list: Vec<String>)
    ensures
        list.deep_view() == fact_list_spec(
            pair_view(user_host),
            fact_view(distro),
            fact_view(kernel),
            fact_view(shell),
            fact_view(uptime),
            fact_view(memory),
        ),
{
    let ghost target = fact_list_spec(
        pair_view(user_host),
        fact_view(distro),
        fact_view(kernel),
        fact_view(shell),
        fact_view(uptime),
        fact_view(memory),
    );
    let mut list: Vec<String> = Vec::new();
    if let Ok(pair) = user_host {
        list.push(pair.0);
        list.push(pair.1);
    }
    if let Ok(value) = distro {
        list.push(value);
    }
    if let Ok(value) = kernel {
        list.push(value);
    }
    if let Ok(value) = shell {
        list.push(value);
    }
    if let Ok(value) = uptime {
        list.push(value);
    }
    if let Ok(value) = memory {
        list.push(value);
    }
    proof {
        assert(list.deep_view() =~= target);
    }
    list
}

} // verus!
