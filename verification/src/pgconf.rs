use vstd::prelude::*;
use vstd::string::*;
use crate::config::{Config, Engine};
use crate::text::{
    chars_of, decimal, find, find_chars, hash_led, lemma_find, lemma_first_occurrence,
    lemma_no_occurrence_concat, lemma_too_long_no_occurrence, occurs_at, occurs_in, push_char,
    push_decimal, single_line,
};

verus! {

/// The line that opens the section of `postgresql.conf` this library manages.
pub const MANAGED_CONF_BEGIN: &'static str = "# --- postg managed settings begin ---";

/// The line that closes the managed section.
pub const MANAGED_CONF_END: &'static str = "# --- postg managed settings end ---";

pub open spec fn begin_marker() -> Seq<char> {
    MANAGED_CONF_BEGIN@
}

pub open spec fn end_marker() -> Seq<char> {
    MANAGED_CONF_END@
}

} // verus!

verus! {

proof fn lemma_marker_facts()
    ensures
        begin_marker().len() == 38,
        end_marker().len() == 36,
        hash_led(begin_marker()),
        hash_led(end_marker()),
        single_line(begin_marker()),
        single_line(end_marker()),
        !occurs_in(begin_marker(), end_marker()),
{
    reveal_strlit("# --- postg managed settings begin ---");
    reveal_strlit("# --- postg managed settings end ---");
    let b = begin_marker();
    let e = end_marker();
    assert(b[0] == '#' && e[0] == '#');
    assert(b[29] == 'b' && e[29] == 'e');
    assert forall|i: int| !occurs_at(b, e, i) by {
        if occurs_at(b, e, i) {
            assert(b.subrange(i, i + 36)[0] == b[i]);
            assert(b.subrange(i, i + 36)[29] == b[i + 29]);
        }
    }
}

} // verus!

verus! {

/// The managed section holding `settings`.
pub open spec fn managed_section(settings: Seq<char>) -> Seq<char> {
    begin_marker() + "\n"@ + settings + end_marker() + "\n"@
}

/// What follows a managed section that ends at `k`: the rest of the file,
/// without the line break that closed the end marker's line.
pub open spec fn rest_after(existing: Seq<char>, k: int) -> Seq<char> {
    let rest = existing.skip(k);
    if rest.len() > 0 && rest[0] == '\n' {
        rest.skip(1)
    } else {
        rest
    }
}

/// The new content of `postgresql.conf`: an existing managed section (from the
/// first begin marker to the end of the line of the first end marker) is
/// replaced by one holding `settings`; a file without a begin marker gets the
/// section appended after a blank line.
pub open spec fn rewrite_conf(existing: Seq<char>, settings: Seq<char>) -> Seq<char> {
    match find(existing, begin_marker()) {
        Some(b) => {
            let after = match find(existing, end_marker()) {
                Some(j) => rest_after(existing, j + end_marker().len()),
                None => Seq::empty(),
            };
            existing.take(b) + managed_section(settings) + after
        },
        None => existing + "\n"@ + managed_section(settings),
    }
}

/// Appends `v[from..to]` to `s`.
fn push_chars(s: &mut String, v: &Vec<char>, from: usize, to: usize)
    requires
        from <= to <= v.len(),
    ensures
        final(s)@ == old(s)@ + v@.subrange(from as int, to as int),
{
    let mut i = from;
    while i < to
        invariant
            from <= i <= to <= v.len(),
            s@ == old(s)@ + v@.subrange(from as int, i as int),
        decreases to - i,
    {
        push_char(s, v[i]);
        assert(v@.subrange(from as int, i + 1) =~= v@.subrange(from as int, i as int).push(v@[i as int]));
        i = i + 1;
    }
}

/// Rewrites the managed section of `postgresql.conf` (see `rewrite_conf`).
pub fn rewrite_managed_section(existing: &str, settings: &str) -> (r: String)
    ensures
        r@ == rewrite_conf(existing@, settings@),
{
    let e = chars_of(existing);
    let begin = chars_of(MANAGED_CONF_BEGIN);
    let end = chars_of(MANAGED_CONF_END);
    match find_chars(&e, &begin) {
        Some(b) => {
            proof {
                lemma_find(e@, begin@);
            }
            let mut r = String::new();
            push_chars(&mut r, &e, 0, b);
            r.append(MANAGED_CONF_BEGIN);
            r.append("\n");
            r.append(settings);
            r.append(MANAGED_CONF_END);
            r.append("\n");
            match find_chars(&e, &end) {
                Some(j) => {
                    proof {
                        lemma_find(e@, end@);
                    }
                    let k = j + end.len();
                    let from = if k < e.len() && e[k] == '\n' {
                        k + 1
                    } else {
                        k
                    };
                    push_chars(&mut r, &e, from, e.len());
                    assert(rest_after(e@, k as int) =~= e@.subrange(from as int, e.len() as int));
                },
                None => {},
            }
            assert(e@.take(b as int) =~= e@.subrange(0, b as int));
            r
        },
        None => {
            let mut r = String::from_str(existing);
            r.append("\n");
            r.append(MANAGED_CONF_BEGIN);
            r.append("\n");
            r.append(settings);
            r.append(MANAGED_CONF_END);
            r.append("\n");
            r
        },
    }
}

/// A file without a managed section gets one appended, after a line break.
pub proof fn lemma_rewrite_appends_section(existing: Seq<char>, settings: Seq<char>)
    requires
        !occurs_in(existing, begin_marker()),
    ensures
        rewrite_conf(existing, settings) == existing + "\n"@ + managed_section(settings),
{
    lemma_find(existing, begin_marker());
}

/// Rewriting a file laid out as `before`, a managed section and `after`
/// replaces the section's settings with the new ones and keeps `before` and
/// `after` as they were.
pub proof fn lemma_rewrite_replaces_section(
    before: Seq<char>,
    old_settings: Seq<char>,
    after: Seq<char>,
    settings: Seq<char>,
)
    requires
        !occurs_in(before, begin_marker()),
        !occurs_in(before, end_marker()),
        !occurs_in(old_settings, end_marker()),
    ensures
        rewrite_conf(before + managed_section(old_settings) + after, settings) == before
            + managed_section(settings) + after,
{
    lemma_marker_facts();
    let b = begin_marker();
    let e = end_marker();
    let nl = "\n"@;
    reveal_strlit("\n");
    let s = before + managed_section(old_settings) + after;
    let z1 = nl + old_settings + e + nl + after;
    assert(s =~= before + b + z1);
    lemma_first_occurrence(before, b, z1);
    lemma_too_long_no_occurrence(nl, e);
    lemma_no_occurrence_concat(before, b, e);
    lemma_no_occurrence_concat(before + b, nl, e);
    lemma_no_occurrence_concat(before + b + nl, old_settings, e);
    let x = before + b + nl + old_settings;
    let z2 = nl + after;
    assert(s =~= x + e + z2);
    lemma_first_occurrence(x, e, z2);
    assert(s.take(before.len() as int) =~= before);
    assert(s.skip((x.len() + e.len()) as int) =~= z2);
    assert(z2.skip(1) =~= after);
    assert(rewrite_conf(s, settings) =~= before + managed_section(settings) + after);
}

/// From a file without markers, a second rewrite leaves only the second
/// settings in the managed section, after the original content.
pub proof fn lemma_second_rewrite_keeps_latest(
    existing: Seq<char>,
    first: Seq<char>,
    second: Seq<char>,
)
    requires
        !occurs_in(existing, begin_marker()),
        !occurs_in(existing, end_marker()),
        !occurs_in(first, end_marker()),
    ensures
        rewrite_conf(rewrite_conf(existing, first), second) == rewrite_conf(existing, second),
{
    lemma_marker_facts();
    reveal_strlit("\n");
    let nl = "\n"@;
    lemma_rewrite_appends_section(existing, first);
    lemma_too_long_no_occurrence(nl, begin_marker());
    lemma_too_long_no_occurrence(nl, end_marker());
    lemma_no_occurrence_concat(existing, nl, begin_marker());
    lemma_no_occurrence_concat(existing, nl, end_marker());
    let before = existing + nl;
    assert(rewrite_conf(existing, first) =~= before + managed_section(first) + Seq::empty());
    lemma_rewrite_replaces_section(before, first, Seq::empty(), second);
    lemma_rewrite_appends_section(existing, second);
    assert(before + managed_section(second) + Seq::<char>::empty() =~= existing + nl
        + managed_section(second));
}

} // verus!

verus! {

/// Whether no end marker stands before the first begin marker of a file.
pub open spec fn no_stray_end_marker(existing: Seq<char>) -> bool {
    match find(existing, begin_marker()) {
        Some(b) => !occurs_in(existing.take(b), end_marker()),
        None => !occurs_in(existing, end_marker()),
    }
}

/// Rewriting is idempotent: rewriting a rewritten file with the same settings
/// gives the same file back, unless an end marker stands before the first
/// begin marker or the settings hold an end marker.
pub proof fn lemma_rewrite_idempotent(existing: Seq<char>, settings: Seq<char>)
    requires
        no_stray_end_marker(existing),
        !occurs_in(settings, end_marker()),
    ensures
        rewrite_conf(rewrite_conf(existing, settings), settings) == rewrite_conf(existing, settings),
{
    lemma_marker_facts();
    reveal_strlit("\n");
    let nl = "\n"@;
    lemma_find(existing, begin_marker());
    match find(existing, begin_marker()) {
        Some(b) => {
            let before = existing.take(b);
            assert forall|i: int| !occurs_at(before, begin_marker(), i) by {
                if occurs_at(before, begin_marker(), i) {
                    assert(before.subrange(i, i + 38) =~= existing.subrange(i, i + 38));
                    assert(occurs_at(existing, begin_marker(), i));
                }
            }
            let after = match find(existing, end_marker()) {
                Some(j) => rest_after(existing, j + end_marker().len()),
                None => Seq::empty(),
            };
            assert(rewrite_conf(existing, settings) == before + managed_section(settings) + after);
            lemma_rewrite_replaces_section(before, settings, after, settings);
        },
        None => {
            lemma_too_long_no_occurrence(nl, begin_marker());
            lemma_too_long_no_occurrence(nl, end_marker());
            lemma_no_occurrence_concat(existing, nl, begin_marker());
            lemma_no_occurrence_concat(existing, nl, end_marker());
            let before = existing + nl;
            assert(rewrite_conf(existing, settings) =~= before + managed_section(settings)
                + Seq::empty());
            lemma_rewrite_replaces_section(before, settings, Seq::empty(), settings);
            assert(before + managed_section(settings) + Seq::<char>::empty() =~= before
                + managed_section(settings));
        },
    }
}

} // verus!

verus! {

/// Settings every instance gets after its port and listen address.
pub const COMMON_SETTINGS: &'static str = "unix_socket_directories = ''\nwal_level = logical\n";

/// Replication settings of the Spock engine.
pub const SPOCK_SETTINGS: &'static str = "max_worker_processes = 10\nmax_replication_slots = 10\nmax_wal_senders = 10\nshared_preload_libraries = 'spock'\noutput_plugin_libraries = 'spock_output'\ntrack_commit_timestamp = on\nspock.conflict_resolution = 'last_update_wins'\nspock.enable_ddl_replication = on\nspock.include_ddl_repset = on\n";

/// Replication settings of the other engines.
pub const REPLICATION_SETTINGS: &'static str = "max_replication_slots = 4\nmax_wal_senders = 4\n";

/// The settings this library manages in `postgresql.conf` for a configuration.
pub open spec fn managed_settings_of(c: Config) -> Seq<char> {
    "port = "@ + decimal(c.port as nat) + "\n"@ + "listen_addresses = '"@ + c.host@ + "'\n"@
        + COMMON_SETTINGS@ + if c.engine == Engine::Spock {
        SPOCK_SETTINGS@
    } else {
        REPLICATION_SETTINGS@
    }
}

/// The settings this library manages in `postgresql.conf`.
pub fn managed_settings(config: &Config) -> (s: String)
    ensures
        s@ == managed_settings_of(*config),
{
    let mut s = String::from_str("port = ");
    push_decimal(&mut s, config.port as u64);
    s.append("\n");
    s.append("listen_addresses = '");
    s.append(config.host.as_str());
    s.append("'\n");
    s.append(COMMON_SETTINGS);
    if config.engine == Engine::Spock {
        s.append(SPOCK_SETTINGS);
    } else {
        s.append(REPLICATION_SETTINGS);
    }
    s
}

/// `s` holds no `'#'`.
pub open spec fn hash_free(s: Seq<char>) -> bool {
    forall|k: int| 0 <= k < s.len() ==> s[k] != '#'
}

proof fn lemma_hash_free_concat(a: Seq<char>, b: Seq<char>)
    requires
        hash_free(a),
        hash_free(b),
    ensures
        hash_free(a + b),
{
    assert forall|k: int| 0 <= k < (a + b).len() implies (a + b)[k] != '#' by {
        if k < a.len() {
        } else {
            assert((a + b)[k] == b[k - a.len()]);
        }
    }
}

proof fn lemma_decimal_hash_free(n: nat)
    ensures
        hash_free(decimal(n)),
    decreases n,
{
    if n >= 10 {
        lemma_decimal_hash_free(n / 10);
    }
}

/// A text without `'#'` holds neither marker.
proof fn lemma_hash_free_unmarked(s: Seq<char>)
    requires
        hash_free(s),
    ensures
        !occurs_in(s, begin_marker()),
        !occurs_in(s, end_marker()),
{
    lemma_marker_facts();
    assert forall|i: int| !occurs_at(s, begin_marker(), i) && !occurs_at(s, end_marker(), i) by {
        if occurs_at(s, begin_marker(), i) {
            assert(s.subrange(i, i + 38)[0] == s[i]);
        }
        if occurs_at(s, end_marker(), i) {
            assert(s.subrange(i, i + 36)[0] == s[i]);
        }
    }
}

/// The managed settings of a configuration whose host holds no `'#'` hold
/// neither marker.
pub proof fn lemma_settings_unmarked(c: Config)
    requires
        hash_free(c.host@),
    ensures
        !occurs_in(managed_settings_of(c), begin_marker()),
        !occurs_in(managed_settings_of(c), end_marker()),
{
    reveal_strlit("port = ");
    reveal_strlit("\n");
    reveal_strlit("listen_addresses = '");
    reveal_strlit("'\n");
    reveal_strlit("unix_socket_directories = ''\nwal_level = logical\n");
    reveal_strlit("max_worker_processes = 10\nmax_replication_slots = 10\nmax_wal_senders = 10\nshared_preload_libraries = 'spock'\noutput_plugin_libraries = 'spock_output'\ntrack_commit_timestamp = on\nspock.conflict_resolution = 'last_update_wins'\nspock.enable_ddl_replication = on\nspock.include_ddl_repset = on\n");
    reveal_strlit("max_replication_slots = 4\nmax_wal_senders = 4\n");
    assert(hash_free("port = "@));
    assert(hash_free("\n"@));
    assert(hash_free("listen_addresses = '"@));
    assert(hash_free("'\n"@));
    assert(hash_free(COMMON_SETTINGS@));
    assert(hash_free(SPOCK_SETTINGS@));
    assert(hash_free(REPLICATION_SETTINGS@));
    lemma_decimal_hash_free(c.port as nat);
    let a1 = "port = "@ + decimal(c.port as nat);
    lemma_hash_free_concat("port = "@, decimal(c.port as nat));
    lemma_hash_free_concat(a1, "\n"@);
    lemma_hash_free_concat(a1 + "\n"@, "listen_addresses = '"@);
    lemma_hash_free_concat(a1 + "\n"@ + "listen_addresses = '"@, c.host@);
    lemma_hash_free_concat(a1 + "\n"@ + "listen_addresses = '"@ + c.host@, "'\n"@);
    let a2 = a1 + "\n"@ + "listen_addresses = '"@ + c.host@ + "'\n"@;
    lemma_hash_free_concat(a2, COMMON_SETTINGS@);
    lemma_hash_free_concat(a2 + COMMON_SETTINGS@, SPOCK_SETTINGS@);
    lemma_hash_free_concat(a2 + COMMON_SETTINGS@, REPLICATION_SETTINGS@);
    lemma_hash_free_unmarked(managed_settings_of(c));
}

/// Starting twice from a configuration file without markers, with hosts that
/// hold no `'#'`: the file is then what the second start alone would have
/// written, its original content and one managed section with the second
/// start's settings; in particular, restarting with the same settings leaves
/// the file unchanged.
pub proof fn lemma_restart_keeps_latest_settings(existing: Seq<char>, first: Config, second: Config)
    requires
        !occurs_in(existing, begin_marker()),
        !occurs_in(existing, end_marker()),
        hash_free(first.host@),
    ensures
        rewrite_conf(rewrite_conf(existing, managed_settings_of(first)), managed_settings_of(second))
            == rewrite_conf(existing, managed_settings_of(second)),
        rewrite_conf(existing, managed_settings_of(second)) == existing + "\n"@ + managed_section(
            managed_settings_of(second),
        ),
{
    lemma_settings_unmarked(first);
    lemma_rewrite_appends_section(existing, managed_settings_of(second));
    lemma_second_rewrite_keeps_latest(
        existing,
        managed_settings_of(first),
        managed_settings_of(second),
    );
}

} // verus!

verus! {

/// Only the Spock engine gets the Spock settings: every other engine's
/// instance is configured with its port, its listen address, the common
/// settings and four replication slots and senders, and nothing else; two
/// configurations that differ only in which non-Spock engine they use get
/// the same settings.
pub proof fn lemma_managed_settings_by_engine(c: Config, d: Config)
    ensures
        c.engine != Engine::Spock ==> managed_settings_of(c) == "port = "@ + decimal(c.port as nat)
            + "\n"@ + "listen_addresses = '"@ + c.host@ + "'\n"@
            + "unix_socket_directories = ''\nwal_level = logical\n"@
            + "max_replication_slots = 4\nmax_wal_senders = 4\n"@,
        c.engine == Engine::Spock ==> managed_settings_of(c) == "port = "@ + decimal(c.port as nat)
            + "\n"@ + "listen_addresses = '"@ + c.host@ + "'\n"@
            + "unix_socket_directories = ''\nwal_level = logical\n"@
            + "max_worker_processes = 10\nmax_replication_slots = 10\nmax_wal_senders = 10\nshared_preload_libraries = 'spock'\noutput_plugin_libraries = 'spock_output'\ntrack_commit_timestamp = on\nspock.conflict_resolution = 'last_update_wins'\nspock.enable_ddl_replication = on\nspock.include_ddl_repset = on\n"@,
        c.engine != Engine::Spock && d.engine != Engine::Spock && c.port == d.port && c.host@
            == d.host@ ==> managed_settings_of(c) == managed_settings_of(d),
{
}

} // verus!
