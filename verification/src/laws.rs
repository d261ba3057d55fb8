//! What holds of configuration resolution as a whole, proved from the
//! definitions that the functions' contracts are stated over.

use vstd::prelude::*;
use crate::config::{
    config_of_document, config_of_text, default_config, outcome_view, resolved,
    resolved_from_text, Config, ConfigView,
};
use crate::document::document_of_text;
use crate::error::ConfigError;
use crate::level::{level_for_verbosity, LogLevel};
use crate::tree::TreeView;
use crate::vault::{hosts_among, text_or_empty, vault_of_section, VaultConfigView};

verus! {

/// The hosts read from an array are its string elements, in order, without
/// the empty ones: none of them is empty, a string is among them exactly when
/// it is a non-empty string element of the array, and an array of non-empty
/// strings is kept whole.
pub proof fn law_hosts_are_the_non_empty_strings(items: Seq<TreeView>)
    ensures
        forall|i: int|
            0 <= i < hosts_among(items).len() ==> (#[trigger] hosts_among(items)[i]).len() > 0,
        forall|host: Seq<char>| #[trigger]
            hosts_among(items).contains(host) <==> host.len() > 0 && items.contains(
                TreeView::Text(host),
            ),
        hosts_among(items).len() <= items.len(),
        (forall|j: int| 0 <= j < items.len() ==> text_or_empty(#[trigger] items[j]).len() > 0)
            ==> hosts_among(items) == items.map_values(|item: TreeView| text_or_empty(item)),
{
    broadcast use vstd::seq_lib::group_filter_ensures;

    let to_text = |item: TreeView| text_or_empty(item);
    let kept = |text: Seq<char>| text.len() > 0;
    let all = items.map_values(to_text);
    let hosts = all.filter(kept);
    assert(hosts == hosts_among(items));
    assert forall|i: int| 0 <= i < hosts.len() implies (#[trigger] hosts[i]).len() > 0 by {
        assert(kept(hosts[i]));
    }
    assert forall|host: Seq<char>| #[trigger]
        hosts.contains(host) <==> host.len() > 0 && items.contains(TreeView::Text(host)) by {
        if hosts.contains(host) {
            let i = choose|i: int| 0 <= i < hosts.len() && hosts[i] == host;
            assert(kept(hosts[i]));
            all.lemma_filter_contains_rev(kept, host);
            let j = choose|j: int| 0 <= j < all.len() && all[j] == host;
            assert(text_or_empty(items[j]) == host);
            assert(items[j] == TreeView::Text(host));
        }
        if host.len() > 0 && items.contains(TreeView::Text(host)) {
            let j = choose|j: int| 0 <= j < items.len() && items[j] == TreeView::Text(host);
            assert(all[j] == host);
            assert(kept(all[j]));
            assert(all.filter(kept).contains(all[j]));
        }
    }
    if forall|j: int| 0 <= j < items.len() ==> text_or_empty(#[trigger] items[j]).len() > 0 {
        assert forall|j: int| 0 <= j < all.len() implies kept(#[trigger] all[j]) by {
            assert(text_or_empty(items[j]).len() > 0);
        }
        lemma_filter_keeps_all(all, kept);
    }
}

/// A filter that every element passes leaves the sequence as it is.
proof fn lemma_filter_keeps_all<A>(s: Seq<A>, pred: spec_fn(A) -> bool)
    requires
        forall|i: int| 0 <= i < s.len() ==> pred(#[trigger] s[i]),
    ensures
        s.filter(pred) == s,
    decreases s.len(),
{
    reveal(Seq::filter);
    if s.len() > 0 {
        lemma_filter_keeps_all(s.drop_last(), pred);
        assert(s.drop_last().push(s.last()) =~= s);
    }
}

/// Configuration text whose `vault` section has an array under `hosts` and a
/// string under `token` resolves to a backend section with the array's
/// non-empty strings, in order, as hosts and that string as token.
pub proof fn law_hosts_and_token_are_extracted(
    text: Seq<char>,
    document: TreeView,
    section: TreeView,
    hosts: Seq<TreeView>,
    token: Seq<char>,
)
    requires
        document.get("vault"@) == Some(section),
        section.get("hosts"@) == Some(TreeView::List(hosts)),
        section.get("token"@) == Some(TreeView::Text(token)),
    ensures
        vault_of_section(section) == Some(
            VaultConfigView { hosts: hosts_among(hosts), token: token },
        ),
        config_of_document(document).vault == vault_of_section(section),
        document_of_text(text) == Ok::<TreeView, ConfigError>(document) ==> config_of_text(text)
            == Ok::<ConfigView, ConfigError>(
            ConfigView {
                vault: Some(VaultConfigView { hosts: hosts_among(hosts), token: token }),
                log_level: LogLevel::Warn,
            },
        ),
{
}

/// Configuration text whose `vault` section has no `hosts` member has no
/// backend section, whatever else the section holds.
pub proof fn law_missing_hosts_is_absent(text: Seq<char>, document: TreeView, section: TreeView)
    requires
        document.get("vault"@) == Some(section),
        section.get("hosts"@) is None,
    ensures
        vault_of_section(section) is None,
        config_of_document(document).vault is None,
        document_of_text(text) == Ok::<TreeView, ConfigError>(document) ==> config_of_text(text)
            == Ok::<ConfigView, ConfigError>(default_config()),
{
}

/// Configuration text whose `vault` section has no `token` member has no
/// backend section, whatever else the section holds.
pub proof fn law_missing_token_is_absent(text: Seq<char>, document: TreeView, section: TreeView)
    requires
        document.get("vault"@) == Some(section),
        section.get("token"@) is None,
    ensures
        vault_of_section(section) is None,
        config_of_document(document).vault is None,
        document_of_text(text) == Ok::<TreeView, ConfigError>(document) ==> config_of_text(text)
            == Ok::<ConfigView, ConfigError>(default_config()),
{
}

/// Configuration text without a `vault` section has no backend section.
pub proof fn law_missing_section_is_absent(text: Seq<char>, document: TreeView)
    requires
        document.get("vault"@) is None,
    ensures
        config_of_document(document) == default_config(),
        document_of_text(text) == Ok::<TreeView, ConfigError>(document) ==> config_of_text(text)
            == Ok::<ConfigView, ConfigError>(default_config()),
{
}

/// Parsing is repeatable: two outcomes of parsing the same text are equal,
/// field for field.
pub proof fn law_reparsing_gives_the_same_config(
    text: Seq<char>,
    first: Result<Config, ConfigError>,
    second: Result<Config, ConfigError>,
)
    requires
        outcome_view(first) == config_of_text(text),
        outcome_view(second) == config_of_text(text),
    ensures
        outcome_view(first) == outcome_view(second),
        first is Ok <==> second is Ok,
        first matches Ok(a) ==> second matches Ok(b) && a@ == b@,
{
}

/// The level grows with the number of debug flags and saturates: no flag is
/// `Warn`, three or more are `Trace`, and the rank is the count capped at 3.
pub proof fn law_level_is_monotone_and_saturates(fewer: nat, more: nat)
    requires
        fewer <= more,
    ensures
        level_for_verbosity(fewer).spec_rank() <= level_for_verbosity(more).spec_rank(),
        level_for_verbosity(0) == LogLevel::Warn,
        more >= 3 ==> level_for_verbosity(more) == LogLevel::Trace,
        level_for_verbosity(more).spec_rank() == if more < 3 {
            more
        } else {
            3
        },
{
}

/// Without a readable configuration file the resolution still succeeds: the
/// result has no backend section and the level that the command line asks
/// for.
pub proof fn law_unreadable_file_gives_defaults(occurrences: u64)
    ensures
        resolved_from_text(occurrences, None) == Ok::<ConfigView, ConfigError>(
            ConfigView { vault: None, log_level: level_for_verbosity(occurrences as nat) },
        ),
{
}

/// The command line always decides the log level: whatever the file holds,
/// a successful resolution has the level of the flag count, and the backend
/// section of the file alone.
pub proof fn law_command_line_decides_the_level(occurrences: u64, file: Option<Seq<char>>)
    ensures
        resolved_from_text(occurrences, file) matches Ok(config) ==> config.log_level
            == level_for_verbosity(occurrences as nat),
        file matches Some(text) ==> (match config_of_text(text) {
            Ok(parsed) => resolved_from_text(occurrences, file) == Ok::<ConfigView, ConfigError>(
                ConfigView {
                    vault: parsed.vault,
                    log_level: level_for_verbosity(occurrences as nat),
                },
            ),
            Err(error) => resolved_from_text(occurrences, file) == Err::<ConfigView, ConfigError>(
                error,
            ),
        }),
        forall|document: Option<TreeView>| #[trigger]
            resolved(occurrences, document).log_level == level_for_verbosity(occurrences as nat),
{
}

} // verus!
