//! The backend section of the configuration and the lenient rules by which
//! it is read out of a parsed tree.

use vstd::prelude::*;
use crate::tree::{Tree, TreeView};

verus! {

/// Connection parameters of the secrets backend.
#[derive(Debug, PartialEq, Eq)]
pub struct VaultConfig {
    /// Connection URLs, in the order of the configuration file.
    pub hosts: Vec<String>,
    /// The credential; empty where the file's value was not a string.
    pub token: String,
}

/// Model of a `VaultConfig`.
pub struct VaultConfigView {
    pub hosts: Seq<Seq<char>>,
    pub token: Seq<char>,
}

/// The characters of each string of a sequence.
pub open spec fn texts(strings: Seq<String>) -> Seq<Seq<char>> {
    strings.map_values(|s: String| s@)
}

impl View for VaultConfig {
    type V = VaultConfigView;

    open spec fn view(&self) -> VaultConfigView {
        VaultConfigView { hosts: texts(self.hosts@), token: self.token@ }
    }
}

impl VaultConfig {
    /// No host is the empty string.
    pub open spec fn wf(&self) -> bool {
        forall|i: int| 0 <= i < self.hosts@.len() ==> (#[trigger] self.hosts@[i])@.len() > 0
    }
}

/// The string that a value stands for: itself if it is a string, the empty
/// string otherwise.
pub open spec fn text_or_empty(value: TreeView) -> Seq<char> {
    match value {
        TreeView::Text(text) => text,
        _ => Seq::empty(),
    }
}

/// The hosts that an array of values names: each element that is a string,
/// in order, without the empty ones.
pub open spec fn hosts_among(items: Seq<TreeView>) -> Seq<Seq<char>> {
    items.map_values(|item: TreeView| text_or_empty(item)).filter(
        |text: Seq<char>| text.len() > 0,
    )
}

/// The hosts that the value under `hosts` names; a value that is not an
/// array names none.
pub open spec fn hosts_of(value: TreeView) -> Seq<Seq<char>> {
    match value {
        TreeView::List(items) => hosts_among(items),
        _ => Seq::empty(),
    }
}

/// The backend section that a tree describes: present exactly when the tree
/// has both a `hosts` and a `token` member.
pub open spec fn vault_of_section(section: TreeView) -> Option<VaultConfigView> {
    match (section.get("hosts"@), section.get("token"@)) {
        (Some(hosts), Some(token)) => Some(
            VaultConfigView { hosts: hosts_of(hosts), token: text_or_empty(token) },
        ),
        _ => None,
    }
}

/// Appending one value to an array appends its string to the hosts, unless
/// that string is empty.
pub proof fn lemma_hosts_among_push(items: Seq<TreeView>, item: TreeView)
    ensures
        hosts_among(items.push(item)) == if text_or_empty(item).len() > 0 {
            hosts_among(items).push(text_or_empty(item))
        } else {
            hosts_among(items)
        },
{
    let to_text = |item: TreeView| text_or_empty(item);
    let kept = |text: Seq<char>| text.len() > 0;
    assert(items.push(item).map_values(to_text) =~= items.map_values(to_text).push(
        text_or_empty(item),
    ));
    items.map_values(to_text).lemma_filter_push(text_or_empty(item), kept);
}

/// The string of a value, or the empty string where it is not a string.
fn text_of(value: &Tree) -> (text: String)
    ensures
        text@ == text_or_empty(value@),
{
    match value {
        Tree::Text(s) => s.clone(),
        _ => String::new(),
    }
}

/// The non-empty strings among the elements of an array value.
fn hosts_in(value: &Tree) -> (hosts: Vec<String>)
    ensures
        texts(hosts@) == hosts_of(value@),
        forall|i: int| 0 <= i < hosts@.len() ==> (#[trigger] hosts@[i])@.len() > 0,
{
    let mut hosts: Vec<String> = Vec::new();
    match value {
        Tree::List(items) => {
            let ghost model = value@->List_0;
            proof {
                assert(model.take(0) =~= Seq::<TreeView>::empty());
                assert(texts(hosts@) =~= hosts_among(model.take(0))) by {
                    reveal(Seq::filter);
                }
            }
            let mut i: usize = 0;
            while i < items.len()
                invariant
                    i <= items.len(),
                    value@ == TreeView::List(model),
                    model.len() == items.len(),
                    forall|j: int| 0 <= j < items.len() ==> #[trigger] model[j] == items[j]@,
                    texts(hosts@) == hosts_among(model.take(i as int)),
                    forall|j: int| 0 <= j < hosts@.len() ==> (#[trigger] hosts@[j])@.len() > 0,
                decreases items.len() - i,
            {
                let text = text_of(&items[i]);
                proof {
                    assert(model.take(i + 1) =~= model.take(i as int).push(model[i as int]));
                    lemma_hosts_among_push(model.take(i as int), model[i as int]);
                }
                if !text.as_str().is_empty() {
                    proof {
                        assert(texts(hosts@.push(text)) =~= texts(hosts@).push(text@));
                    }
                    hosts.push(text);
                }
                i += 1;
            }
            proof {
                assert(model.take(items.len() as int) =~= model);
            }
        },
        _ => {
            assert(texts(hosts@) =~= Seq::<Seq<char>>::empty());
        },
    }
    hosts
}

/// Reads the backend section out of its tree.
///
/// Absent where the `hosts` or the `token` member is missing. A member of the
/// wrong type is read leniently: `hosts` that is no array gives no host, an
/// array element or a `token` that is no string counts as the empty string,
/// and empty hosts are dropped.
pub fn parse_vault_config(section: &Tree) -> (vault: Option<VaultConfig>)
    ensures
        match vault {
            Some(found) => vault_of_section(section@) == Some(found@) && found.wf(),
            None => vault_of_section(section@) is None,
        },
{
    let hosts = match section.get("hosts") {
        Some(value) => hosts_in(value),
        None => {
            return None;
        },
    };
    let token = match section.get("token") {
        Some(value) => text_of(value),
        None => {
            return None;
        },
    };
    Some(VaultConfig { hosts, token })
}

/// The backend section of a document: what its `vault` member describes, if
/// it has one.
pub open spec fn vault_of_document(document: TreeView) -> Option<VaultConfigView> {
    match document.get("vault"@) {
        Some(section) => vault_of_section(section),
        None => None,
    }
}

/// Looks up the `vault` section of a parsed document and reads it. Absent
/// where the document has no such member, or where the member lacks `hosts`
/// or `token`.
pub fn extract_backend_section(document: &Tree) -> (vault: Option<VaultConfig>)
    ensures
        match vault {
            Some(found) => vault_of_document(document@) == Some(found@) && found.wf(),
            None => vault_of_document(document@) is None,
        },
{
    match document.get("vault") {
        Some(section) => parse_vault_config(section),
        None => None,
    }
}

} // verus!
