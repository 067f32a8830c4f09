//! Subscription bookkeeping: the profile index kept beside the downloaded
//! profiles, and the entries the interface lists.
use vstd::prelude::*;
use crate::models::{opt_string_view, Subscription};
use crate::text::{chars_of, concat_str, has_char, slice_chars, str_eq, string_from, string_of};
use crate::parser::{last_index, rfind_char_spec, skip};
use crate::sort::{entry_views, lemma_name_sorted_views, name_sorted, sort_by_name, view_sorted};

verus! {

/// A profile file known to the manager.
pub struct ProfileItem {
    pub id: String,
    pub name: String,
    pub url: Option<String>,
    pub file_path: String,
    pub is_active: bool,
    pub updated_at: Option<u64>,
    pub node_count: usize,
}

/// Index of subscriptions and the name of the active profile.
pub struct ProfileIndex {
    pub active_profile: Option<String>,
    pub subscriptions: Vec<Subscription>,
}

impl ProfileIndex {
    pub fn default() -> (r: ProfileIndex)
        ensures
            r.active_profile is None,
            r.subscriptions@.len() == 0,
    {
        ProfileIndex { active_profile: None, subscriptions: Vec::new() }
    }
}

/// A profile name made safe as a file name: `/`, `\`, space and `:` become `_`.
pub open spec fn safe_name(name: Seq<char>) -> Seq<char> {
    name.map_values(|c: char| if c == '/' || c == '\\' || c == ' ' || c == ':' { '_' } else { c })
}

pub fn sanitize_name(name: &str) -> (r: String)
    ensures
        r@ == safe_name(name@),
{
    let v = chars_of(name);
    let mut out: Vec<char> = Vec::new();
    let mut i: usize = 0;
    while i < v.len()
        invariant
            i <= v.len(),
            out@ == safe_name(v@.take(i as int)),
        decreases v.len() - i,
    {
        let c = v[i];
        if c == '/' || c == '\\' || c == ' ' || c == ':' {
            out.push('_');
        } else {
            out.push(c);
        }
        i += 1;
        assert(out@ =~= safe_name(v@.take(i as int)));
    }
    assert(v@.take(v@.len() as int) =~= v@);
    string_of(out.as_slice())
}

/// File name of a profile inside the profiles directory.
pub fn profile_file_name(name: &str) -> (r: String)
    ensures
        r@ == safe_name(name@) + ".yaml"@,
{
    let s = sanitize_name(name);
    crate::text::concat_str(s.as_str(), ".yaml")
}

pub struct ProfileItemView {
    pub id: Seq<char>,
    pub name: Seq<char>,
    pub url: Option<Seq<char>>,
    pub file_path: Seq<char>,
    pub is_active: bool,
    pub updated_at: Option<u64>,
    pub node_count: usize,
}

impl View for ProfileItem {
    type V = ProfileItemView;

    open spec fn view(&self) -> ProfileItemView {
        ProfileItemView {
            id: self.id@,
            name: self.name@,
            url: opt_string_view(self.url),
            file_path: self.file_path@,
            is_active: self.is_active,
            updated_at: self.updated_at,
            node_count: self.node_count,
        }
    }
}

/// A file found in the profiles directory: its name, its path, and the
/// number of nodes its content yields when parsed (0 when it does not parse).
pub struct ProfileFile {
    pub file_name: String,
    pub path: String,
    pub parsed_nodes: usize,
}

/// The name of a profile file without its `.yaml` extension, when it has that
/// extension (a leading dot alone is no extension).
pub open spec fn yaml_stem(f: Seq<char>) -> Option<Seq<char>> {
    if has_char(f, '.') && last_index(f, '.') > 0 && skip(f, last_index(f, '.') + 1) == "yaml"@ {
        Some(f.take(last_index(f, '.')))
    } else {
        None
    }
}

/// Index of the first subscription named, or with the id, `stem`.
pub open spec fn sub_index(subs: Seq<Subscription>, stem: Seq<char>) -> Option<int>
    decreases subs.len(),
{
    if subs.len() == 0 {
        None
    } else if subs[0].name@ == stem || subs[0].id@ == stem {
        Some(0)
    } else {
        match sub_index(subs.drop_first(), stem) {
            Some(i) => Some(i + 1),
            None => None,
        }
    }
}

/// The listed entry for a profile file named `stem`.
pub open spec fn listed_item(index: ProfileIndex, stem: Seq<char>, f: ProfileFile) -> ProfileItemView {
    let sub = sub_index(index.subscriptions@, stem);
    ProfileItemView {
        id: stem,
        name: stem,
        url: match sub {
            Some(i) => Some(index.subscriptions@[i].url@),
            None => None,
        },
        file_path: f.path@,
        is_active: opt_string_view(index.active_profile) == Some(stem),
        updated_at: match sub {
            Some(i) => Some(index.subscriptions@[i].updated_time),
            None => None,
        },
        node_count: match sub {
            Some(i) => index.subscriptions@[i].node_count,
            None => f.parsed_nodes,
        },
    }
}

/// The profile files listed, keyed by name, in directory order.
pub open spec fn listed_files(index: ProfileIndex, fs: Seq<ProfileFile>) -> Seq<(Seq<char>, ProfileItemView)>
    decreases fs.len(),
{
    if fs.len() == 0 {
        Seq::empty()
    } else {
        let rest = listed_files(index, fs.drop_last());
        match yaml_stem(fs.last().file_name@) {
            Some(stem) => rest.push((stem, listed_item(index, stem, fs.last()))),
            None => rest,
        }
    }
}

pub open spec fn keyed_views(s: Seq<(String, ProfileItem)>) -> Seq<(Seq<char>, ProfileItemView)> {
    s.map_values(|e: (String, ProfileItem)| (e.0@, e.1@))
}

pub open spec fn item_views(v: Seq<ProfileItem>) -> Seq<ProfileItemView> {
    v.map_values(|p: ProfileItem| p@)
}

fn stem_of(file_name: &str) -> (r: Option<String>)
    ensures
        match r {
            Some(x) => yaml_stem(file_name@) == Some(x@),
            None => yaml_stem(file_name@) is None,
        },
{
    let v = chars_of(file_name);
    match rfind_char_spec(v.as_slice(), '.') {
        Some(d) => {
            if d == 0 {
                return None;
            }
            let n = v.len();
            let ext = slice_chars(v.as_slice(), d + 1, n);
            let y = chars_of("yaml");
            if crate::text::chars_eq(ext.as_slice(), y.as_slice()) {
                let stem = slice_chars(v.as_slice(), 0, d);
                assert(stem@ =~= v@.take(d as int));
                Some(string_of(stem.as_slice()))
            } else {
                None
            }
        },
        None => None,
    }
}

fn find_sub(subs: &Vec<Subscription>, stem: &str) -> (r: Option<usize>)
    ensures
        match r {
            Some(i) => sub_index(subs@, stem@) == Some(i as int) && i < subs@.len(),
            None => sub_index(subs@, stem@) is None,
        },
{
    let mut i: usize = 0;
    while i < subs.len()
        invariant
            i <= subs.len(),
            forall|j: int| 0 <= j < i ==> subs@[j].name@ != stem@ && subs@[j].id@ != stem@,
        decreases subs.len() - i,
    {
        if str_eq(subs[i].name.as_str(), stem) || str_eq(subs[i].id.as_str(), stem) {
            proof {
                lemma_sub_index_at(subs@, stem@, i as int);
            }
            return Some(i);
        }
        i += 1;
    }
    proof {
        lemma_sub_index_at(subs@, stem@, i as int);
    }
    None
}

proof fn lemma_sub_index_at(subs: Seq<Subscription>, stem: Seq<char>, i: int)
    requires
        0 <= i <= subs.len(),
        forall|j: int| 0 <= j < i ==> subs[j].name@ != stem && subs[j].id@ != stem,
    ensures
        i < subs.len() && (subs[i].name@ == stem || subs[i].id@ == stem) ==> sub_index(subs, stem) == Some(i),
        i == subs.len() ==> sub_index(subs, stem) is None,
    decreases i,
{
    if i > 0 {
        assert forall|j: int| 0 <= j < i - 1 implies subs.drop_first()[j].name@ != stem && subs.drop_first()[j].id@ != stem by {
            assert(subs.drop_first()[j] == subs[j + 1]);
        }
        lemma_sub_index_at(subs.drop_first(), stem, i - 1);
    }
}

fn build_item(index: &ProfileIndex, stem: String, f: &ProfileFile) -> (r: ProfileItem)
    ensures
        r@ == listed_item(*index, stem@, *f),
{
    let sub = find_sub(&index.subscriptions, stem.as_str());
    let is_active = match &index.active_profile {
        Some(a) => str_eq(a.as_str(), stem.as_str()),
        None => false,
    };
    let (url, updated_at, node_count) = match sub {
        Some(i) => {
            let x = &index.subscriptions[i];
            (Some(x.url.clone()), Some(x.updated_time), x.node_count)
        },
        None => (None, None, f.parsed_nodes),
    };
    ProfileItem {
        id: stem.clone(),
        name: stem,
        url,
        file_path: f.path.clone(),
        is_active,
        updated_at,
        node_count,
    }
}

/// Position of the first subscription with a name.
pub open spec fn sub_named(subs: Seq<Subscription>, name: Seq<char>) -> Option<int>
    decreases subs.len(),
{
    if subs.len() == 0 {
        None
    } else if subs[0].name@ == name {
        Some(0)
    } else {
        match sub_named(subs.drop_first(), name) {
            Some(i) => Some(i + 1),
            None => None,
        }
    }
}

proof fn lemma_sub_named_at(subs: Seq<Subscription>, name: Seq<char>, i: int)
    requires
        0 <= i <= subs.len(),
        forall|j: int| 0 <= j < i ==> subs[j].name@ != name,
    ensures
        i < subs.len() && subs[i].name@ == name ==> sub_named(subs, name) == Some(i),
        i == subs.len() ==> sub_named(subs, name) is None,
    decreases i,
{
    if i > 0 {
        assert forall|j: int| 0 <= j < i - 1 implies subs.drop_first()[j].name@ != name by {
            assert(subs.drop_first()[j] == subs[j + 1]);
        }
        lemma_sub_named_at(subs.drop_first(), name, i - 1);
    }
}

fn find_sub_named(subs: &Vec<Subscription>, name: &str) -> (r: Option<usize>)
    ensures
        match r {
            Some(i) => sub_named(subs@, name@) == Some(i as int) && i < subs@.len(),
            None => sub_named(subs@, name@) is None,
        },
{
    let mut i: usize = 0;
    while i < subs.len()
        invariant
            i <= subs.len(),
            forall|j: int| 0 <= j < i ==> subs@[j].name@ != name@,
        decreases subs.len() - i,
    {
        if str_eq(subs[i].name.as_str(), name) {
            proof {
                lemma_sub_named_at(subs@, name@, i as int);
            }
            return Some(i);
        }
        i += 1;
    }
    proof {
        lemma_sub_named_at(subs@, name@, i as int);
    }
    None
}

/// A subscription as a record of text fields and numbers.
pub struct SubscriptionView {
    pub id: Seq<char>,
    pub name: Seq<char>,
    pub url: Seq<char>,
    pub file_path: Seq<char>,
    pub created_time: u64,
    pub updated_time: u64,
    pub node_count: usize,
}

impl View for Subscription {
    type V = SubscriptionView;

    open spec fn view(&self) -> SubscriptionView {
        SubscriptionView {
            id: self.id@,
            name: self.name@,
            url: self.url@,
            file_path: self.file_path@,
            created_time: self.created_time,
            updated_time: self.updated_time,
            node_count: self.node_count,
        }
    }
}

pub open spec fn subs_view(v: Seq<Subscription>) -> Seq<SubscriptionView> {
    v.map_values(|x: Subscription| x@)
}

/// The index after recording a downloaded subscription: an existing entry
/// with the name gets the new URL, time, file and node count; otherwise a new
/// entry (id made from the name) is appended; a missing active profile
/// becomes this one.
pub open spec fn recorded(
    subs: Seq<Subscription>,
    active: Option<Seq<char>>,
    name: Seq<char>,
    url: Seq<char>,
    file_path: Seq<char>,
    now: u64,
    nodes: usize,
) -> (Seq<SubscriptionView>, Option<Seq<char>>) {
    let v = subs_view(subs);
    let new_subs = match sub_named(subs, name) {
        Some(i) => v.update(
            i,
            SubscriptionView { url: url, updated_time: now, file_path: file_path, node_count: nodes, ..v[i] },
        ),
        None => v.push(
            SubscriptionView {
                id: safe_name(name),
                name: name,
                url: url,
                file_path: file_path,
                created_time: now,
                updated_time: now,
                node_count: nodes,
            },
        ),
    };
    (
        new_subs,
        match active {
            Some(a) => Some(a),
            None => Some(name),
        },
    )
}

/// Subscriptions whose name is not `name` and whose id is not `id`, in order.
pub open spec fn kept_subs(v: Seq<SubscriptionView>, name: Seq<char>, id: Seq<char>) -> Seq<SubscriptionView>
    decreases v.len(),
{
    if v.len() == 0 {
        v
    } else {
        let rest = kept_subs(v.drop_last(), name, id);
        if v.last().name != name && v.last().id != id {
            rest.push(v.last())
        } else {
            rest
        }
    }
}

/// The index after removing a profile: subscriptions with the name, or with
/// the id made from it, go; an active profile of that name gives way to the
/// first remaining subscription (or none).
pub open spec fn removed(subs: Seq<Subscription>, active: Option<Seq<char>>, name: Seq<char>) -> (
    Seq<SubscriptionView>,
    Option<Seq<char>>,
) {
    let kept = kept_subs(subs_view(subs), name, safe_name(name));
    (
        kept,
        if active == Some(name) {
            if kept.len() > 0 {
                Some(kept[0].name)
            } else {
                None
            }
        } else {
            active
        },
    )
}

/// Path operations and index bookkeeping of the profile store.
pub struct ProfileManager;

impl ProfileManager {
    /// The configuration directory under a home directory (`~/.config/mimo`).
    pub fn config_dir(home: &str) -> (r: String)
        ensures
            r@ == home@ + "/.config/mimo"@,
    {
        concat_str(home, "/.config/mimo")
    }

    /// The directory holding the profile files.
    pub fn profiles_dir(config_dir: &str) -> (r: String)
        ensures
            r@ == config_dir@ + "/profiles"@,
    {
        concat_str(config_dir, "/profiles")
    }

    /// The path of the profile index.
    pub fn index_file_path(config_dir: &str) -> (r: String)
        ensures
            r@ == config_dir@ + "/index.json"@,
    {
        concat_str(config_dir, "/index.json")
    }

    /// Makes `name` the active profile.
    pub fn set_active_profile(index: &mut ProfileIndex, name: &str)
        ensures
            final(index).active_profile matches Some(a) && a@ == name@,
            final(index).subscriptions == old(index).subscriptions,
    {
        index.active_profile = Some(string_from(name));
    }

    /// Lists the profile files (those ending in `.yaml`) with what the index
    /// knows of them, ordered by name.
    pub fn list_profiles(index: &ProfileIndex, files: &Vec<ProfileFile>) -> (r: Vec<ProfileItem>)
        ensures
            item_views(r@) == view_sorted(listed_files(*index, files@)).map_values(
                |e: (Seq<char>, ProfileItemView)| e.1,
            ),
    {
        let mut keyed: Vec<(String, ProfileItem)> = Vec::new();
        let mut i: usize = 0;
        while i < files.len()
            invariant
                i <= files.len(),
                keyed_views(keyed@) == listed_files(*index, files@.take(i as int)),
            decreases files.len() - i,
        {
            proof {
                assert(files@.take(i + 1).drop_last() =~= files@.take(i as int));
                assert(files@.take(i + 1).last() == files@[i as int]);
            }
            match stem_of(files[i].file_name.as_str()) {
                Some(stem) => {
                    let item = build_item(index, stem.clone(), &files[i]);
                    let ghost before = keyed@;
                    let ghost sv = stem@;
                    let ghost iv = item@;
                    keyed.push((stem, item));
                    proof {
                        assert(keyed_views(keyed@) =~= keyed_views(before).push((sv, iv)));
                    }
                },
                None => {},
            }
            i += 1;
        }
        proof {
            assert(files@.take(files@.len() as int) =~= files@);
        }
        let ghost pre = keyed@;
        let sorted = sort_by_name(keyed);
        proof {
            lemma_name_sorted_views(pre, |p: ProfileItem| p@);
            assert(entry_views(pre, |p: ProfileItem| p@) =~= keyed_views(pre));
            assert(entry_views(name_sorted(pre), |p: ProfileItem| p@) =~= keyed_views(name_sorted(pre)));
        }
        let mut r: Vec<ProfileItem> = Vec::new();
        let mut sorted = sorted;
        let ghost all = sorted@;
        let mut k: usize = 0;
        let n = sorted.len();
        while sorted.len() > 0
            invariant
                k + sorted@.len() == n,
                n == all.len(),
                sorted@ == all.subrange(k as int, n as int),
                item_views(r@) == keyed_views(all).take(k as int).map_values(
                    |e: (Seq<char>, ProfileItemView)| e.1,
                ),
            decreases sorted.len(),
        {
            let e = sorted.remove(0);
            let ghost before = r@;
            proof {
                assert(e == all[k as int]);
                assert(keyed_views(all)[k as int].1 == e.1@);
            }
            r.push(e.1);
            k += 1;
            proof {
                assert(sorted@ =~= all.subrange(k as int, n as int));
                assert(item_views(r@) =~= item_views(before).push(r@.last()@));
                assert(keyed_views(all).take(k as int).map_values(
                    |e: (Seq<char>, ProfileItemView)| e.1,
                ) =~= keyed_views(all).take(k - 1).map_values(
                    |e: (Seq<char>, ProfileItemView)| e.1,
                ).push(keyed_views(all)[k - 1].1));
            }
        }
        proof {
            assert(keyed_views(all).take(n as int) =~= keyed_views(all));
        }
        r
    }

    /// Records a downloaded subscription in the index (see `recorded`).
    pub fn record_download(
        index: &mut ProfileIndex,
        name: &str,
        url: &str,
        file_path: &str,
        now: u64,
        node_count: usize,
    )
        ensures
            (subs_view(final(index).subscriptions@), crate::models::opt_string_view(final(index).active_profile))
                == recorded(
                old(index).subscriptions@,
                crate::models::opt_string_view(old(index).active_profile),
                name@,
                url@,
                file_path@,
                now,
                node_count,
            ),
    {
        match find_sub_named(&index.subscriptions, name) {
            Some(i) => {
                let old_sub = index.subscriptions.remove(i);
                let updated = Subscription {
                    url: string_from(url),
                    updated_time: now,
                    file_path: string_from(file_path),
                    node_count,
                    ..old_sub
                };
                index.subscriptions.insert(i, updated);
                assert(subs_view(index.subscriptions@) =~= subs_view(old(index).subscriptions@).update(
                    i as int,
                    SubscriptionView {
                        url: url@,
                        updated_time: now,
                        file_path: file_path@,
                        node_count: node_count,
                        ..subs_view(old(index).subscriptions@)[i as int]
                    },
                ));
            },
            None => {
                let sub = Subscription {
                    id: sanitize_name(name),
                    name: string_from(name),
                    url: string_from(url),
                    file_path: string_from(file_path),
                    created_time: now,
                    updated_time: now,
                    node_count,
                };
                index.subscriptions.push(sub);
                assert(subs_view(index.subscriptions@) =~= subs_view(old(index).subscriptions@).push(
                    SubscriptionView {
                        id: safe_name(name@),
                        name: name@,
                        url: url@,
                        file_path: file_path@,
                        created_time: now,
                        updated_time: now,
                        node_count: node_count,
                    },
                ));
            },
        }
        if index.active_profile.is_none() {
            index.active_profile = Some(string_from(name));
        }
    }

    /// Removes a profile from the index (see `removed`).
    pub fn remove_profile(index: &mut ProfileIndex, name: &str)
        ensures
            (subs_view(final(index).subscriptions@), crate::models::opt_string_view(final(index).active_profile))
                == removed(
                old(index).subscriptions@,
                crate::models::opt_string_view(old(index).active_profile),
                name@,
            ),
    {
        let safe = sanitize_name(name);
        let mut kept: Vec<Subscription> = Vec::new();
        let mut rest: Vec<Subscription> = Vec::new();
        std::mem::swap(&mut rest, &mut index.subscriptions);
        let n0 = rest.len();
        let ghost all = rest@;
        let ghost n = all.len();
        let mut k: usize = 0;
        while rest.len() > 0
            invariant
                k + rest@.len() == n,
                n == all.len(),
                n <= usize::MAX,
                rest@ == all.subrange(k as int, n as int),
                subs_view(kept@) == kept_subs(subs_view(all.take(k as int)), name@, safe_name(name@)),
                safe@ == safe_name(name@),
            decreases rest.len(),
        {
            let x = rest.remove(0);
            proof {
                assert(all.take(k + 1).drop_last() =~= all.take(k as int));
                assert(all.take(k + 1).last() == x);
                assert(subs_view(all.take(k + 1)).drop_last() =~= subs_view(all.take(k as int)));
            }
            let keep = !str_eq(x.name.as_str(), name) && !str_eq(x.id.as_str(), safe.as_str());
            let ghost before = kept@;
            let ghost xv = x@;
            if keep {
                kept.push(x);
                assert(subs_view(kept@) =~= subs_view(before).push(xv));
            }
            k += 1;
            proof {
                assert(rest@ =~= all.subrange(k as int, n as int));
            }
        }
        proof {
            assert(all.take(n as int) =~= all);
        }
        index.subscriptions = kept;
        let is_active = match &index.active_profile {
            Some(a) => str_eq(a.as_str(), name),
            None => false,
        };
        if is_active {
            index.active_profile = if index.subscriptions.len() > 0 {
                Some(index.subscriptions[0].name.clone())
            } else {
                None
            };
        }
    }
}

proof fn lemma_sub_named(subs: Seq<Subscription>, name: Seq<char>)
    ensures
        sub_named(subs, name) matches Some(i) ==> 0 <= i < subs.len() && subs[i].name@ == name,
    decreases subs.len(),
{
    if subs.len() > 0 {
        lemma_sub_named(subs.drop_first(), name);
    }
}

proof fn lemma_kept_subs(v: Seq<SubscriptionView>, name: Seq<char>, id: Seq<char>)
    ensures
        forall|i: int| 0 <= i < kept_subs(v, name, id).len() ==> #[trigger] kept_subs(v, name, id)[i].name
            != name && kept_subs(v, name, id)[i].id != id,
    decreases v.len(),
{
    if v.len() > 0 {
        lemma_kept_subs(v.drop_last(), name, id);
        let rest = kept_subs(v.drop_last(), name, id);
        let k = kept_subs(v, name, id);
        assert forall|i: int| 0 <= i < k.len() implies #[trigger] k[i].name != name && k[i].id != id by {
            if i < rest.len() {
                assert(k[i] == rest[i]);
            }
        }
    }
}

/// After a download is recorded, the index holds an entry with the name that
/// carries the new URL, file, time and node count, and some profile is active.
pub proof fn lemma_recorded_has_entry(
    subs: Seq<Subscription>,
    active: Option<Seq<char>>,
    name: Seq<char>,
    url: Seq<char>,
    file_path: Seq<char>,
    now: u64,
    nodes: usize,
)
    ensures
        ({
            let (v, a) = recorded(subs, active, name, url, file_path, now, nodes);
            &&& a is Some
            &&& exists|i: int|
                0 <= i < v.len() && (#[trigger] v[i]).name == name && v[i].url == url && v[i].file_path
                    == file_path && v[i].updated_time == now && v[i].node_count == nodes
        }),
{
    lemma_sub_named(subs, name);
    let (v, a) = recorded(subs, active, name, url, file_path, now, nodes);
    match sub_named(subs, name) {
        Some(i) => {
            assert(v[i].name == name);
        },
        None => {
            assert(v[subs.len() as int].name == name);
        },
    }
}

/// After a profile is removed, no entry has its name (or the id made from
/// it), and it is not the active profile.
pub proof fn lemma_removed_is_gone(subs: Seq<Subscription>, active: Option<Seq<char>>, name: Seq<char>)
    ensures
        ({
            let (v, a) = removed(subs, active, name);
            &&& forall|i: int| 0 <= i < v.len() ==> (#[trigger] v[i]).name != name
            &&& a != Some(name)
        }),
{
    lemma_kept_subs(subs_view(subs), name, safe_name(name));
}

} // verus!
