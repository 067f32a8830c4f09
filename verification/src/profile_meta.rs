//! The profile index of the configuration directory (`profiles/index.json`):
//! which profiles are known, where they came from, and which one is active.
use vstd::prelude::*;
use crate::models::opt_string_view;
use crate::parser::{last_index, rfind_char_spec, skip};
use crate::sort::{entry_views, lemma_name_sorted_views, name_sorted, sort_by_name, view_sorted};
use crate::text::{
    chars_eq, chars_of, concat_str, has_char, has_sub, slice_chars, str_contains, str_eq, string_from,
    string_of,
};

verus! {

/// A profile known to the index.
pub struct ProfileItem {
    pub name: String,
    pub url: Option<String>,
    pub file_path: String,
    pub updated_at: Option<u64>,
    pub is_active: bool,
}

pub struct ProfileItemView {
    pub name: Seq<char>,
    pub url: Option<Seq<char>>,
    pub file_path: Seq<char>,
    pub updated_at: Option<u64>,
    pub is_active: bool,
}

impl View for ProfileItem {
    type V = ProfileItemView;

    open spec fn view(&self) -> ProfileItemView {
        ProfileItemView {
            name: self.name@,
            url: opt_string_view(self.url),
            file_path: self.file_path@,
            updated_at: self.updated_at,
            is_active: self.is_active,
        }
    }
}

pub open spec fn meta_items_view(v: Seq<ProfileItem>) -> Seq<ProfileItemView> {
    v.map_values(|p: ProfileItem| p@)
}

/// The index: the active profile's name and the known profiles.
pub struct ProfileMeta {
    pub active_profile: Option<String>,
    pub profiles: Vec<ProfileItem>,
}

impl ProfileMeta {
    /// An empty index.
    pub fn default() -> (r: ProfileMeta)
        ensures
            r.active_profile is None,
            r.profiles@.len() == 0,
    {
        ProfileMeta { active_profile: None, profiles: Vec::new() }
    }
}

/// Whether downloaded text looks like a Clash/Mihomo profile: it mentions
/// `proxies`, `proxy-groups` or `rules`.
pub open spec fn looks_like_profile(content: Seq<char>) -> bool {
    has_sub(content, "proxies"@) || has_sub(content, "proxy-groups"@) || has_sub(content, "rules"@)
}

/// Position of the first known profile with a name.
pub open spec fn item_named(ps: Seq<ProfileItem>, name: Seq<char>) -> Option<int>
    decreases ps.len(),
{
    if ps.len() == 0 {
        None
    } else if ps[0].name@ == name {
        Some(0)
    } else {
        match item_named(ps.drop_first(), name) {
            Some(i) => Some(i + 1),
            None => None,
        }
    }
}

proof fn lemma_item_named_at(ps: Seq<ProfileItem>, name: Seq<char>, i: int)
    requires
        0 <= i <= ps.len(),
        forall|j: int| 0 <= j < i ==> ps[j].name@ != name,
    ensures
        i < ps.len() && ps[i].name@ == name ==> item_named(ps, name) == Some(i),
        i == ps.len() ==> item_named(ps, name) is None,
    decreases i,
{
    if i > 0 {
        assert forall|j: int| 0 <= j < i - 1 implies ps.drop_first()[j].name@ != name by {
            assert(ps.drop_first()[j] == ps[j + 1]);
        }
        lemma_item_named_at(ps.drop_first(), name, i - 1);
    }
}

fn find_item(ps: &Vec<ProfileItem>, name: &str) -> (r: Option<usize>)
    ensures
        match r {
            Some(i) => item_named(ps@, name@) == Some(i as int) && i < ps@.len(),
            None => item_named(ps@, name@) is None,
        },
{
    let mut i: usize = 0;
    while i < ps.len()
        invariant
            i <= ps.len(),
            forall|j: int| 0 <= j < i ==> ps@[j].name@ != name@,
        decreases ps.len() - i,
    {
        if str_eq(ps[i].name.as_str(), name) {
            proof {
                lemma_item_named_at(ps@, name@, i as int);
            }
            return Some(i);
        }
        i += 1;
    }
    proof {
        lemma_item_named_at(ps@, name@, i as int);
    }
    None
}

/// The known profiles after marking exactly those named `name` as active.
pub open spec fn marked_active(ps: Seq<ProfileItemView>, name: Seq<char>) -> Seq<ProfileItemView> {
    ps.map_values(|p: ProfileItemView| ProfileItemView { is_active: p.name == name, ..p })
}

/// The known profiles after recording a download: the entry with the name
/// gets the URL, file and time; otherwise a new, inactive entry is appended.
pub open spec fn meta_recorded(
    ps: Seq<ProfileItem>,
    name: Seq<char>,
    url: Seq<char>,
    file_path: Seq<char>,
    now: Option<u64>,
) -> Seq<ProfileItemView> {
    let v = meta_items_view(ps);
    match item_named(ps, name) {
        Some(i) => v.update(
            i,
            ProfileItemView { url: Some(url), file_path: file_path, updated_at: now, ..v[i] },
        ),
        None => v.push(
            ProfileItemView {
                name: name,
                url: Some(url),
                file_path: file_path,
                updated_at: now,
                is_active: false,
            },
        ),
    }
}

/// Known profiles not named `name`, in order.
pub open spec fn others(v: Seq<ProfileItemView>, name: Seq<char>) -> Seq<ProfileItemView>
    decreases v.len(),
{
    if v.len() == 0 {
        v
    } else {
        let rest = others(v.drop_last(), name);
        if v.last().name != name {
            rest.push(v.last())
        } else {
            rest
        }
    }
}

/// A file in the profiles directory: its name, its path, and when it was
/// last modified (seconds since the epoch), if known.
pub struct MetaFile {
    pub file_name: String,
    pub path: String,
    pub modified: Option<u64>,
}

/// The name of a profile file without its `.yaml` or `.yml` extension, when it
/// has one of them (a leading dot alone is no extension).
pub open spec fn profile_stem(f: Seq<char>) -> Option<Seq<char>> {
    if has_char(f, '.') && last_index(f, '.') > 0 && (skip(f, last_index(f, '.') + 1) == "yaml"@
        || skip(f, last_index(f, '.') + 1) == "yml"@) {
        Some(f.take(last_index(f, '.')))
    } else {
        None
    }
}

/// The entry listed for a profile file named `stem`.
pub open spec fn meta_listed_item(meta: ProfileMeta, stem: Seq<char>, f: MetaFile) -> ProfileItemView {
    ProfileItemView {
        name: stem,
        url: match item_named(meta.profiles@, stem) {
            Some(i) => opt_string_view(meta.profiles@[i].url),
            None => None,
        },
        file_path: f.path@,
        updated_at: f.modified,
        is_active: opt_string_view(meta.active_profile) == Some(stem),
    }
}

/// The profile files listed, keyed by name, in directory order.
pub open spec fn meta_listed(meta: ProfileMeta, fs: Seq<MetaFile>) -> Seq<(Seq<char>, ProfileItemView)>
    decreases fs.len(),
{
    if fs.len() == 0 {
        Seq::empty()
    } else {
        let rest = meta_listed(meta, fs.drop_last());
        match profile_stem(fs.last().file_name@) {
            Some(stem) => rest.push((stem, meta_listed_item(meta, stem, fs.last()))),
            None => rest,
        }
    }
}

pub open spec fn meta_keyed_views(s: Seq<(String, ProfileItem)>) -> Seq<(Seq<char>, ProfileItemView)> {
    s.map_values(|e: (String, ProfileItem)| (e.0@, e.1@))
}

fn profile_stem_of(file_name: &str) -> (r: Option<String>)
    ensures
        match r {
            Some(x) => profile_stem(file_name@) == Some(x@),
            None => profile_stem(file_name@) is None,
        },
{
    let v = chars_of(file_name);
    match rfind_char_spec(v.as_slice(), '.') {
        Some(d) => {
            if d == 0 {
                return None;
            }
            let n = v.len();
            let ext = slice_chars(v.as_slice(), d + 1, n);
            let y1 = chars_of("yaml");
            let y2 = chars_of("yml");
            if chars_eq(ext.as_slice(), y1.as_slice()) || chars_eq(ext.as_slice(), y2.as_slice()) {
                let stem = slice_chars(v.as_slice(), 0, d);
                assert(stem@ =~= v@.take(d as int));
                Some(string_of(stem.as_slice()))
            } else {
                None
            }
        },
        None => None,
    }
}

/// Path operations and index bookkeeping of the profile directory.
pub struct ProfileManager;

impl ProfileManager {
    /// The profiles directory inside the configuration directory.
    pub fn profiles_dir(config_dir: &str) -> (r: String)
        ensures
            r@ == config_dir@ + "/mimo/profiles"@,
    {
        concat_str(config_dir, "/mimo/profiles")
    }

    /// The path of the index inside the profiles directory.
    pub fn meta_file_path(profiles_dir: &str) -> (r: String)
        ensures
            r@ == profiles_dir@ + "/index.json"@,
    {
        concat_str(profiles_dir, "/index.json")
    }

    /// Whether downloaded text is accepted as a profile (see `looks_like_profile`).
    pub fn check_profile_content(content: &str) -> (r: Result<(), String>)
        ensures
            r is Ok <==> looks_like_profile(content@),
    {
        if str_contains(content, "proxies") || str_contains(content, "proxy-groups") || str_contains(
            content,
            "rules",
        ) {
            Ok(())
        } else {
            Err(
                string_from(
                    "Downloaded content does not appear to be a valid Clash/Mihomo YAML configuration.",
                ),
            )
        }
    }

    /// Makes `name` the active profile and marks exactly the entries with that
    /// name active.
    pub fn set_active_profile(meta: &mut ProfileMeta, name: &str)
        ensures
            opt_string_view(final(meta).active_profile) == Some(name@),
            meta_items_view(final(meta).profiles@) == marked_active(meta_items_view(old(meta).profiles@), name@),
    {
        meta.active_profile = Some(string_from(name));
        let mut out: Vec<ProfileItem> = Vec::new();
        let mut rest: Vec<ProfileItem> = Vec::new();
        std::mem::swap(&mut rest, &mut meta.profiles);
        let n0 = rest.len();
        let ghost all = rest@;
        let ghost n = all.len();
        let mut k: usize = 0;
        while rest.len() > 0
            invariant
                k + rest@.len() == n,
                n == all.len(),
                n <= usize::MAX,
                rest@ == all.subrange(k as int, n as int),
                meta_items_view(out@) == marked_active(meta_items_view(all.take(k as int)), name@),
            decreases rest.len(),
        {
            let p = rest.remove(0);
            let active = str_eq(p.name.as_str(), name);
            let ghost before = out@;
            let ghost pv = p@;
            proof {
                assert(p == all[k as int]);
            }
            out.push(ProfileItem { is_active: active, ..p });
            k += 1;
            proof {
                assert(rest@ =~= all.subrange(k as int, n as int));
                assert(meta_items_view(all.take(k as int)) =~= meta_items_view(all.take(k - 1)).push(pv));
                let nv = ProfileItemView { is_active: pv.name == name@, ..pv };
                assert(out@.last()@ == nv);
                assert(meta_items_view(out@) =~= meta_items_view(before).push(nv));
                assert(marked_active(meta_items_view(all.take(k as int)), name@) =~= marked_active(
                    meta_items_view(all.take(k - 1)),
                    name@,
                ).push(nv));
            }
        }
        proof {
            assert(all.take(n as int) =~= all);
        }
        meta.profiles = out;
    }

    /// Records a downloaded profile in the index (see `meta_recorded`).
    pub fn record_download(meta: &mut ProfileMeta, name: &str, url: &str, file_path: &str, now: Option<u64>)
        ensures
            meta_items_view(final(meta).profiles@) == meta_recorded(
                old(meta).profiles@,
                name@,
                url@,
                file_path@,
                now,
            ),
            final(meta).active_profile == old(meta).active_profile,
    {
        match find_item(&meta.profiles, name) {
            Some(i) => {
                let old_item = meta.profiles.remove(i);
                let item = ProfileItem {
                    url: Some(string_from(url)),
                    file_path: string_from(file_path),
                    updated_at: now,
                    ..old_item
                };
                meta.profiles.insert(i, item);
                assert(meta_items_view(meta.profiles@) =~= meta_recorded(
                    old(meta).profiles@,
                    name@,
                    url@,
                    file_path@,
                    now,
                ));
            },
            None => {
                meta.profiles.push(
                    ProfileItem {
                        name: string_from(name),
                        url: Some(string_from(url)),
                        file_path: string_from(file_path),
                        updated_at: now,
                        is_active: false,
                    },
                );
                assert(meta_items_view(meta.profiles@) =~= meta_recorded(
                    old(meta).profiles@,
                    name@,
                    url@,
                    file_path@,
                    now,
                ));
            },
        }
    }

    /// Removes a profile from the index; when it was the active one, no
    /// profile is active any more.
    pub fn delete_profile(meta: &mut ProfileMeta, name: &str)
        ensures
            meta_items_view(final(meta).profiles@) == others(meta_items_view(old(meta).profiles@), name@),
            opt_string_view(final(meta).active_profile) == if opt_string_view(old(meta).active_profile)
                == Some(name@) {
                None
            } else {
                opt_string_view(old(meta).active_profile)
            },
    {
        let mut out: Vec<ProfileItem> = Vec::new();
        let mut rest: Vec<ProfileItem> = Vec::new();
        std::mem::swap(&mut rest, &mut meta.profiles);
        let n0 = rest.len();
        let ghost all = rest@;
        let ghost n = all.len();
        let mut k: usize = 0;
        while rest.len() > 0
            invariant
                k + rest@.len() == n,
                n == all.len(),
                n <= usize::MAX,
                rest@ == all.subrange(k as int, n as int),
                meta_items_view(out@) == others(meta_items_view(all.take(k as int)), name@),
            decreases rest.len(),
        {
            let p = rest.remove(0);
            let keep = !str_eq(p.name.as_str(), name);
            let ghost before = out@;
            let ghost pv = p@;
            proof {
                assert(p == all[k as int]);
            }
            if keep {
                out.push(p);
                assert(meta_items_view(out@) =~= meta_items_view(before).push(pv));
            }
            k += 1;
            proof {
                assert(rest@ =~= all.subrange(k as int, n as int));
                assert(meta_items_view(all.take(k as int)).drop_last() =~= meta_items_view(all.take(k - 1)));
            }
        }
        proof {
            assert(all.take(n as int) =~= all);
        }
        meta.profiles = out;
        let was_active = match &meta.active_profile {
            Some(a) => str_eq(a.as_str(), name),
            None => false,
        };
        if was_active {
            meta.active_profile = None;
        }
    }

    /// Lists the profile files (`.yaml` or `.yml`) with the URL the index
    /// knows for them, ordered by name.
    pub fn list_profiles(meta: &ProfileMeta, files: &Vec<MetaFile>) -> (r: Vec<ProfileItem>)
        ensures
            meta_items_view(r@) == view_sorted(meta_listed(*meta, files@)).map_values(
                |e: (Seq<char>, ProfileItemView)| e.1,
            ),
    {
        let mut keyed: Vec<(String, ProfileItem)> = Vec::new();
        let mut i: usize = 0;
        while i < files.len()
            invariant
                i <= files.len(),
                meta_keyed_views(keyed@) == meta_listed(*meta, files@.take(i as int)),
            decreases files.len() - i,
        {
            proof {
                assert(files@.take(i + 1).drop_last() =~= files@.take(i as int));
                assert(files@.take(i + 1).last() == files@[i as int]);
            }
            match profile_stem_of(files[i].file_name.as_str()) {
                Some(stem) => {
                    let url = match find_item(&meta.profiles, stem.as_str()) {
                        Some(j) => crate::text::clone_opt(&meta.profiles[j].url),
                        None => None,
                    };
                    let is_active = match &meta.active_profile {
                        Some(a) => str_eq(a.as_str(), stem.as_str()),
                        None => false,
                    };
                    let item = ProfileItem {
                        name: stem.clone(),
                        url,
                        file_path: files[i].path.clone(),
                        updated_at: files[i].modified,
                        is_active,
                    };
                    let ghost before = keyed@;
                    let ghost sv = stem@;
                    let ghost iv = item@;
                    keyed.push((stem, item));
                    proof {
                        assert(meta_keyed_views(keyed@) =~= meta_keyed_views(before).push((sv, iv)));
                    }
                },
                None => {},
            }
            i += 1;
        }
        proof {
            assert(files@.take(files@.len() as int) =~= files@);
        }
        let ghost pre = keyed@;
        let mut sorted = sort_by_name(keyed);
        proof {
            lemma_name_sorted_views(pre, |p: ProfileItem| p@);
            assert(entry_views(pre, |p: ProfileItem| p@) =~= meta_keyed_views(pre));
            assert(entry_views(name_sorted(pre), |p: ProfileItem| p@) =~= meta_keyed_views(
                name_sorted(pre),
            ));
        }
        let mut r: Vec<ProfileItem> = Vec::new();
        let ghost all = sorted@;
        let mut k: usize = 0;
        let n = sorted.len();
        while sorted.len() > 0
            invariant
                k + sorted@.len() == n,
                n == all.len(),
                sorted@ == all.subrange(k as int, n as int),
                meta_items_view(r@) == meta_keyed_views(all).take(k as int).map_values(
                    |e: (Seq<char>, ProfileItemView)| e.1,
                ),
            decreases sorted.len(),
        {
            let e = sorted.remove(0);
            let ghost before = r@;
            proof {
                assert(e == all[k as int]);
                assert(meta_keyed_views(all)[k as int].1 == e.1@);
            }
            r.push(e.1);
            k += 1;
            proof {
                assert(sorted@ =~= all.subrange(k as int, n as int));
                assert(meta_items_view(r@) =~= meta_items_view(before).push(r@.last()@));
                assert(meta_keyed_views(all).take(k as int).map_values(
                    |e: (Seq<char>, ProfileItemView)| e.1,
                ) =~= meta_keyed_views(all).take(k - 1).map_values(
                    |e: (Seq<char>, ProfileItemView)| e.1,
                ).push(meta_keyed_views(all)[k - 1].1));
            }
        }
        proof {
            assert(meta_keyed_views(all).take(n as int) =~= meta_keyed_views(all));
        }
        r
    }
}

proof fn lemma_others(v: Seq<ProfileItemView>, name: Seq<char>)
    ensures
        forall|i: int| 0 <= i < others(v, name).len() ==> #[trigger] others(v, name)[i].name != name,
    decreases v.len(),
{
    if v.len() > 0 {
        lemma_others(v.drop_last(), name);
    }
}

/// After a profile is made active, an entry is marked active exactly when it
/// carries that name, and nothing else about the entries changes.
pub proof fn lemma_marked_active(v: Seq<ProfileItemView>, name: Seq<char>)
    ensures
        marked_active(v, name).len() == v.len(),
        forall|i: int|
            0 <= i < v.len() ==> (#[trigger] marked_active(v, name)[i]).is_active == (v[i].name == name)
                && marked_active(v, name)[i].name == v[i].name && marked_active(v, name)[i].url
                == v[i].url && marked_active(v, name)[i].file_path == v[i].file_path,
{
}

/// After a profile is deleted, no entry carries its name.
pub proof fn lemma_deleted_is_gone(v: Seq<ProfileItemView>, name: Seq<char>)
    ensures
        forall|i: int| 0 <= i < others(v, name).len() ==> (#[trigger] others(v, name)[i]).name != name,
{
    lemma_others(v, name);
}

} // verus!
