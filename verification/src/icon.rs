//! Where a notification's icon comes from: the files to look for, in order, and the
//! themed icon name to fall back on.

use vstd::prelude::*;
use vstd::string::StrSliceExecFns;
use vstd::string::StringExecFns;
use crate::dbus::Notification;
use crate::table::Table;
use crate::config::opt_view;
use crate::text::{contains_char, has_prefix, split, split_on, starts_with, string_views, trim, trimmed};

verus! {

/// A file that may hold an icon: `file` alone, or `file` inside the directory `dir`.
#[derive(Debug, Clone, PartialEq, Eq)]
pub struct IconCandidate {
    pub dir: Option<String>,
    pub file: String,
}

/// A candidate file, with its strings taken as characters.
pub struct CandidateView {
    pub dir: Option<Seq<char>>,
    pub file: Seq<char>,
}

impl View for IconCandidate {
    type V = CandidateView;

    open spec fn view(&self) -> CandidateView {
        CandidateView { dir: opt_view(self.dir), file: self.file@ }
    }
}

/// The characters of each candidate.
pub open spec fn candidate_views(v: Seq<IconCandidate>) -> Seq<CandidateView> {
    v.map_values(|c: IconCandidate| c@)
}

/// The path that an icon name stands for, when it is written as a path: a `file://` URI
/// loses its scheme, a leading `~` becomes the home directory, and a name holding `/`
/// is taken as it is. Surrounding white space is ignored.
pub open spec fn resolved_icon_file(name: Seq<char>, home: Seq<char>) -> Option<Seq<char>> {
    let n = trimmed(name);
    if n.len() == 0 {
        None
    } else if has_prefix(n, "file://"@) {
        Some(n.skip("file://"@.len() as int))
    } else if n[0] == '~' {
        Some(home + n.skip(1))
    } else if n.contains('/') {
        Some(n)
    } else {
        None
    }
}

/// The path that the icon name `name` stands for, if it is written as a path; `home` is
/// the user's home directory. Whether a file is there is for the caller to find out.
pub fn resolve_icon_file(name: &str, home: &str) -> (r: Option<String>)
    ensures
        opt_view(r) == resolved_icon_file(name@, home@),
{
    let t = trim(name);
    let n = t.as_str();
    let len = n.unicode_len();
    if len == 0 {
        return None;
    }
    if starts_with(n, "file://") {
        let p = "file://".unicode_len();
        return Some(String::from_str(n.substring_char(p, len)));
    }
    if n.get_char(0) == '~' {
        let rest = n.substring_char(1, len);
        let mut path = String::from_str(home);
        path.append(rest);
        return Some(path);
    }
    if contains_char(n, '/') {
        return Some(t);
    }
    None
}

/// The non-empty pieces, trimmed, of a list of pieces.
pub open spec fn nonempty_trimmed(pieces: Seq<Seq<char>>) -> Seq<Seq<char>>
    decreases pieces.len(),
{
    if pieces.len() == 0 {
        Seq::empty()
    } else {
        let rest = nonempty_trimmed(pieces.drop_last());
        let t = trimmed(pieces.last());
        if t.len() > 0 {
            rest.push(t)
        } else {
            rest
        }
    }
}

/// The directories that an icon path names: its ':'-separated entries, trimmed, without
/// the empty ones.
pub open spec fn icon_dirs_of(icon_path: Seq<char>) -> Seq<Seq<char>> {
    nonempty_trimmed(split_on(icon_path, ':'))
}

/// The directories that `icon_path` names, in order.
pub fn icon_dirs(icon_path: &str) -> (r: Vec<String>)
    ensures
        string_views(r@) == icon_dirs_of(icon_path@),
{
    let pieces = split(icon_path, ':');
    let ghost pv = string_views(pieces@);
    let mut dirs: Vec<String> = Vec::new();
    let n = pieces.len();
    let mut i: usize = 0;
    assert(pv.take(0) =~= Seq::<Seq<char>>::empty());
    assert(string_views(dirs@) =~= Seq::<Seq<char>>::empty());
    while i < n
        invariant
            i <= n,
            n == pieces@.len(),
            pv == string_views(pieces@),
            string_views(dirs@) == nonempty_trimmed(pv.take(i as int)),
        decreases n - i,
    {
        let d = trim(pieces[i].as_str());
        assert(pv.take(i + 1).drop_last() =~= pv.take(i as int));
        assert(pv.take(i + 1).last() == pieces@[i as int]@);
        if d.unicode_len() > 0 {
            let ghost before = dirs@;
            dirs.push(d);
            assert(string_views(dirs@) =~= string_views(before).push(d@));
        }
        i = i + 1;
    }
    assert(pv.take(n as int) =~= pv);
    dirs
}

/// The endings tried, in order, on an icon name inside an icon directory.
pub open spec fn icon_suffixes() -> Seq<Seq<char>> {
    seq![".png"@, ".svg"@, ".svgz"@, ".xpm"@, ".ico"@]
}

/// The files tried for `name` inside one directory.
pub open spec fn dir_candidates(dir: Seq<char>, name: Seq<char>) -> Seq<CandidateView> {
    icon_suffixes().map_values(|s: Seq<char>| CandidateView { dir: Some(dir), file: name + s })
}

/// The files tried for `name` inside each of `dirs`, directory by directory.
pub open spec fn candidates_in(dirs: Seq<Seq<char>>, name: Seq<char>) -> Seq<CandidateView>
    decreases dirs.len(),
{
    if dirs.len() == 0 {
        Seq::empty()
    } else {
        candidates_in(dirs.drop_last(), name) + dir_candidates(dirs.last(), name)
    }
}

/// The files tried for `name` along an optional icon path.
pub open spec fn searched_candidates(icon_path: Option<Seq<char>>, name: Seq<char>) -> Seq<CandidateView> {
    match icon_path {
        Some(p) => candidates_in(icon_dirs_of(p), name),
        None => Seq::empty(),
    }
}

fn push_candidate(out: &mut Vec<IconCandidate>, dir: &String, name: &str, suffix: &str)
    ensures
        candidate_views(final(out)@) == candidate_views(old(out)@).push(
            CandidateView { dir: Some(dir@), file: name@ + suffix@ },
        ),
{
    let mut file = String::from_str(name);
    file.append(suffix);
    let ghost before = out@;
    out.push(IconCandidate { dir: Some(dir.clone()), file });
    assert(candidate_views(out@) =~= candidate_views(before).push(
        CandidateView { dir: Some(dir@), file: name@ + suffix@ },
    ));
}

/// The files to look for, in order, when searching the icon path for `name`: each
/// directory of the path in turn, and in each the name with each icon ending.
pub fn search_icon_path(icon_path: &Option<String>, name: &str) -> (r: Vec<IconCandidate>)
    ensures
        candidate_views(r@) == searched_candidates(opt_view(*icon_path), name@),
{
    let mut out: Vec<IconCandidate> = Vec::new();
    match icon_path {
        None => {
            assert(candidate_views(out@) =~= Seq::<CandidateView>::empty());
            out
        },
        Some(p) => {
            let dirs = icon_dirs(p.as_str());
            let ghost dv = string_views(dirs@);
            let n = dirs.len();
            let mut i: usize = 0;
            assert(candidate_views(out@) =~= candidates_in(dv.take(0), name@));
            while i < n
                invariant
                    i <= n,
                    n == dirs@.len(),
                    dv == string_views(dirs@),
                    dv == icon_dirs_of(p@),
                    candidate_views(out@) == candidates_in(dv.take(i as int), name@),
                decreases n - i,
            {
                let dir = &dirs[i];
                let ghost before = candidate_views(out@);
                push_candidate(&mut out, dir, name, ".png");
                push_candidate(&mut out, dir, name, ".svg");
                push_candidate(&mut out, dir, name, ".svgz");
                push_candidate(&mut out, dir, name, ".xpm");
                push_candidate(&mut out, dir, name, ".ico");
                assert(dv.take(i + 1).drop_last() =~= dv.take(i as int));
                assert(dv.take(i + 1).last() == dir@);
                assert(candidate_views(out@) =~= before + dir_candidates(dir@, name@));
                i = i + 1;
            }
            assert(dv.take(n as int) =~= dv);
            out
        },
    }
}


impl IconCandidate {
    /// A copy of this candidate.
    pub fn duplicate(&self) -> (r: IconCandidate)
        ensures
            r@ == self@,
    {
        let dir = match &self.dir {
            Some(d) => Some(d.clone()),
            None => None,
        };
        IconCandidate { dir, file: self.file.clone() }
    }
}

/// What a notification's icon is looked up as: the files to try, in order, and the
/// themed icon name to use when none of them exists.
#[derive(Debug, Clone, PartialEq, Eq)]
pub struct IconPlan {
    pub candidates: Vec<IconCandidate>,
    pub fallback: String,
}

/// A plan, with its strings taken as characters.
pub struct IconPlanView {
    pub candidates: Seq<CandidateView>,
    pub fallback: Seq<char>,
}

impl View for IconPlan {
    type V = IconPlanView;

    open spec fn view(&self) -> IconPlanView {
        IconPlanView { candidates: candidate_views(self.candidates@), fallback: self.fallback@ }
    }
}

/// A string hint, trimmed, when it is there and not blank.
pub open spec fn hint_text(hints: Map<Seq<char>, Seq<char>>, key: Seq<char>) -> Option<Seq<char>> {
    if hints.contains_key(key) && trimmed(hints[key]).len() > 0 {
        Some(trimmed(hints[key]))
    } else {
        None
    }
}

/// The icon a notification names: its "image-path" hint, else its own icon field,
/// trimmed and when not blank.
pub open spec fn icon_id_of(hints: Map<Seq<char>, Seq<char>>, app_icon: Seq<char>) -> Option<Seq<char>> {
    match hint_text(hints, "image-path"@) {
        Some(t) => Some(t),
        None => if trimmed(app_icon).len() > 0 {
            Some(trimmed(app_icon))
        } else {
            None
        },
    }
}

/// How the icon of a notification is looked up. A named icon is first taken as a path,
/// then searched on the icon path, then used as a themed name. Without one, the
/// "desktop-entry" hint is searched and used as a themed name; without that, the
/// application's name; without that, the generic information icon is shown.
pub open spec fn icon_plan_of(
    app_name: Seq<char>,
    app_icon: Seq<char>,
    hints: Map<Seq<char>, Seq<char>>,
    icon_path: Option<Seq<char>>,
    home: Seq<char>,
) -> IconPlanView {
    match icon_id_of(hints, app_icon) {
        Some(id) => IconPlanView {
            candidates: match resolved_icon_file(id, home) {
                Some(p) => seq![CandidateView { dir: None, file: p }],
                None => Seq::empty(),
            } + searched_candidates(icon_path, id),
            fallback: id,
        },
        None => match hint_text(hints, "desktop-entry"@) {
            Some(d) => IconPlanView { candidates: searched_candidates(icon_path, d), fallback: d },
            None => if app_name.len() > 0 {
                IconPlanView { candidates: searched_candidates(icon_path, app_name), fallback: app_name }
            } else {
                IconPlanView { candidates: Seq::empty(), fallback: "dialog-information"@ }
            },
        },
    }
}

fn hint_string(hints: &Table<String>, key: &str) -> (r: Option<String>)
    ensures
        opt_view(r) == hint_text(hints@, key@),
{
    match hints.get(key) {
        Some(v) => {
            let t = trim(v.as_str());
            if t.unicode_len() > 0 {
                Some(t)
            } else {
                None
            }
        },
        None => None,
    }
}

/// How the icon of `notif` is looked up, given the configured icon path and the
/// user's home directory.
pub fn icon_plan(notif: &Notification, icon_path: &Option<String>, home: &str) -> (r: IconPlan)
    ensures
        r@ == icon_plan_of(notif.app_name@, notif.app_icon@, notif.hints@, opt_view(*icon_path), home@),
{
    let icon_id = match hint_string(&notif.hints, "image-path") {
        Some(t) => Some(t),
        None => {
            let t = trim(notif.app_icon.as_str());
            if t.unicode_len() > 0 {
                Some(t)
            } else {
                None
            }
        },
    };
    match icon_id {
        Some(id) => {
            let mut candidates: Vec<IconCandidate> = Vec::new();
            match resolve_icon_file(id.as_str(), home) {
                Some(p) => {
                    let ghost pv = p@;
                    candidates.push(IconCandidate { dir: None, file: p });
                    assert(candidate_views(candidates@) =~= seq![CandidateView { dir: None, file: pv }]);
                },
                None => {
                    assert(candidate_views(candidates@) =~= Seq::<CandidateView>::empty());
                },
            }
            let ghost first = candidate_views(candidates@);
            let mut searched = search_icon_path(icon_path, id.as_str());
            let ghost rest = candidate_views(searched@);
            candidates.append(&mut searched);
            assert(candidate_views(candidates@) =~= first + rest);
            IconPlan { candidates, fallback: id }
        },
        None => match hint_string(&notif.hints, "desktop-entry") {
            Some(d) => {
                let candidates = search_icon_path(icon_path, d.as_str());
                IconPlan { candidates, fallback: d }
            },
            None => {
                if notif.app_name.as_str().unicode_len() > 0 {
                    let candidates = search_icon_path(icon_path, notif.app_name.as_str());
                    IconPlan { candidates, fallback: notif.app_name.clone() }
                } else {
                    let candidates: Vec<IconCandidate> = Vec::new();
                    assert(candidate_views(candidates@) =~= Seq::<CandidateView>::empty());
                    IconPlan { candidates, fallback: String::from_str("dialog-information") }
                }
            },
        },
    }
}

/// `i` is the first position at which `exists` holds.
pub open spec fn first_existing(exists: Seq<bool>, i: int) -> bool {
    &&& 0 <= i < exists.len()
    &&& exists[i]
    &&& forall|j: int| 0 <= j < i ==> !exists[j]
}

/// The icon to show.
#[derive(Debug, Clone, PartialEq, Eq)]
pub enum IconChoice {
    /// The icon in this file.
    File(IconCandidate),
    /// The themed icon of this name.
    Name(String),
}

/// The icon to show under `plan`, where `exists[i]` tells whether the `i`-th candidate
/// file exists: the first that exists, else the fallback name.
pub fn choose_icon(plan: &IconPlan, exists: &Vec<bool>) -> (r: IconChoice)
    requires
        exists@.len() == plan.candidates@.len(),
    ensures
        match r {
            IconChoice::File(c) => exists|i: int| first_existing(exists@, i) && c@ == plan@.candidates[i],
            IconChoice::Name(n) => (forall|i: int| 0 <= i < exists@.len() ==> !exists@[i]) && n@ == plan@.fallback,
        },
{
    let n = exists.len();
    let mut i: usize = 0;
    while i < n
        invariant
            i <= n,
            n == exists@.len(),
            n == plan.candidates@.len(),
            forall|j: int| 0 <= j < i ==> !exists@[j],
        decreases n - i,
    {
        if exists[i] {
            let c = plan.candidates[i].duplicate();
            assert(first_existing(exists@, i as int));
            return IconChoice::File(c);
        }
        i = i + 1;
    }
    IconChoice::Name(plan.fallback.clone())
}


/// The directories named by an icon path are exactly its ':'-separated entries, trimmed,
/// in order, with only the blank ones left out.
pub proof fn law_icon_dirs_are_nonblank_entries(icon_path: Seq<char>)
    ensures
        icon_dirs_of(icon_path) == split_on(icon_path, ':').map_values(|p: Seq<char>| trimmed(p)).filter(
            |t: Seq<char>| t.len() > 0,
        ),
{
    lemma_nonempty_trimmed_is_filter(split_on(icon_path, ':'));
}

proof fn lemma_nonempty_trimmed_is_filter(pieces: Seq<Seq<char>>)
    ensures
        nonempty_trimmed(pieces) == pieces.map_values(|p: Seq<char>| trimmed(p)).filter(
            |t: Seq<char>| t.len() > 0,
        ),
    decreases pieces.len(),
{
    let f = |p: Seq<char>| trimmed(p);
    let keep = |t: Seq<char>| t.len() > 0;
    reveal(Seq::filter);
    if pieces.len() > 0 {
        lemma_nonempty_trimmed_is_filter(pieces.drop_last());
        let m = pieces.map_values(f);
        assert(m.drop_last() =~= pieces.drop_last().map_values(f));
        assert(m.last() == trimmed(pieces.last()));
        assert(m.filter(keep) == if keep(m.last()) {
            m.drop_last().filter(keep).push(m.last())
        } else {
            m.drop_last().filter(keep)
        });
    } else {
        assert(pieces.map_values(f) =~= Seq::<Seq<char>>::empty());
    }
}

/// The search along an icon path tries, directory by directory, the name with ".png",
/// ".svg", ".svgz", ".xpm" and ".ico" in turn: five files per directory, the `j`-th of
/// directory `k` at position `5 * k + j`.
pub proof fn law_search_layout(dirs: Seq<Seq<char>>, name: Seq<char>, k: int)
    requires
        0 <= k < dirs.len(),
    ensures
        candidates_in(dirs, name).len() == 5 * dirs.len(),
        candidates_in(dirs, name).subrange(5 * k, 5 * k + 5) == seq![
            CandidateView { dir: Some(dirs[k]), file: name + ".png"@ },
            CandidateView { dir: Some(dirs[k]), file: name + ".svg"@ },
            CandidateView { dir: Some(dirs[k]), file: name + ".svgz"@ },
            CandidateView { dir: Some(dirs[k]), file: name + ".xpm"@ },
            CandidateView { dir: Some(dirs[k]), file: name + ".ico"@ },
        ],
    decreases dirs.len(),
{
    lemma_candidates_len(dirs, name);
    let c = candidates_in(dirs, name);
    let front = candidates_in(dirs.drop_last(), name);
    lemma_candidates_len(dirs.drop_last(), name);
    let d = dir_candidates(dirs.last(), name);
    assert(c == front + d);
    if k == dirs.len() - 1 {
        assert(c.subrange(5 * k, 5 * k + 5) =~= d);
    } else {
        law_search_layout(dirs.drop_last(), name, k);
        assert(c.subrange(5 * k, 5 * k + 5) =~= front.subrange(5 * k, 5 * k + 5));
    }
}

proof fn lemma_candidates_len(dirs: Seq<Seq<char>>, name: Seq<char>)
    ensures
        candidates_in(dirs, name).len() == 5 * dirs.len(),
    decreases dirs.len(),
{
    if dirs.len() > 0 {
        lemma_candidates_len(dirs.drop_last(), name);
    }
}

/// A notification that names no icon of its own but has a non-blank "desktop-entry" hint
/// `d` looks for `d` along the icon path, and falls back on the themed icon `d`.
pub proof fn law_desktop_entry_searched(
    app_name: Seq<char>,
    app_icon: Seq<char>,
    hints: Map<Seq<char>, Seq<char>>,
    icon_path: Option<Seq<char>>,
    home: Seq<char>,
)
    requires
        !hints.contains_key("image-path"@) || trimmed(hints["image-path"@]).len() == 0,
        trimmed(app_icon).len() == 0,
        hints.contains_key("desktop-entry"@),
        trimmed(hints["desktop-entry"@]).len() > 0,
    ensures
        icon_plan_of(app_name, app_icon, hints, icon_path, home).fallback == trimmed(hints["desktop-entry"@]),
        icon_plan_of(app_name, app_icon, hints, icon_path, home).candidates == match icon_path {
            Some(p) => candidates_in(
                split_on(p, ':').map_values(|x: Seq<char>| trimmed(x)).filter(|t: Seq<char>| t.len() > 0),
                trimmed(hints["desktop-entry"@]),
            ),
            None => Seq::<CandidateView>::empty(),
        },
{
    if let Some(p) = icon_path {
        law_icon_dirs_are_nonblank_entries(p);
    }
}

/// Searching an optional icon path: without one nothing is tried; with one, the files of
/// its non-blank entries, trimmed, in order.
pub proof fn law_searched_candidates(icon_path: Option<Seq<char>>, name: Seq<char>)
    ensures
        icon_path is None ==> searched_candidates(icon_path, name) == Seq::<CandidateView>::empty(),
        icon_path matches Some(p) ==> searched_candidates(icon_path, name) == candidates_in(
            split_on(p, ':').map_values(|x: Seq<char>| trimmed(x)).filter(|t: Seq<char>| t.len() > 0),
            name,
        ),
{
    if let Some(p) = icon_path {
        law_icon_dirs_are_nonblank_entries(p);
    }
}

/// The order in which a notification's icon is looked up. A non-blank "image-path" hint
/// comes first, then a non-blank icon field (both trimmed): that name is tried as a path,
/// then along the icon path, then used as a themed name. Without either, the
/// "desktop-entry" hint (see `law_desktop_entry_searched`); without it, the application's
/// name, as it is, along the icon path and then as a themed name; without any of them, no
/// file is tried and "dialog-information" is shown.
pub proof fn law_icon_plan_priorities(
    app_name: Seq<char>,
    app_icon: Seq<char>,
    hints: Map<Seq<char>, Seq<char>>,
    icon_path: Option<Seq<char>>,
    home: Seq<char>,
)
    ensures
        ({
            let plan = icon_plan_of(app_name, app_icon, hints, icon_path, home);
            let image = hints.contains_key("image-path"@) && trimmed(hints["image-path"@]).len() > 0;
            let own = trimmed(app_icon).len() > 0;
            let desktop = hints.contains_key("desktop-entry"@) && trimmed(hints["desktop-entry"@]).len() > 0;
            let as_path = |id: Seq<char>|
                match resolved_icon_file(id, home) {
                    Some(p) => seq![CandidateView { dir: None, file: p }],
                    None => Seq::<CandidateView>::empty(),
                };
            &&& image ==> plan.fallback == trimmed(hints["image-path"@]) && plan.candidates == as_path(
                trimmed(hints["image-path"@]),
            ) + searched_candidates(icon_path, trimmed(hints["image-path"@]))
            &&& (!image && own) ==> plan.fallback == trimmed(app_icon) && plan.candidates == as_path(
                trimmed(app_icon),
            ) + searched_candidates(icon_path, trimmed(app_icon))
            &&& (!image && !own && !desktop && app_name.len() > 0) ==> plan.fallback == app_name
                && plan.candidates == searched_candidates(icon_path, app_name)
            &&& (!image && !own && !desktop && app_name.len() == 0) ==> plan.fallback
                == "dialog-information"@ && plan.candidates.len() == 0
        }),
{
}

/// A name written as a path resolves to every character after its prefix: a `file://`
/// URI loses exactly its seven scheme characters, a leading `~` becomes the home
/// directory, and another name holding '/' is kept whole; all after trimming. A name of
/// none of these forms resolves to nothing.
pub proof fn law_resolved_icon_file(name: Seq<char>, home: Seq<char>)
    ensures
        ({
            let n = trimmed(name);
            let uri = n.len() >= 7 && n.subrange(0, 7) == seq!['f', 'i', 'l', 'e', ':', '/', '/'];
            &&& uri ==> resolved_icon_file(name, home) == Some(n.subrange(7, n.len() as int))
            &&& (n.len() > 0 && n[0] == '~') ==> resolved_icon_file(name, home) == Some(
                home + n.subrange(1, n.len() as int),
            )
            &&& (!uri && n.len() > 0 && n[0] != '~' && n.contains('/')) ==> resolved_icon_file(name, home)
                == Some(n)
            &&& (n.len() == 0 || (!uri && n[0] != '~' && !n.contains('/'))) ==> resolved_icon_file(
                name,
                home,
            ) is None
        }),
{
    reveal_strlit("file://");
    let n = trimmed(name);
    assert("file://"@ =~= seq!['f', 'i', 'l', 'e', ':', '/', '/']);
    if n.len() > 0 && n[0] == '~' {
        assert(!has_prefix(n, "file://"@)) by {
            if has_prefix(n, "file://"@) {
                assert(n.subrange(0, 7)[0] == n[0]);
            }
        }
    }
}

} // verus!
