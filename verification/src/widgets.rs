//! Widget discovery. A widget is a directory holding a JSON descriptor and
//! its own files; widgets come from the bundled directory and from the
//! user's installed directory. The caller lists each directory and parses
//! each manifest; this module decides which widgets are valid, completes
//! them, orders them and combines the two scopes.

use vstd::prelude::*;
use crate::text::{is_blank, blank, text_le, text_le_exec, lemma_text_le_total,
    lemma_text_le_transitive};

verus! {

/// A widget's manifest, with where it was found.
#[derive(Debug, Clone, PartialEq)]
pub struct WidgetManifest {
    pub id: String,
    pub name: String,
    pub description: String,
    pub icon: Option<String>,
    pub entry: String,
    pub trust_status: String,
    pub subscribed_events: Vec<String>,
    /// `bundled` or `installed`: the scope it was discovered in.
    pub source: String,
    /// The directory it was loaded from.
    pub dir: String,
}

/// The mathematical value of a [`WidgetManifest`].
pub struct WidgetManifestView {
    pub id: Seq<char>,
    pub name: Seq<char>,
    pub description: Seq<char>,
    pub icon: Option<Seq<char>>,
    pub entry: Seq<char>,
    pub trust_status: Seq<char>,
    pub subscribed_events: Seq<Seq<char>>,
    pub source: Seq<char>,
    pub dir: Seq<char>,
}

impl View for WidgetManifest {
    type V = WidgetManifestView;

    open spec fn view(&self) -> WidgetManifestView {
        WidgetManifestView {
            id: self.id@,
            name: self.name@,
            description: self.description@,
            icon: self.icon.deep_view(),
            entry: self.entry@,
            trust_status: self.trust_status@,
            subscribed_events: self.subscribed_events.deep_view(),
            source: self.source@,
            dir: self.dir@,
        }
    }
}

/// The mathematical value of an optional manifest.
pub open spec fn opt_manifest_view(o: Option<WidgetManifest>) -> Option<WidgetManifestView> {
    match o {
        Some(m) => Some(m@),
        None => None,
    }
}

/// The mathematical values of a list of manifests.
pub open spec fn manifests_view(v: Seq<WidgetManifest>) -> Seq<WidgetManifestView> {
    v.map_values(|m: WidgetManifest| m@)
}

/// The trust status of a widget whose manifest names none.
pub fn default_trust_status() -> (r: String)
    ensures
        r@ == "unreviewed"@,
{
    "unreviewed".to_string()
}

/// One entry of a widget directory, as the caller found it.
#[derive(Debug, Clone, PartialEq)]
pub struct WidgetEntry {
    /// The entry's path.
    pub path: String,
    /// Whether the entry is a directory.
    pub is_dir: bool,
    /// Its descriptor, when it has one that parses.
    pub manifest: Option<WidgetManifest>,
}

/// The mathematical value of a [`WidgetEntry`].
pub struct WidgetEntryView {
    pub path: Seq<char>,
    pub is_dir: bool,
    pub manifest: Option<WidgetManifestView>,
}

impl View for WidgetEntry {
    type V = WidgetEntryView;

    open spec fn view(&self) -> WidgetEntryView {
        WidgetEntryView {
            path: self.path@,
            is_dir: self.is_dir,
            manifest: match self.manifest {
                Some(m) => Some(m@),
                None => None,
            },
        }
    }
}

/// The mathematical values of a directory listing.
pub open spec fn entries_view(v: Seq<WidgetEntry>) -> Seq<WidgetEntryView> {
    v.map_values(|e: WidgetEntry| e@)
}

/// The mathematical value of a directory listing that may have failed.
pub open spec fn listing_view(o: Option<Vec<WidgetEntry>>) -> Option<Seq<WidgetEntryView>> {
    match o {
        Some(v) => Some(entries_view(v@)),
        None => None,
    }
}

/// A manifest names a widget when its id, name and entry are not blank.
pub open spec fn names_widget(m: WidgetManifestView) -> bool {
    !is_blank(m.id) && !is_blank(m.name) && !is_blank(m.entry)
}

/// The widget that a parsed manifest found in `dir` stands for: the
/// manifest with its scope and directory filled in, when it names a widget.
pub open spec fn loaded(
    parsed: Option<WidgetManifestView>,
    dir: Seq<char>,
    source: Seq<char>,
) -> Option<WidgetManifestView> {
    match parsed {
        Some(m) => if names_widget(m) {
            Some(WidgetManifestView { source, dir, ..m })
        } else {
            None
        },
        None => None,
    }
}

/// Completes a parsed manifest found in `dir`; a manifest that failed to
/// parse, or whose id, name or entry is blank, is skipped (`None`) rather
/// than failing the whole discovery.
pub fn load_manifest_from_dir(parsed: Option<WidgetManifest>, dir: &str, source: &str) -> (r: Option<
    WidgetManifest,
>)
    ensures
        opt_manifest_view(r) == loaded(opt_manifest_view(parsed), dir@, source@),
{
    match parsed {
        Some(m) => {
            if blank(m.id.as_str()) || blank(m.name.as_str()) || blank(m.entry.as_str()) {
                None
            } else {
                let mut m = m;
                m.source = source.to_string();
                m.dir = dir.to_string();
                Some(m)
            }
        },
        None => None,
    }
}

/// The widgets of a directory listing, in listing order: the directories
/// whose manifest names a widget.
pub open spec fn listed_widgets(entries: Seq<WidgetEntryView>, source: Seq<char>) -> Seq<
    WidgetManifestView,
>
    decreases entries.len(),
{
    if entries.len() == 0 {
        seq![]
    } else {
        let rest = listed_widgets(entries.drop_last(), source);
        let e = entries.last();
        if e.is_dir {
            match loaded(e.manifest, e.path, source) {
                Some(w) => rest.push(w),
                None => rest,
            }
        } else {
            rest
        }
    }
}

/// `x` inserted into `t` after every element whose id comes no later.
pub open spec fn insert_by_id(t: Seq<WidgetManifestView>, x: WidgetManifestView) -> Seq<
    WidgetManifestView,
>
    decreases t.len(),
{
    if t.len() == 0 {
        seq![x]
    } else if text_le(t[0].id, x.id) {
        seq![t[0]] + insert_by_id(t.drop_first(), x)
    } else {
        seq![x] + t
    }
}

/// `s` stably sorted by id.
pub open spec fn sort_by_id(s: Seq<WidgetManifestView>) -> Seq<WidgetManifestView>
    decreases s.len(),
{
    if s.len() == 0 {
        seq![]
    } else {
        insert_by_id(sort_by_id(s.drop_last()), s.last())
    }
}

/// The widgets of one scope: none when the directory cannot be listed,
/// otherwise its widgets sorted by id.
pub open spec fn scanned(listing: Option<Seq<WidgetEntryView>>, source: Seq<char>) -> Seq<
    WidgetManifestView,
> {
    match listing {
        Some(entries) => sort_by_id(listed_widgets(entries, source)),
        None => seq![],
    }
}

proof fn lemma_insert_at(t: Seq<WidgetManifestView>, x: WidgetManifestView, p: int)
    requires
        0 <= p <= t.len(),
        forall|k: int| 0 <= k < p ==> text_le(#[trigger] t[k].id, x.id),
        p < t.len() ==> !text_le(t[p].id, x.id),
    ensures
        insert_by_id(t, x) == t.insert(p, x),
    decreases t.len(),
{
    if t.len() == 0 {
        assert(t.insert(p, x) =~= seq![x]);
    } else if p == 0 {
        assert(t.insert(0, x) =~= seq![x] + t);
    } else {
        let t1 = t.drop_first();
        assert forall|k: int| 0 <= k < p - 1 implies text_le(#[trigger] t1[k].id, x.id) by {
            assert(t1[k] == t[k + 1]);
        }
        lemma_insert_at(t1, x, p - 1);
        assert(t.insert(p, x) =~= seq![t[0]] + t1.insert(p - 1, x));
    }
}


/// Moves `m` into the sorted `sorted` after every widget whose id comes no
/// later.
fn insert_sorted(sorted: &mut Vec<WidgetManifest>, m: WidgetManifest)
    ensures
        manifests_view(final(sorted)@) == insert_by_id(manifests_view(old(sorted)@), m@),
{
    let ghost t = manifests_view(sorted@);
    let mut p: usize = 0;
    while p < sorted.len() && text_le_exec(sorted[p].id.as_str(), m.id.as_str())
        invariant
            p <= sorted.len(),
            t == manifests_view(sorted@),
            forall|k: int| 0 <= k < p ==> text_le(#[trigger] t[k].id, m@.id),
        decreases sorted.len() - p,
    {
        p = p + 1;
    }
    proof {
        lemma_insert_at(t, m@, p as int);
    }
    sorted.insert(p, m);
    assert(manifests_view(sorted@) =~= t.insert(p as int, m@));
}

/// The widgets of one directory listing (`None` when the directory could
/// not be read), each completed with `source` and its directory, sorted by
/// id.
pub fn scan_widgets_dir(listing: Option<Vec<WidgetEntry>>, source: &str) -> (r: Vec<WidgetManifest>)
    ensures
        manifests_view(r@) == scanned(listing_view(listing), source@),
{
    let mut widgets: Vec<WidgetManifest> = Vec::new();
    match listing {
        None => {
            assert(manifests_view(widgets@) =~= seq![]);
            widgets
        },
        Some(entries) => {
            let ghost all = entries_view(entries@);
            let total = entries.len();
            assert(all.len() == total);
            let mut rest = entries;
            let mut done: usize = 0;
            assert(all.take(0) =~= seq![]);
            assert(manifests_view(widgets@) =~= seq![]);
            assert(entries_view(rest@) =~= all.skip(0));
            while rest.len() > 0
                invariant
                    done <= all.len(),
                    all.len() <= usize::MAX,
                    entries_view(rest@) =~= all.skip(done as int),
                    manifests_view(widgets@) == sort_by_id(
                        listed_widgets(all.take(done as int), source@),
                    ),
                decreases rest.len(),
            {
                let ghost before = entries_view(rest@);
                let ghost rest_seq = rest@;
                assert(before.len() == all.len() - done);
                assert(before[0] == all[done as int]);
                let e = rest.remove(0);
                proof {
                    assert(e@ == before[0]);
                    assert(e@ == all[done as int]);
                    assert(all.take(done + 1).drop_last() =~= all.take(done as int));
                    assert(rest@ == rest_seq.remove(0));
                    assert(entries_view(rest@) =~= before.drop_first());
                    assert(entries_view(rest@) =~= all.skip(done + 1));
                }
                let ghost prev = listed_widgets(all.take(done as int), source@);
                let ghost ev = e@;
                if e.is_dir {
                    let loaded_m = load_manifest_from_dir(e.manifest, e.path.as_str(), source);
                    match loaded_m {
                        Some(w) => {
                            let ghost wv = w@;
                            insert_sorted(&mut widgets, w);
                            proof {
                                assert(listed_widgets(all.take(done + 1), source@) == prev.push(wv));
                                assert(prev.push(wv).drop_last() =~= prev);
                            }
                        },
                        None => {
                            assert(listed_widgets(all.take(done + 1), source@) == prev);
                        },
                    }
                } else {
                    assert(listed_widgets(all.take(done + 1), source@) == prev);
                }
                done = done + 1;
            }
            assert(all.take(done as int) =~= all);
            widgets
        },
    }
}

/// The widgets of a scope whose directory may not be given.
pub open spec fn scope_widgets(dir: Option<Option<Vec<WidgetEntry>>>, source: Seq<char>) -> Seq<
    WidgetManifestView,
> {
    match dir {
        Some(l) => scanned(listing_view(l), source),
        None => seq![],
    }
}

/// The widgets of both scopes: the bundled ones first, then the installed
/// ones, each scope sorted by id. A directory that is not given, or cannot
/// be read, contributes nothing; an id found in both scopes is listed twice,
/// since which one wins is not discovery's decision.
pub fn discover_widgets(
    bundled: Option<Option<Vec<WidgetEntry>>>,
    installed: Option<Option<Vec<WidgetEntry>>>,
) -> (r: Vec<WidgetManifest>)
    ensures
        manifests_view(r@) == scope_widgets(bundled, "bundled"@) + scope_widgets(
            installed,
            "installed"@,
        ),
{
    let mut widgets: Vec<WidgetManifest> = Vec::new();
    let ghost b = scope_widgets(bundled, "bundled"@);
    let ghost i = scope_widgets(installed, "installed"@);
    if let Some(listing) = bundled {
        let mut found = scan_widgets_dir(listing, "bundled");
        widgets.append(&mut found);
    }
    assert(manifests_view(widgets@) =~= b);
    if let Some(listing) = installed {
        let mut found = scan_widgets_dir(listing, "installed");
        widgets.append(&mut found);
    }
    assert(manifests_view(widgets@) =~= b + i);
    widgets
}

// ---------------------------------------------------------------------------
// Laws of discovery
// ---------------------------------------------------------------------------

/// Every widget comes no later, by id, than the widgets after it.
pub open spec fn sorted_by_id(s: Seq<WidgetManifestView>) -> bool {
    forall|i: int, j: int| 0 <= i < j < s.len() ==> text_le(#[trigger] s[i].id, #[trigger] s[j].id)
}

proof fn lemma_insert_multiset(t: Seq<WidgetManifestView>, x: WidgetManifestView)
    ensures
        insert_by_id(t, x).to_multiset() =~= t.to_multiset().insert(x),
    decreases t.len(),
{
    broadcast use vstd::seq_lib::group_to_multiset_ensures, vstd::multiset::group_multiset_axioms;

    if t.len() == 0 {
        vstd::seq_lib::lemma_multiset_commutative(seq![x], t);
    } else if text_le(t[0].id, x.id) {
        let t1 = t.drop_first();
        lemma_insert_multiset(t1, x);
        vstd::seq_lib::lemma_multiset_commutative(seq![t[0]], insert_by_id(t1, x));
        vstd::seq_lib::lemma_multiset_commutative(seq![t[0]], t1);
        assert(seq![t[0]] + t1 =~= t);
    } else {
        vstd::seq_lib::lemma_multiset_commutative(seq![x], t);
    }
}

proof fn lemma_sort_multiset(s: Seq<WidgetManifestView>)
    ensures
        sort_by_id(s).to_multiset() =~= s.to_multiset(),
    decreases s.len(),
{
    broadcast use vstd::seq_lib::group_to_multiset_ensures;

    if s.len() > 0 {
        lemma_sort_multiset(s.drop_last());
        lemma_insert_multiset(sort_by_id(s.drop_last()), s.last());
        assert(s.drop_last().push(s.last()) =~= s);
    }
}

proof fn lemma_insert_sorted(t: Seq<WidgetManifestView>, x: WidgetManifestView)
    requires
        sorted_by_id(t),
    ensures
        sorted_by_id(insert_by_id(t, x)),
    decreases t.len(),
{
    broadcast use vstd::seq_lib::group_to_multiset_ensures;

    if t.len() == 0 {
    } else if text_le(t[0].id, x.id) {
        let t1 = t.drop_first();
        lemma_insert_sorted(t1, x);
        let rest = insert_by_id(t1, x);
        lemma_insert_multiset(t1, x);
        let r = seq![t[0]] + rest;
        assert forall|i: int, j: int| 0 <= i < j < r.len() implies text_le(
            #[trigger] r[i].id,
            #[trigger] r[j].id,
        ) by {
            if i == 0 {
                let y = rest[j - 1];
                assert(rest.to_multiset().count(y) > 0);
                if y != x {
                    assert(t1.to_multiset().count(y) > 0);
                    assert(t1.contains(y));
                    let k = choose|k: int| 0 <= k < t1.len() && t1[k] == y;
                    assert(t[k + 1] == y);
                }
            } else {
                assert(r[i] == rest[i - 1]);
                assert(r[j] == rest[j - 1]);
            }
        }
    } else {
        lemma_text_le_total(t[0].id, x.id);
        let r = seq![x] + t;
        assert forall|i: int, j: int| 0 <= i < j < r.len() implies text_le(
            #[trigger] r[i].id,
            #[trigger] r[j].id,
        ) by {
            if i == 0 {
                if j > 1 {
                    assert(text_le(t[0].id, t[j - 1].id));
                    lemma_text_le_transitive(x.id, t[0].id, t[j - 1].id);
                }
            } else {
                assert(r[i] == t[i - 1]);
                assert(r[j] == t[j - 1]);
            }
        }
    }
}

proof fn lemma_sort_sorted(s: Seq<WidgetManifestView>)
    ensures
        sorted_by_id(sort_by_id(s)),
    decreases s.len(),
{
    if s.len() > 0 {
        lemma_sort_sorted(s.drop_last());
        lemma_insert_sorted(sort_by_id(s.drop_last()), s.last());
    }
}

proof fn lemma_listed_widgets_valid(entries: Seq<WidgetEntryView>, source: Seq<char>)
    ensures
        forall|k: int|
            0 <= k < listed_widgets(entries, source).len() ==> names_widget(
                #[trigger] listed_widgets(entries, source)[k],
            ) && listed_widgets(entries, source)[k].source == source,
    decreases entries.len(),
{
    if entries.len() > 0 {
        lemma_listed_widgets_valid(entries.drop_last(), source);
    }
}

/// `w` is the widget that the descriptor `m`, found at `dir`, stands for in
/// scope `source`: every field of the descriptor kept, only the scope and
/// the directory filled in.
pub open spec fn keeps_descriptor(
    w: WidgetManifestView,
    m: WidgetManifestView,
    dir: Seq<char>,
    source: Seq<char>,
) -> bool {
    &&& w.id == m.id
    &&& w.name == m.name
    &&& w.description == m.description
    &&& w.icon == m.icon
    &&& w.entry == m.entry
    &&& w.trust_status == m.trust_status
    &&& w.subscribed_events == m.subscribed_events
    &&& w.source == source
    &&& w.dir == dir
}

/// Loading keeps every field of a descriptor and replaces only its scope
/// and directory; a descriptor is loaded exactly when its id, name and
/// entry are not blank.
pub proof fn law_loading_keeps_the_descriptor(m: WidgetManifestView, dir: Seq<char>, source: Seq<char>)
    ensures
        loaded(Some(m), dir, source) is Some <==> names_widget(m),
        loaded(Some(m), dir, source) is Some ==> keeps_descriptor(
            loaded(Some(m), dir, source)->0,
            m,
            dir,
            source,
        ),
        loaded(None, dir, source) is None,
{
}

/// Every widget a scan lists comes from a directory entry of the listing
/// whose descriptor it keeps whole, with that entry's path as its directory.
pub open spec fn comes_from_listing(
    w: WidgetManifestView,
    entries: Seq<WidgetEntryView>,
    source: Seq<char>,
) -> bool {
    exists|i: int|
        0 <= i < entries.len() && (#[trigger] entries[i]).is_dir && entries[i].manifest is Some
            && keeps_descriptor(w, entries[i].manifest->0, entries[i].path, source)
}

proof fn lemma_listed_come_from_listing(entries: Seq<WidgetEntryView>, source: Seq<char>)
    ensures
        forall|k: int|
            0 <= k < listed_widgets(entries, source).len() ==> comes_from_listing(
                #[trigger] listed_widgets(entries, source)[k],
                entries,
                source,
            ),
    decreases entries.len(),
{
    if entries.len() > 0 {
        let init = entries.drop_last();
        lemma_listed_come_from_listing(init, source);
        let l = listed_widgets(entries, source);
        let li = listed_widgets(init, source);
        assert forall|k: int| 0 <= k < l.len() implies comes_from_listing(#[trigger] l[k], entries, source) by {
            if k < li.len() {
                assert(l[k] == li[k]);
                let i = choose|i: int|
                    0 <= i < init.len() && (#[trigger] init[i]).is_dir && init[i].manifest is Some
                        && keeps_descriptor(li[k], init[i].manifest->0, init[i].path, source);
                assert(entries[i] == init[i]);
            } else {
                assert(entries[entries.len() - 1] == entries.last());
            }
        }
    }
}

/// Every widget of a scope keeps, whole, the descriptor of some directory
/// of its listing, with that directory and the scope filled in.
pub proof fn law_scanned_widgets_keep_their_descriptors(entries: Seq<WidgetEntryView>, source: Seq<char>)
    ensures
        forall|k: int|
            0 <= k < scanned(Some(entries), source).len() ==> comes_from_listing(
                #[trigger] scanned(Some(entries), source)[k],
                entries,
                source,
            ),
{
    broadcast use vstd::seq_lib::group_to_multiset_ensures;

    let listed = listed_widgets(entries, source);
    let r = scanned(Some(entries), source);
    lemma_sort_multiset(listed);
    lemma_listed_come_from_listing(entries, source);
    assert forall|k: int| 0 <= k < r.len() implies comes_from_listing(#[trigger] r[k], entries, source) by {
        assert(r.to_multiset().count(r[k]) > 0);
        assert(listed.to_multiset().count(r[k]) > 0);
        assert(listed.contains(r[k]));
    }
}

proof fn lemma_listing_reaches_listed(entries: Seq<WidgetEntryView>, source: Seq<char>, i: int)
    requires
        0 <= i < entries.len(),
        entries[i].is_dir,
        entries[i].manifest is Some,
        names_widget(entries[i].manifest->0),
    ensures
        exists|w: WidgetManifestView|
            listed_widgets(entries, source).contains(w) && keeps_descriptor(
                w,
                entries[i].manifest->0,
                entries[i].path,
                source,
            ),
    decreases entries.len(),
{
    let init = entries.drop_last();
    let l = listed_widgets(entries, source);
    let li = listed_widgets(init, source);
    let m = entries[i].manifest->0;
    if i < entries.len() - 1 {
        assert(init[i] == entries[i]);
        lemma_listing_reaches_listed(init, source, i);
        let w = choose|w: WidgetManifestView|
            li.contains(w) && keeps_descriptor(w, m, entries[i].path, source);
        let j = choose|j: int| 0 <= j < li.len() && li[j] == w;
        assert(0 <= j < l.len() && l[j] == w);
        assert(l.contains(w));
        assert(keeps_descriptor(w, m, entries[i].path, source));
    } else {
        assert(entries.last() == entries[i]);
        let w = loaded(entries[i].manifest, entries[i].path, source)->0;
        assert(l == li.push(w));
        assert(l[l.len() - 1] == w);
        assert(l.contains(w));
        assert(keeps_descriptor(w, m, entries[i].path, source));
    }
}

/// No widget is lost: every directory of the listing whose descriptor has a
/// non-blank id, name and entry appears among the scope's widgets, with its
/// descriptor kept whole.
pub proof fn law_every_valid_descriptor_is_listed(
    entries: Seq<WidgetEntryView>,
    source: Seq<char>,
    i: int,
)
    requires
        0 <= i < entries.len(),
        entries[i].is_dir,
        entries[i].manifest is Some,
        names_widget(entries[i].manifest->0),
    ensures
        exists|w: WidgetManifestView|
            scanned(Some(entries), source).contains(w) && keeps_descriptor(
                w,
                entries[i].manifest->0,
                entries[i].path,
                source,
            ),
{
    broadcast use vstd::seq_lib::group_to_multiset_ensures;

    lemma_listing_reaches_listed(entries, source, i);
    let listed = listed_widgets(entries, source);
    let w = choose|w: WidgetManifestView|
        listed.contains(w) && keeps_descriptor(w, entries[i].manifest->0, entries[i].path, source);
    lemma_sort_multiset(listed);
    assert(listed.to_multiset().count(w) > 0);
    assert(scanned(Some(entries), source).to_multiset().count(w) > 0);
    assert(scanned(Some(entries), source).contains(w));
}

/// The widgets of `s` whose id is `y`, in the order of `s`.
pub open spec fn with_id(s: Seq<WidgetManifestView>, y: Seq<char>) -> Seq<WidgetManifestView>
    decreases s.len(),
{
    if s.len() == 0 {
        seq![]
    } else if s[0].id == y {
        seq![s[0]] + with_id(s.drop_first(), y)
    } else {
        with_id(s.drop_first(), y)
    }
}

proof fn lemma_with_id_concat(a: Seq<WidgetManifestView>, b: Seq<WidgetManifestView>, y: Seq<char>)
    ensures
        with_id(a + b, y) == with_id(a, y) + with_id(b, y),
    decreases a.len(),
{
    if a.len() == 0 {
        assert(a + b =~= b);
        assert(with_id(a, y) + with_id(b, y) =~= with_id(b, y));
    } else {
        assert((a + b).drop_first() =~= a.drop_first() + b);
        assert((a + b)[0] == a[0]);
        lemma_with_id_concat(a.drop_first(), b, y);
        if a[0].id == y {
            assert(seq![a[0]] + (with_id(a.drop_first(), y) + with_id(b, y)) =~= (seq![a[0]]
                + with_id(a.drop_first(), y)) + with_id(b, y));
        }
    }
}

proof fn lemma_with_id_none(t: Seq<WidgetManifestView>, y: Seq<char>)
    requires
        forall|k: int| 0 <= k < t.len() ==> (#[trigger] t[k]).id != y,
    ensures
        with_id(t, y) == Seq::<WidgetManifestView>::empty(),
    decreases t.len(),
{
    if t.len() > 0 {
        assert(t[0].id != y);
        let t1 = t.drop_first();
        assert forall|k: int| 0 <= k < t1.len() implies (#[trigger] t1[k]).id != y by {
            assert(t1[k] == t[k + 1]);
        }
        lemma_with_id_none(t1, y);
    }
}

proof fn lemma_insert_with_id(t: Seq<WidgetManifestView>, x: WidgetManifestView, y: Seq<char>)
    requires
        sorted_by_id(t),
    ensures
        with_id(insert_by_id(t, x), y) == with_id(t, y) + (if x.id == y {
            seq![x]
        } else {
            Seq::<WidgetManifestView>::empty()
        }),
    decreases t.len(),
{
    let tail = if x.id == y {
        seq![x]
    } else {
        Seq::<WidgetManifestView>::empty()
    };
    if t.len() == 0 {
        let r = seq![x];
        assert(r.drop_first() =~= Seq::<WidgetManifestView>::empty());
        assert(with_id(r.drop_first(), y) == Seq::<WidgetManifestView>::empty());
        assert(r[0] == x);
        assert(with_id(r, y) =~= tail);
        assert(insert_by_id(t, x) == r);
        assert(with_id(t, y) == Seq::<WidgetManifestView>::empty());
        assert(with_id(t, y) + tail =~= tail);
    } else if text_le(t[0].id, x.id) {
        let t1 = t.drop_first();
        assert(sorted_by_id(t1)) by {
            assert forall|i: int, j: int| 0 <= i < j < t1.len() implies text_le(
                #[trigger] t1[i].id,
                #[trigger] t1[j].id,
            ) by {
                assert(t1[i] == t[i + 1]);
                assert(t1[j] == t[j + 1]);
            }
        }
        lemma_insert_with_id(t1, x, y);
        let r = seq![t[0]] + insert_by_id(t1, x);
        assert(r[0] == t[0]);
        assert(r.drop_first() =~= insert_by_id(t1, x));
        if t[0].id == y {
            assert(seq![t[0]] + (with_id(t1, y) + tail) =~= (seq![t[0]] + with_id(t1, y)) + tail);
        }
    } else {
        let r = seq![x] + t;
        assert(r[0] == x);
        assert(r.drop_first() =~= t);
        if x.id == y {
            assert forall|k: int| 0 <= k < t.len() implies (#[trigger] t[k]).id != y by {
                if t[k].id == y {
                    if k == 0 {
                        lemma_text_le_total(x.id, x.id);
                    } else {
                        assert(text_le(t[0].id, t[k].id));
                    }
                }
            }
            lemma_with_id_none(t, y);
            assert(with_id(t, y) + tail =~= seq![x]);
            assert(seq![x] + with_id(t, y) =~= seq![x]);
        }
    }
}

proof fn lemma_sort_with_id(s: Seq<WidgetManifestView>, y: Seq<char>)
    ensures
        with_id(sort_by_id(s), y) == with_id(s, y),
    decreases s.len(),
{
    if s.len() > 0 {
        let init = s.drop_last();
        lemma_sort_with_id(init, y);
        lemma_sort_sorted(init);
        lemma_insert_with_id(sort_by_id(init), s.last(), y);
        assert(s =~= init + seq![s.last()]);
        lemma_with_id_concat(init, seq![s.last()], y);
        let one = seq![s.last()];
        assert(one.drop_first() =~= Seq::<WidgetManifestView>::empty());
        assert(with_id(one.drop_first(), y) == Seq::<WidgetManifestView>::empty());
        assert(one[0] == s.last());
        assert(with_id(one, y) =~= (if s.last().id == y {
            seq![s.last()]
        } else {
            Seq::<WidgetManifestView>::empty()
        }));
        assert(sort_by_id(s) == insert_by_id(sort_by_id(init), s.last()));
    }
}

/// Sorting by id keeps, among widgets with the same id, the order in which
/// the listing gave them: for every id, the scope's widgets with that id
/// are exactly those of the listing, in the listing's order.
pub proof fn law_same_id_keeps_listing_order(entries: Seq<WidgetEntryView>, source: Seq<char>, y: Seq<char>)
    ensures
        with_id(scanned(Some(entries), source), y) == with_id(listed_widgets(entries, source), y),
{
    lemma_sort_with_id(listed_widgets(entries, source), y);
}

/// A scope's widgets are sorted by id, are exactly the widgets of its
/// listing (nothing dropped, nothing added, duplicates kept), and each has
/// a non-blank id, name and entry and carries the scope's name.
pub proof fn law_scope_widgets_sorted_and_complete(entries: Seq<WidgetEntryView>, source: Seq<char>)
    ensures
        sorted_by_id(scanned(Some(entries), source)),
        scanned(Some(entries), source).to_multiset() =~= listed_widgets(entries, source).to_multiset(),
        forall|k: int|
            0 <= k < scanned(Some(entries), source).len() ==> names_widget(
                #[trigger] scanned(Some(entries), source)[k],
            ) && scanned(Some(entries), source)[k].source == source,
{
    broadcast use vstd::seq_lib::group_to_multiset_ensures;

    let listed = listed_widgets(entries, source);
    let r = scanned(Some(entries), source);
    lemma_sort_sorted(listed);
    lemma_sort_multiset(listed);
    lemma_listed_widgets_valid(entries, source);
    assert forall|k: int| 0 <= k < r.len() implies names_widget(#[trigger] r[k]) && r[k].source
        == source by {
        assert(r.to_multiset().count(r[k]) > 0);
        assert(listed.to_multiset().count(r[k]) > 0);
        assert(listed.contains(r[k]));
    }
}

} // verus!
