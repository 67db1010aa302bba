use vstd::prelude::*;
use crate::names::{
    file_icon, hidden_name, icon_of, is_hidden_name, lower_of, octal_permissions, octal_text,
    to_lower,
};
use crate::types::{DirectoryEntry, DirectoryListing};

verus! {

broadcast use vstd::seq_lib::group_to_multiset_ensures;

/// What was read of one child's metadata.
#[derive(Debug, Clone, Copy, PartialEq, Eq, Structural)]
pub struct ChildStat {
    pub is_directory: bool,
    pub is_file: bool,
    pub size: u64,
    pub modified: Option<u64>,
    pub mode: u32,
}

/// One child of a directory as enumerated. `stat` is absent for a child whose
/// metadata was not read because it is hidden and hidden entries are not
/// shown.
#[derive(Debug, Clone)]
pub struct ListedChild {
    pub name: String,
    pub path: String,
    pub stat: Option<ChildStat>,
}

/// The content of a directory entry.
pub struct EntryView {
    pub name: Seq<char>,
    pub path: Seq<char>,
    pub is_directory: bool,
    pub size: Option<u64>,
    pub modified: Option<u64>,
    pub permissions: Seq<char>,
    pub icon: Seq<char>,
}

impl View for DirectoryEntry {
    type V = EntryView;

    open spec fn view(&self) -> EntryView {
        EntryView {
            name: self.name@,
            path: self.path@,
            is_directory: self.is_directory,
            size: self.size,
            modified: self.modified,
            permissions: self.permissions@,
            icon: self.icon@,
        }
    }
}

/// The entry shown for a child with the given name, path and metadata: a size
/// for plain files only.
pub open spec fn entry_view_of(name: Seq<char>, path: Seq<char>, st: ChildStat) -> EntryView {
    EntryView {
        name,
        path,
        is_directory: st.is_directory,
        size: if st.is_file {
            Some(st.size)
        } else {
            None
        },
        modified: st.modified,
        permissions: octal_text(st.mode as nat),
        icon: icon_of(name, st.is_directory),
    }
}

pub open spec fn views(s: Seq<DirectoryEntry>) -> Seq<EntryView> {
    s.map_values(|e: DirectoryEntry| e@)
}

/// A child is shown unless it is hidden and hidden entries are not wanted.
pub open spec fn shown(c: ListedChild, include_hidden: bool) -> bool {
    include_hidden || !hidden_name(c.name@)
}

/// The entries of the shown children whose metadata was read, in
/// enumeration order.
pub open spec fn kept_views(cs: Seq<ListedChild>, include_hidden: bool) -> Seq<EntryView>
    decreases cs.len(),
{
    if cs.len() == 0 {
        Seq::empty()
    } else {
        let rest = kept_views(cs.drop_last(), include_hidden);
        let c = cs.last();
        match c.stat {
            Some(st) => if shown(c, include_hidden) {
                rest.push(entry_view_of(c.name@, c.path@, st))
            } else {
                rest
            },
            None => rest,
        }
    }
}

/// How many children are hidden.
pub open spec fn hidden_total(cs: Seq<ListedChild>) -> nat
    decreases cs.len(),
{
    if cs.len() == 0 {
        0
    } else {
        hidden_total(cs.drop_last()) + if hidden_name(cs.last().name@) {
            1nat
        } else {
            0nat
        }
    }
}

/// Lexicographic order on characters by code point, from position `i` on.
pub open spec fn text_le_from(a: Seq<char>, b: Seq<char>, i: nat) -> bool
    decreases a.len() - i,
{
    if i >= a.len() {
        true
    } else if i >= b.len() {
        false
    } else if a[i as int] != b[i as int] {
        (a[i as int] as int) < (b[i as int] as int)
    } else {
        text_le_from(a, b, i + 1)
    }
}

/// `a` comes no later than `b` in code-point order.
pub open spec fn text_le(a: Seq<char>, b: Seq<char>) -> bool {
    text_le_from(a, b, 0)
}

/// `a` may stand before `b` in a listing: directories before files, and
/// within each, names in case-insensitive order.
pub open spec fn entry_before(a: EntryView, b: EntryView) -> bool {
    (a.is_directory && !b.is_directory) || (a.is_directory == b.is_directory && text_le(
        lower_of(a.name),
        lower_of(b.name),
    ))
}

/// Every entry may stand before every later one.
pub open spec fn listing_ordered(s: Seq<EntryView>) -> bool {
    forall|i: int, j: int| 0 <= i < j < s.len() ==> entry_before(s[i], s[j])
}

proof fn lemma_text_le_total(a: Seq<char>, b: Seq<char>, i: nat)
    ensures
        text_le_from(a, b, i) || text_le_from(b, a, i),
    decreases a.len() - i,
{
    if i < a.len() && i < b.len() && a[i as int] == b[i as int] {
        lemma_text_le_total(a, b, i + 1);
    }
    if i < a.len() && i < b.len() && a[i as int] != b[i as int] {
        assert(a[i as int] as int != b[i as int] as int);
    }
}

proof fn lemma_text_le_trans(a: Seq<char>, b: Seq<char>, c: Seq<char>, i: nat)
    requires
        text_le_from(a, b, i),
        text_le_from(b, c, i),
    ensures
        text_le_from(a, c, i),
    decreases a.len() - i,
{
    if i < a.len() && i < b.len() && i < c.len() && a[i as int] == b[i as int] && b[i as int]
        == c[i as int] {
        lemma_text_le_trans(a, b, c, i + 1);
    }
}

proof fn lemma_entry_before_total(a: EntryView, b: EntryView)
    ensures
        entry_before(a, b) || entry_before(b, a),
{
    lemma_text_le_total(lower_of(a.name), lower_of(b.name), 0);
}

proof fn lemma_entry_before_trans(a: EntryView, b: EntryView, c: EntryView)
    requires
        entry_before(a, b),
        entry_before(b, c),
    ensures
        entry_before(a, c),
{
    if a.is_directory == b.is_directory && b.is_directory == c.is_directory {
        lemma_text_le_trans(lower_of(a.name), lower_of(b.name), lower_of(c.name), 0);
    }
}

/// Whether `a` comes no later than `b` in code-point order.
fn text_le_exec(a: &str, b: &str) -> (r: bool)
    ensures
        r == text_le(a@, b@),
{
    let na = a.unicode_len();
    let nb = b.unicode_len();
    let mut i: usize = 0;
    while i < na
        invariant
            na == a@.len(),
            nb == b@.len(),
            i <= na,
            text_le(a@, b@) == text_le_from(a@, b@, i as nat),
        decreases na - i,
    {
        if i >= nb {
            return false;
        }
        let ca = a.get_char(i);
        let cb = b.get_char(i);
        if ca != cb {
            return (ca as u32) < (cb as u32);
        }
        i += 1;
    }
    true
}

fn make_entry(c: &ListedChild, st: ChildStat) -> (e: DirectoryEntry)
    ensures
        e@ == entry_view_of(c.name@, c.path@, st),
{
    DirectoryEntry {
        name: c.name.clone(),
        path: c.path.clone(),
        is_directory: st.is_directory,
        size: if st.is_file {
            Some(st.size)
        } else {
            None
        },
        modified: st.modified,
        permissions: octal_permissions(st.mode),
        icon: file_icon(c.name.as_str(), st.is_directory),
    }
}

/// Where `e` goes in the ordered `out`: after every entry that may stand
/// before it, so that equal names keep their enumeration order.
fn insert_position(out: &Vec<DirectoryEntry>, keys: &Vec<String>, e: &DirectoryEntry, key: &String) -> (p: usize)
    requires
        keys@.len() == out@.len(),
        forall|j: int| 0 <= j < out@.len() ==> keys@[j]@ == lower_of(out@[j].name@),
        key@ == lower_of(e.name@),
        listing_ordered(views(out@)),
    ensures
        p <= out@.len(),
        forall|j: int| 0 <= j < p ==> entry_before(out@[j]@, e@),
        forall|j: int| p <= j < out@.len() ==> entry_before(e@, out@[j]@),
{
    let mut p: usize = 0;
    while p < out.len()
        invariant
            p <= out@.len(),
            keys@.len() == out@.len(),
            forall|j: int| 0 <= j < out@.len() ==> keys@[j]@ == lower_of(out@[j].name@),
            key@ == lower_of(e.name@),
            forall|j: int| 0 <= j < p ==> entry_before(out@[j]@, e@),
        ensures
            p <= out@.len(),
            forall|j: int| 0 <= j < p ==> entry_before(out@[j]@, e@),
            p < out@.len() ==> !entry_before(out@[p as int]@, e@),
        decreases out@.len() - p,
    {
        let a = &out[p];
        let before = (a.is_directory && !e.is_directory) || (a.is_directory == e.is_directory
            && text_le_exec(keys[p].as_str(), key.as_str()));
        if !before {
            break;
        }
        p += 1;
    }
    proof {
        if p < out@.len() {
            lemma_entry_before_total(out@[p as int]@, e@);
            assert forall|j: int| p <= j < out@.len() implies entry_before(e@, out@[j]@) by {
                if j > p {
                    assert(views(out@)[p as int] == out@[p as int]@);
                    assert(views(out@)[j] == out@[j]@);
                    lemma_entry_before_trans(e@, out@[p as int]@, out@[j]@);
                }
            }
        }
    }
    p
}

/// The listing of a directory from its enumerated children: hidden children
/// are counted, and left out unless `include_hidden`; directories come before
/// files, each group in case-insensitive name order.
pub fn build_listing(path: &str, children: &Vec<ListedChild>, include_hidden: bool) -> (r:
    DirectoryListing)
    ensures
        r.path@ == path@,
        views(r.entries@).to_multiset() == kept_views(children@, include_hidden).to_multiset(),
        listing_ordered(views(r.entries@)),
        !include_hidden ==> forall|j: int|
            0 <= j < r.entries@.len() ==> !hidden_name(#[trigger] r.entries@[j].name@),
        r.total_count == r.entries@.len(),
        r.hidden_count == hidden_total(children@),
        r.error is None,
{
    let mut out: Vec<DirectoryEntry> = Vec::new();
    let mut keys: Vec<String> = Vec::new();
    let mut hidden: usize = 0;
    let mut i: usize = 0;
    while i < children.len()
        invariant
            i <= children@.len(),
            hidden <= i,
            hidden == hidden_total(children@.subrange(0, i as int)),
            keys@.len() == out@.len(),
            forall|j: int| 0 <= j < out@.len() ==> keys@[j]@ == lower_of(out@[j].name@),
            listing_ordered(views(out@)),
            views(out@).to_multiset() == kept_views(children@.subrange(0, i as int), include_hidden).to_multiset(),
            !include_hidden ==> forall|j: int|
                0 <= j < out@.len() ==> !hidden_name(#[trigger] out@[j].name@),
        decreases children@.len() - i,
    {
        let c = &children[i];
        let h = is_hidden_name(c.name.as_str());
        let ghost old_out = out@;
        let ghost prefix = children@.subrange(0, i + 1);
        proof {
            assert(prefix.drop_last() =~= children@.subrange(0, i as int));
            assert(prefix.last() == *c);
        }
        if h {
            hidden += 1;
        }
        if !h || include_hidden {
            match c.stat {
                Some(st) => {
                    let e = make_entry(c, st);
                    let key = to_lower(e.name.as_str());
                    let p = insert_position(&out, &keys, &e, &key);
                    out.insert(p, e);
                    keys.insert(p, key);
                    proof {
                        assert(views(out@) =~= views(old_out).insert(p as int, e@));
                        assert(views(old_out).insert(p as int, e@).to_multiset()
                            =~= views(old_out).to_multiset().insert(e@)) by {
                            vstd::seq_lib::to_multiset_insert(views(old_out), p as int, e@);
                        }
                        assert forall|a: int, b: int| 0 <= a < b < views(out@).len() implies entry_before(
                            views(out@)[a],
                            views(out@)[b],
                        ) by {
                            assert(views(old_out)[a] == old_out[a]@);
                            if a < p && b > p {
                                assert(views(old_out)[b - 1] == old_out[b - 1]@);
                            } else if a == p {
                                assert(views(old_out)[b - 1] == old_out[b - 1]@);
                            } else if a > p {
                                assert(views(old_out)[a - 1] == old_out[a - 1]@);
                                assert(views(old_out)[b - 1] == old_out[b - 1]@);
                            } else if b < p {
                                assert(views(old_out)[b] == old_out[b]@);
                            }
                        }
                        assert forall|j: int| 0 <= j < keys@.len() implies keys@[j]@ == lower_of(out@[j].name@) by {
                            if j < p {
                            } else if j > p {
                                assert(out@[j] == old_out[j - 1]);
                            }
                        }
                    }
                },
                None => {},
            }
        }
        proof {
            assert(children@.subrange(0, i + 1) =~= prefix);
        }
        i += 1;
    }
    proof {
        assert(children@.subrange(0, children@.len() as int) =~= children@);
    }
    let n = out.len();
    DirectoryListing {
        path: path.to_owned(),
        entries: out,
        total_count: n,
        hidden_count: hidden,
        error: None,
    }
}

} // verus!
