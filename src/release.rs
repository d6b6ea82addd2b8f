//! Release descriptors, asset lookup and selection of stale install directories.

use vstd::prelude::*;
use vstd::string::*;

verus! {

/// One downloadable file attached to a release.
pub struct Asset {
    pub name: String,
    pub download_url: String,
}

/// The latest published release: its version and its assets.
pub struct Release {
    pub version: String,
    pub assets: Vec<Asset>,
}

/// The views of a sequence of strings.
pub open spec fn names_of(v: Seq<String>) -> Seq<Seq<char>> {
    v.map_values(|s: String| s@)
}

/// Index `i` holds the first asset of `assets` named `name`.
pub open spec fn is_first_match(assets: Seq<Asset>, name: Seq<char>, i: int) -> bool {
    &&& 0 <= i < assets.len()
    &&& assets[i].name@ == name
    &&& forall|j: int| 0 <= j < i ==> assets[j].name@ != name
}

/// No asset of `assets` is named `name`.
pub open spec fn has_no_match(assets: Seq<Asset>, name: Seq<char>) -> bool {
    forall|j: int| 0 <= j < assets.len() ==> assets[j].name@ != name
}

/// The prefix that every install directory name starts with.
pub open spec fn dir_prefix_spec() -> Seq<char> {
    "rumdl-"@
}

/// A working-directory entry that is an install directory other than `current`.
pub open spec fn is_stale(entry: Seq<char>, current: Seq<char>) -> bool {
    dir_prefix_spec().is_prefix_of(entry) && entry != current
}

/// The stale entries of `entries`, in their order.
pub open spec fn stale_of(entries: Seq<Seq<char>>, current: Seq<char>) -> Seq<Seq<char>>
    decreases entries.len(),
{
    if entries.len() == 0 {
        Seq::empty()
    } else {
        let rest = stale_of(entries.drop_last(), current);
        if is_stale(entries.last(), current) {
            rest.push(entries.last())
        } else {
            rest
        }
    }
}

/// Whether `s` begins with `prefix`.
pub fn starts_with(s: &str, prefix: &str) -> (r: bool)
    ensures
        r == prefix@.is_prefix_of(s@),
{
    let n = prefix.unicode_len();
    let m = s.unicode_len();
    if n > m {
        return false;
    }
    let mut i: usize = 0;
    while i < n
        invariant
            i <= n <= m,
            n == prefix@.len(),
            m == s@.len(),
            forall|j: int| 0 <= j < i ==> s@[j] == prefix@[j],
        decreases n - i,
    {
        if s.get_char(i) != prefix.get_char(i) {
            assert(s@.subrange(0, n as int)[i as int] != prefix@[i as int]);
            return false;
        }
        i += 1;
    }
    assert(prefix@ =~= s@.subrange(0, n as int));
    true
}

/// The index of the first asset named `name`, if there is one.
pub fn find_asset(assets: &Vec<Asset>, name: &String) -> (r: Option<usize>)
    ensures
        match r {
            Some(i) => is_first_match(assets@, name@, i as int),
            None => has_no_match(assets@, name@),
        },
{
    let mut i: usize = 0;
    while i < assets.len()
        invariant
            i <= assets@.len(),
            forall|j: int| 0 <= j < i ==> assets@[j].name@ != name@,
        decreases assets@.len() - i,
    {
        if assets[i].name == *name {
            return Some(i);
        }
        i += 1;
    }
    None
}

/// The entries of the working directory that are install directories of another
/// version than `current`, in the order listed.
pub fn stale_version_dirs(entries: &Vec<String>, current: &String) -> (r: Vec<String>)
    ensures
        names_of(r@) == stale_of(names_of(entries@), current@),
{
    let mut r: Vec<String> = Vec::new();
    let mut i: usize = 0;
    while i < entries.len()
        invariant
            i <= entries@.len(),
            names_of(r@) == stale_of(names_of(entries@).take(i as int), current@),
        decreases entries@.len() - i,
    {
        let entry = &entries[i];
        let stale = starts_with(entry.as_str(), "rumdl-") && *entry != *current;
        proof {
            reveal_strlit("rumdl-");
            let t = names_of(entries@).take(i as int + 1);
            assert(t.drop_last() =~= names_of(entries@).take(i as int));
            assert(t.last() == entry@);
        }
        if stale {
            r.push(entry.clone());
            assert(names_of(r@) =~= names_of(r@).drop_last().push(entry@));
        }
        assert(names_of(r@) =~= stale_of(names_of(entries@).take(i as int + 1), current@));
        i += 1;
    }
    assert(names_of(entries@).take(entries@.len() as int) =~= names_of(entries@));
    r
}

/// What is in the stale list is exactly what is stale among the entries.
pub proof fn lemma_stale_of_members(entries: Seq<Seq<char>>, current: Seq<char>, x: Seq<char>)
    ensures
        stale_of(entries, current).contains(x) <==> (entries.contains(x) && is_stale(x, current)),
    decreases entries.len(),
{
    if entries.len() > 0 {
        let init = entries.drop_last();
        lemma_stale_of_members(init, current, x);
        assert(entries =~= init.push(entries.last()));
        if entries.contains(x) && x != entries.last() {
            let k = choose|k: int| 0 <= k < entries.len() && entries[k] == x;
            assert(init[k] == x);
        }
        if init.contains(x) {
            let k = choose|k: int| 0 <= k < init.len() && init[k] == x;
            assert(entries[k] == x);
        }
        let rest = stale_of(init, current);
        if is_stale(entries.last(), current) {
            if rest.push(entries.last()).contains(x) && x != entries.last() {
                let k = choose|k: int| 0 <= k < rest.len() + 1 && rest.push(entries.last())[k] == x;
                assert(rest[k] == x);
            }
            if x == entries.last() {
                assert(rest.push(entries.last())[rest.len() as int] == x);
            }
            if rest.contains(x) {
                let k = choose|k: int| 0 <= k < rest.len() && rest[k] == x;
                assert(rest.push(entries.last())[k] == x);
            }
        }
        if x == entries.last() {
            assert(entries[entries.len() - 1] == x);
        }
    }
}

} // verus!
