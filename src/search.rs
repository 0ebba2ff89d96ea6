//! Filtering the list of recently opened projects by a search text.
use vstd::prelude::*;
use vstd::string::StrSliceExecFns;

verus! {

/// A project that was opened before.
pub struct RecentProject {
    pub name: String,
    pub path: String,
    /// When it was last opened, in seconds since the Unix epoch (UTC).
    pub last_opened: i64,
}

/// `needle` occurs in `hay` as a contiguous run.
pub open spec fn seq_contains(hay: Seq<char>, needle: Seq<char>) -> bool {
    exists|i: int|
        0 <= i && i + needle.len() <= hay.len() && #[trigger] hay.subrange(i, i + needle.len())
            == needle
}

/// The lower-case form of `s` that `str::to_lowercase` gives.
pub uninterp spec fn lower_of(s: Seq<char>) -> Seq<char>;

/// Relies on `str::to_lowercase`: the result depends on the characters alone,
/// and the empty string stays empty.
#[verifier::external_body]
fn lowercase(s: &str) -> (r: String)
    ensures
        r@ == lower_of(s@),
        s@.len() == 0 ==> r@.len() == 0,
{
    s.to_lowercase()
}

fn chars_of(s: &str) -> (r: Vec<char>)
    ensures
        r@ == s@,
{
    let n = s.unicode_len();
    let mut out: Vec<char> = Vec::new();
    let mut i: usize = 0;
    while i < n
        invariant
            n == s@.len(),
            i <= n,
            out@ == s@.subrange(0, i as int),
        decreases n - i,
    {
        out.push(s.get_char(i));
        i += 1;
        assert(out@ =~= s@.subrange(0, i as int));
    }
    assert(s@.subrange(0, n as int) =~= s@);
    out
}

fn occurs_at(hay: &Vec<char>, needle: &Vec<char>, i: usize) -> (r: bool)
    requires
        i + needle@.len() <= hay@.len(),
    ensures
        r == (hay@.subrange(i as int, i + needle@.len()) == needle@),
{
    let hl = hay.len();
    let mut j: usize = 0;
    while j < needle.len()
        invariant
            hl == hay@.len(),
            i + needle@.len() <= hay@.len(),
            j <= needle@.len(),
            forall|k: int| 0 <= k < j ==> hay@[i + k] == needle@[k],
        decreases needle@.len() - j,
    {
        if hay[i + j] != needle[j] {
            assert(hay@.subrange(i as int, i + needle@.len())[j as int] != needle@[j as int]);
            return false;
        }
        j += 1;
    }
    assert(hay@.subrange(i as int, i + needle@.len()) =~= needle@);
    true
}

/// Whether `needle` occurs in `hay`.
pub fn contains_str(hay: &str, needle: &str) -> (r: bool)
    ensures
        r == seq_contains(hay@, needle@),
{
    let h = chars_of(hay);
    let n = chars_of(needle);
    if n.len() > h.len() {
        return false;
    }
    let last = h.len() - n.len();
    let mut i: usize = 0;
    while i <= last
        invariant
            h@ == hay@,
            n@ == needle@,
            last == h@.len() - n@.len(),
            i <= last + 1,
            forall|k: int| 0 <= k < i ==> #[trigger] h@.subrange(k, k + n@.len()) != n@,
        decreases last + 1 - i,
    {
        if occurs_at(&h, &n, i) {
            return true;
        }
        if i == last {
            return false;
        }
        i += 1;
    }
    false
}

/// Whether a project matches a search text, all three already in lower case:
/// the text occurs in its name or in its path.
pub fn matches_folded(query: &str, name: &str, path: &str) -> (r: bool)
    ensures
        r == (seq_contains(name@, query@) || seq_contains(path@, query@)),
{
    contains_str(name, query) || contains_str(path, query)
}

/// Whether a project matches a search text, ignoring case.
pub open spec fn matches_search_of(search: Seq<char>, p: RecentProject) -> bool {
    seq_contains(lower_of(p.name@), lower_of(search)) || seq_contains(
        lower_of(p.path@),
        lower_of(search),
    )
}

/// Name, path and time of a project, as plain values.
pub open spec fn entry_of(p: RecentProject) -> (Seq<char>, Seq<char>, i64) {
    (p.name@, p.path@, p.last_opened)
}

/// The entries of the first `n` projects that match `search`, in order.
pub open spec fn filtered_of(projects: Seq<RecentProject>, search: Seq<char>, n: int) -> Seq<
    (Seq<char>, Seq<char>, i64),
>
    decreases n,
{
    if n <= 0 {
        Seq::empty()
    } else if matches_search_of(search, projects[n - 1]) {
        filtered_of(projects, search, n - 1).push(entry_of(projects[n - 1]))
    } else {
        filtered_of(projects, search, n - 1)
    }
}

/// The projects, in order, whose name or path holds `search` ignoring case;
/// `None`, meaning no filter, for an empty search.
pub fn filter_recent_projects(projects: &Vec<RecentProject>, search: &str) -> (r: Option<
    Vec<RecentProject>,
>)
    ensures
        search@.len() == 0 <==> r is None,
        r matches Some(v) ==> v@.map_values(|p: RecentProject| entry_of(p)) == filtered_of(
            projects@,
            search@,
            projects@.len() as int,
        ),
{
    if search.unicode_len() == 0 {
        return None;
    }
    let query = lowercase(search);
    let mut out: Vec<RecentProject> = Vec::new();
    let mut i: usize = 0;
    while i < projects.len()
        invariant
            i <= projects@.len(),
            query@ == lower_of(search@),
            out@.map_values(|p: RecentProject| entry_of(p)) == filtered_of(
                projects@,
                search@,
                i as int,
            ),
        decreases projects@.len() - i,
    {
        let p = &projects[i];
        let name = lowercase(p.name.as_str());
        let path = lowercase(p.path.as_str());
        let ghost before = out@;
        if matches_folded(query.as_str(), name.as_str(), path.as_str()) {
            out.push(
                RecentProject { name: p.name.clone(), path: p.path.clone(), last_opened: p.last_opened },
            );
            assert(out@.map_values(|p: RecentProject| entry_of(p)) =~= before.map_values(
                |p: RecentProject| entry_of(p),
            ).push(entry_of(projects@[i as int])));
        }
        i += 1;
    }
    Some(out)
}

} // verus!
