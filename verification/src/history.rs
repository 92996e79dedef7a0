//! The history lists and the rule by which an entry moves to the front.

use itertools::Itertools;
use vstd::prelude::*;

verus! {

/// Selects one of the three history lists.
#[derive(Clone, Copy, Debug, PartialEq, Eq, Structural)]
#[non_exhaustive]
pub enum HistoryType {
    WorkingFolder,
    Board,
    Scenario,
}

impl HistoryType {
    /// The number that stands for a kind wherever it is stored or sent.
    pub open spec fn spec_tag(self) -> u16 {
        match self {
            HistoryType::WorkingFolder => 1,
            HistoryType::Board => 2,
            HistoryType::Scenario => 3,
        }
    }

    /// The number that stands for this kind: 1, 2 or 3.
    pub fn tag(self) -> (r: u16)
        ensures
            r == self.spec_tag(),
    {
        match self {
            HistoryType::WorkingFolder => 1,
            HistoryType::Board => 2,
            HistoryType::Scenario => 3,
        }
    }

    /// The kind that `tag` stands for, if it stands for one.
    pub fn from_tag(tag: u16) -> (r: Option<HistoryType>)
        ensures
            match r {
                Some(kind) => kind.spec_tag() == tag,
                None => forall|kind: HistoryType| kind.spec_tag() != tag,
            },
    {
        if tag == 1 {
            Some(HistoryType::WorkingFolder)
        } else if tag == 2 {
            Some(HistoryType::Board)
        } else if tag == 3 {
            Some(HistoryType::Scenario)
        } else {
            None
        }
    }
}

/// Three lists of paths, most recently added first.
#[derive(Clone, Debug, PartialEq, Eq)]
pub struct History {
    pub working_folder: Vec<String>,
    pub board_file: Vec<String>,
    pub scenario_file: Vec<String>,
}

/// The persisted root object.
#[derive(Clone, Debug, PartialEq, Eq)]
pub struct ConfigData {
    pub history: History,
}

/// The paths of a list as texts, in order.
pub open spec fn path_list(list: &Vec<String>) -> Seq<Seq<char>> {
    list@.map_values(|s: String| s@)
}

/// What is left of `s` when only the first occurrence of each text stays.
pub open spec fn keep_first(s: Seq<Seq<char>>) -> Seq<Seq<char>>
    decreases s.len(),
{
    if s.len() == 0 {
        Seq::empty()
    } else {
        let kept = keep_first(s.drop_last());
        if kept.contains(s.last()) {
            kept
        } else {
            kept.push(s.last())
        }
    }
}

/// The test "is another text than `p`".
pub open spec fn other_than(p: Seq<char>) -> spec_fn(Seq<char>) -> bool {
    |x: Seq<char>| x != p
}

/// `p` in front, followed by the entries of `l` that differ from `p`.
pub open spec fn promote(l: Seq<Seq<char>>, p: Seq<char>) -> Seq<Seq<char>> {
    seq![p] + l.filter(other_than(p))
}

impl History {
    /// The list that `kind` selects.
    pub open spec fn entries(&self, kind: HistoryType) -> Seq<Seq<char>> {
        match kind {
            HistoryType::WorkingFolder => path_list(&self.working_folder),
            HistoryType::Board => path_list(&self.board_file),
            HistoryType::Scenario => path_list(&self.scenario_file),
        }
    }

    /// No path occurs twice in a list.
    pub open spec fn wf(&self) -> bool {
        &&& path_list(&self.working_folder).no_duplicates()
        &&& path_list(&self.board_file).no_duplicates()
        &&& path_list(&self.scenario_file).no_duplicates()
    }
}

impl ConfigData {
    /// The document with three empty lists.
    pub fn new() -> (r: ConfigData)
        ensures
            r.is_empty(),
            r.history.wf(),
    {
        let history = History {
            working_folder: Vec::new(),
            board_file: Vec::new(),
            scenario_file: Vec::new(),
        };
        ConfigData { history }
    }

    /// All three lists are empty.
    pub open spec fn is_empty(&self) -> bool {
        &&& self.history.working_folder@.len() == 0
        &&& self.history.board_file@.len() == 0
        &&& self.history.scenario_file@.len() == 0
    }
}

/// Calls itertools' `Itertools::unique` on the list's items, in order, and
/// collects what it yields. The adaptor yields an item when it meets its
/// value for the first time and skips every later occurrence, so the result
/// is the list with only first occurrences left, in their order.
#[verifier::external_body]
pub(crate) fn unique_paths(list: &Vec<String>) -> (r: Vec<String>)
    ensures
        path_list(&r) == keep_first(path_list(list)),
{
    list.clone().into_iter().unique().collect()
}

/// Puts `path` in front of `list` and drops every later occurrence of a path.
pub(crate) fn promote_path(list: &mut Vec<String>, path: String)
    ensures
        path_list(final(list)) == keep_first(seq![path@] + path_list(old(list))),
        path_list(final(list)).no_duplicates(),
        path_list(final(list)).len() > 0,
        path_list(final(list))[0] == path@,
        path_list(old(list)).no_duplicates() ==> path_list(final(list)) == promote(
            path_list(old(list)),
            path@,
        ),
{
    let ghost before = path_list(list);
    list.insert(0, path);
    assert(path_list(list) =~= seq![path@] + before);
    let unique = unique_paths(list);
    *list = unique;
    proof {
        lemma_keep_first_unique(seq![path@] + before);
        lemma_keep_first_head(seq![path@] + before);
        if before.no_duplicates() {
            lemma_keep_first_promotes(before, path@);
        }
    }
}

/// Filtering after a push looks at the pushed entry alone.
pub proof fn lemma_filter_push(s: Seq<Seq<char>>, x: Seq<char>, f: spec_fn(Seq<char>) -> bool)
    ensures
        s.push(x).filter(f) == if f(x) {
            s.filter(f).push(x)
        } else {
            s.filter(f)
        },
{
    reveal(Seq::filter);
    assert(s.push(x).drop_last() =~= s);
}

/// A filter that every entry passes changes nothing.
pub proof fn lemma_filter_all(s: Seq<Seq<char>>, f: spec_fn(Seq<char>) -> bool)
    requires
        forall|i: int| 0 <= i < s.len() ==> f(#[trigger] s[i]),
    ensures
        s.filter(f) == s,
    decreases s.len(),
{
    reveal(Seq::filter);
    if s.len() > 0 {
        lemma_filter_all(s.drop_last(), f);
        assert(s.drop_last().push(s.last()) =~= s);
    }
}

/// Keeping first occurrences loses no text and adds none.
pub proof fn lemma_keep_first_contains(s: Seq<Seq<char>>, x: Seq<char>)
    ensures
        keep_first(s).contains(x) <==> s.contains(x),
    decreases s.len(),
{
    if s.len() > 0 {
        let front = s.drop_last();
        let kept = keep_first(front);
        lemma_keep_first_contains(front, x);
        if s.contains(x) {
            let i = choose|i: int| 0 <= i < s.len() && s[i] == x;
            if i < s.len() - 1 {
                assert(front[i] == x);
                assert(front.contains(x));
                let j = choose|j: int| 0 <= j < kept.len() && kept[j] == x;
                assert(keep_first(s)[j] == x);
            } else if !kept.contains(x) {
                assert(keep_first(s)[kept.len() as int] == x);
            }
        }
        if keep_first(s).contains(x) {
            let j = choose|j: int| 0 <= j < keep_first(s).len() && keep_first(s)[j] == x;
            if j < kept.len() {
                assert(kept[j] == x);
                assert(kept.contains(x));
                let i = choose|i: int| 0 <= i < front.len() && front[i] == x;
                assert(s[i] == x);
            } else {
                assert(s[s.len() - 1] == x);
            }
        }
    }
}

/// Keeping first occurrences leaves no duplicate, and the same texts.
pub proof fn lemma_keep_first_unique(s: Seq<Seq<char>>)
    ensures
        keep_first(s).no_duplicates(),
        keep_first(s).len() <= s.len(),
        forall|x: Seq<char>| #[trigger] keep_first(s).contains(x) <==> s.contains(x),
    decreases s.len(),
{
    assert forall|x: Seq<char>| #[trigger] keep_first(s).contains(x) <==> s.contains(x) by {
        lemma_keep_first_contains(s, x);
    }
    if s.len() > 0 {
        lemma_keep_first_unique(s.drop_last());
    }
}

/// The first entry stays first.
pub proof fn lemma_keep_first_head(s: Seq<Seq<char>>)
    requires
        s.len() > 0,
    ensures
        keep_first(s).len() > 0,
        keep_first(s)[0] == s[0],
    decreases s.len(),
{
    if s.len() > 1 {
        lemma_keep_first_head(s.drop_last());
    } else {
        assert(s.drop_last().len() == 0);
        assert(keep_first(s.drop_last()).len() == 0);
    }
}

/// On a list without duplicates, adding in front and keeping first
/// occurrences moves the path to the front and leaves the others in order.
pub proof fn lemma_keep_first_promotes(l: Seq<Seq<char>>, p: Seq<char>)
    requires
        l.no_duplicates(),
    ensures
        keep_first(seq![p] + l) == promote(l, p),
    decreases l.len(),
{
    let s = seq![p] + l;
    let f = other_than(p);
    reveal(Seq::filter);
    if l.len() == 0 {
        assert(s.drop_last().len() == 0);
        assert(keep_first(s.drop_last()) =~= Seq::empty());
        assert(s.last() == p);
        assert(keep_first(s) =~= seq![p]);
        assert(promote(l, p) =~= seq![p]);
    } else {
        let front = l.drop_last();
        let x = l.last();
        assert(s.drop_last() =~= seq![p] + front);
        assert(s.last() == x);
        lemma_keep_first_promotes(front, p);
        let kept = keep_first(seq![p] + front);
        assert(kept == seq![p] + front.filter(f));
        if x == p {
            assert(kept[0] == x);
            assert(kept.contains(x));
        } else {
            if kept.contains(x) {
                let j = choose|j: int| 0 <= j < kept.len() && kept[j] == x;
                assert(j > 0);
                assert(front.filter(f)[j - 1] == x);
                assert(front.filter(f).contains(x));
                front.lemma_filter_contains_rev(f, x);
                let i = choose|i: int| 0 <= i < front.len() && front[i] == x;
                assert(l[i] == l[l.len() - 1]);
            }
            assert(kept.push(x) =~= seq![p] + front.filter(f).push(x));
        }
    }
}

/// A path that the list lacks is put in front of it.
pub proof fn lemma_promote_new(l: Seq<Seq<char>>, p: Seq<char>)
    requires
        !l.contains(p),
    ensures
        promote(l, p) == seq![p] + l,
{
    lemma_filter_all(l, other_than(p));
}

/// A path that the list holds once moves to the front, and the entries
/// before and after it keep their order.
pub proof fn lemma_promote_present(pre: Seq<Seq<char>>, post: Seq<Seq<char>>, p: Seq<char>)
    requires
        !pre.contains(p),
        !post.contains(p),
    ensures
        promote(pre + seq![p] + post, p) == seq![p] + pre + post,
{
    let f = other_than(p);
    Seq::filter_distributes_over_add(pre + seq![p], post, f);
    Seq::filter_distributes_over_add(pre, seq![p], f);
    lemma_filter_push(Seq::empty(), p, f);
    assert(Seq::<Seq<char>>::empty().push(p) =~= seq![p]);
    assert(Seq::<Seq<char>>::empty().filter(f) =~= Seq::empty()) by {
        reveal(Seq::filter);
    }
    lemma_filter_all(pre, f);
    lemma_filter_all(post, f);
    assert(pre + Seq::<Seq<char>>::empty() + post =~= pre + post);
    assert(seq![p] + (pre + post) =~= seq![p] + pre + post);
}

/// Adding the same path twice in a row gives the list that adding it once
/// gives: the same entries, with the path in front.
pub proof fn lemma_add_twice(l: Seq<Seq<char>>, p: Seq<char>)
    ensures
        ({
            let once = keep_first(seq![p] + l);
            let twice = keep_first(seq![p] + once);
            &&& once.len() > 0
            &&& once[0] == p
            &&& twice == once
            &&& twice.to_set() == once.to_set()
        }),
{
    let once = keep_first(seq![p] + l);
    lemma_keep_first_unique(seq![p] + l);
    lemma_keep_first_head(seq![p] + l);
    lemma_keep_first_promotes(once, p);
    let tail = once.drop_first();
    assert(Seq::<Seq<char>>::empty() + seq![p] + tail =~= once);
    assert(!tail.contains(p)) by {
        if tail.contains(p) {
            let i = choose|i: int| 0 <= i < tail.len() && tail[i] == p;
            assert(once[i + 1] == once[0]);
        }
    }
    lemma_promote_present(Seq::empty(), tail, p);
    assert(seq![p] + Seq::<Seq<char>>::empty() + tail =~= once);
}

/// Adding a path that a list without duplicates lacks puts it in front and
/// leaves a list without duplicates.
pub proof fn lemma_add_new(l: Seq<Seq<char>>, p: Seq<char>)
    requires
        l.no_duplicates(),
        !l.contains(p),
    ensures
        keep_first(seq![p] + l) == seq![p] + l,
        (seq![p] + l).no_duplicates(),
{
    lemma_keep_first_promotes(l, p);
    lemma_promote_new(l, p);
    let s = seq![p] + l;
    assert forall|i: int, j: int| 0 <= i < s.len() && 0 <= j < s.len() && i != j implies s[i]
        != s[j] by {
        if i > 0 && j > 0 {
            assert(l[i - 1] != l[j - 1]);
        } else if i > 0 {
            assert(l.contains(l[i - 1]));
        } else {
            assert(l.contains(l[j - 1]));
        }
    }
}

/// Adding `b` and then `a`, both new to a list and different, puts `a`
/// first and `b` second; adding `b` once more swaps the two and leaves the
/// rest as it was.
pub proof fn lemma_add_order(l: Seq<Seq<char>>, a: Seq<char>, b: Seq<char>)
    requires
        l.no_duplicates(),
        !l.contains(a),
        !l.contains(b),
        a != b,
    ensures
        ({
            let first = keep_first(seq![b] + l);
            let second = keep_first(seq![a] + first);
            let third = keep_first(seq![b] + second);
            &&& first == seq![b] + l
            &&& second == seq![a, b] + l
            &&& third == seq![b, a] + l
        }),
{
    let first = seq![b] + l;
    lemma_add_new(l, b);
    assert(!first.contains(a)) by {
        if first.contains(a) {
            let i = choose|i: int| 0 <= i < first.len() && first[i] == a;
            assert(l[i - 1] == a);
        }
    }
    let second = seq![a] + first;
    lemma_add_new(first, a);
    assert(second =~= seq![a, b] + l);
    assert(second =~= seq![a] + seq![b] + l);
    lemma_keep_first_promotes(second, b);
    assert(!seq![a].contains(b)) by {
        if seq![a].contains(b) {
            let i = choose|i: int| 0 <= i < seq![a].len() && seq![a][i] == b;
            assert(seq![a][i] == a);
        }
    }
    lemma_promote_present(seq![a], l, b);
    assert(seq![b] + seq![a] + l =~= seq![b, a] + l);
}

} // verus!
