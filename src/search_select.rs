//! Picking one entry out of a list by typing part of its text: plain
//! substring search, or fuzzy search.
use fuzzy_matcher::skim::SkimMatcherV2;
use fuzzy_matcher::FuzzyMatcher;
use std::ops::Range;
use vstd::prelude::*;
use vstd::utf8::encode_utf8;

verus! {

/// Whether `sub` occurs in `s` starting at `i`.
pub open spec fn occurs_at(s: Seq<u8>, sub: Seq<u8>, i: int) -> bool {
    0 <= i && i + sub.len() <= s.len() && s.subrange(i, i + sub.len()) == sub
}

/// Whether `i` is the first place where `sub` occurs in `s`.
pub open spec fn first_occurrence(s: Seq<u8>, sub: Seq<u8>, i: int) -> bool {
    occurs_at(s, sub, i) && forall|j: int| 0 <= j < i ==> !occurs_at(s, sub, j)
}

/// Whether `q` occurs in `t` at `i`, where `i + q.len()` fits in `t`.
fn bytes_match_at(t: &[u8], q: &[u8], i: usize) -> (r: bool)
    requires
        i + q@.len() <= t@.len(),
    ensures
        r == occurs_at(t@, q@, i as int),
{
    let n: usize = t.len();
    let mut j: usize = 0;
    while j < q.len()
        invariant
            n == t@.len(),
            i + q@.len() <= t@.len(),
            j <= q@.len(),
            forall|k: int| 0 <= k < j ==> t@[i + k] == q@[k],
        decreases q@.len() - j,
    {
        if t[i + j] != q[j] {
            assert(t@.subrange(i as int, i + q@.len())[j as int] != q@[j as int]);
            return false;
        }
        j = j + 1;
    }
    assert(t@.subrange(i as int, i + q@.len()) =~= q@);
    true
}

/// The first place where `q` occurs in `t`, by trying each start in turn.
fn find_bytes(t: &[u8], q: &[u8]) -> (r: Option<usize>)
    ensures
        match r {
            Some(i) => first_occurrence(t@, q@, i as int),
            None => forall|j: int| !occurs_at(t@, q@, j),
        },
{
    if q.len() > t.len() {
        return None;
    }
    let last: usize = t.len() - q.len();
    let mut i: usize = 0;
    loop
        invariant
            last + q@.len() == t@.len(),
            i <= last,
            forall|j: int| 0 <= j < i ==> !occurs_at(t@, q@, j),
        decreases last - i,
    {
        if bytes_match_at(t, q, i) {
            return Some(i);
        }
        if i == last {
            return None;
        }
        i = i + 1;
    }
}

/// The byte index of the first occurrence of `pat` in `s`.
fn find_str(s: &str, pat: &str) -> (r: Option<usize>)
    ensures
        match r {
            Some(i) => first_occurrence(encode_utf8(s@), encode_utf8(pat@), i as int),
            None => forall|j: int| !occurs_at(encode_utf8(s@), encode_utf8(pat@), j),
        },
{
    find_bytes(s.as_bytes(), pat.as_bytes())
}

/// The byte range of the first occurrence of `substring` in `string`.
pub fn substring_range(string: &str, substring: &str) -> (r: Option<Range<usize>>)
    ensures
        match r {
            Some(range) => {
                &&& first_occurrence(encode_utf8(string@), encode_utf8(substring@), range.start as int)
                &&& range.end == range.start + encode_utf8(substring@).len()
            },
            None => forall|j: int| !occurs_at(encode_utf8(string@), encode_utf8(substring@), j),
        },
{
    match find_str(string, substring) {
        Some(si) => {
            // the match lies within `string`, whose length fits in a `usize`
            let _whole: usize = string.as_bytes().len();
            let len: usize = substring.as_bytes().len();
            Some(Range { start: si, end: si + len })
        },
        None => None,
    }
}

/// A match seen from outside: its score and the indices it highlights.
pub open spec fn match_view(r: Option<(i64, Vec<usize>)>) -> Option<(i64, Seq<usize>)> {
    match r {
        Some((score, idxs)) => Some((score, idxs@)),
        None => None,
    }
}

/// A way to match a query against one entry of a list.
pub trait SearchMethod {
    /// The score (higher is better) and the highlighted indices of the
    /// match of `queery_text` in `search_text`, or `None` where it does not
    /// match.
    spec fn matched(search_text: Seq<char>, queery_text: Seq<char>) -> Option<(i64, Seq<usize>)>;

    fn match_idxs(search_text: &str, queery_text: &str) -> (r: Option<(i64, Vec<usize>)>)
        ensures
            match_view(r) == Self::matched(search_text@, queery_text@),
    ;
}

/// The score of a plain match that starts at byte `start`: earlier is better.
pub open spec fn start_score(start: int) -> i64 {
    if start <= i64::MAX {
        (-start) as i64
    } else {
        i64::MIN
    }
}

/// The plain match of `query` in `text`: at the first occurrence, scored by
/// its start, highlighting the bytes it covers.
pub open spec fn plain_match(text: Seq<char>, query: Seq<char>) -> Option<(i64, Seq<usize>)> {
    let t = encode_utf8(text);
    let q = encode_utf8(query);
    if exists|i: int| occurs_at(t, q, i) {
        let i = choose|i: int| first_occurrence(t, q, i);
        Some((start_score(i), Seq::new(q.len(), |k: int| (i + k) as usize)))
    } else {
        None
    }
}

/// Plain substring search.
pub struct BasicSearch;

impl SearchMethod for BasicSearch {
    open spec fn matched(search_text: Seq<char>, queery_text: Seq<char>) -> Option<(i64, Seq<usize>)> {
        plain_match(search_text, queery_text)
    }

    fn match_idxs(search_text: &str, queery_text: &str) -> (r: Option<(i64, Vec<usize>)>) {
        let t = Ghost(encode_utf8(search_text@));
        let q = Ghost(encode_utf8(queery_text@));
        match substring_range(search_text, queery_text) {
            Some(range) => {
                let start = range.start;
                let score: i64 = if (start as u64) <= 0x7fff_ffff_ffff_ffffu64 {
                    -(start as i64)
                } else {
                    i64::MIN
                };
                let mut idxs: Vec<usize> = Vec::new();
                let mut k: usize = start;
                while k < range.end
                    invariant
                        start <= k <= range.end,
                        idxs@ == Seq::new((k - start) as nat, |j: int| (start + j) as usize),
                    decreases range.end - k,
                {
                    idxs.push(k);
                    k = k + 1;
                    assert(idxs@ =~= Seq::new((k - start) as nat, |j: int| (start + j) as usize));
                }
                proof {
                    assert(first_occurrence(t@, q@, start as int));
                    let i = choose|i: int| first_occurrence(t@, q@, i);
                    if i < start {
                        assert(!occurs_at(t@, q@, i));
                    }
                    if start < i {
                        assert(!occurs_at(t@, q@, start as int));
                    }
                    assert(i == start);
                    assert(idxs@ =~= Seq::new(q@.len(), |j: int| (i + j) as usize));
                    assert(score == start_score(i));
                    assert(plain_match(search_text@, queery_text@) == Some((score, idxs@)));
                }
                Some((score, idxs))
            },
            None => None,
        }
    }
}

pub uninterp spec fn skim_indices(choice: Seq<char>, pattern: Seq<char>) -> Option<(i64, Seq<usize>)>;

/// Relies on `SkimMatcherV2::fuzzy_indices` with the default settings: its
/// score and matched character indices depend on the two texts alone; an
/// empty pattern matches with score 0 and no indices.
#[verifier::external_body]
fn skim_fuzzy_indices(choice: &str, pattern: &str) -> (r: Option<(i64, Vec<usize>)>)
    ensures
        match_view(r) == skim_indices(choice@, pattern@),
        pattern@.len() == 0 ==> match_view(r) == Some((0i64, Seq::<usize>::empty())),
{
    SkimMatcherV2::default().fuzzy_indices(choice, pattern)
}

/// Fuzzy search in the manner of the skim finder.
pub struct FuzzySearch;

impl SearchMethod for FuzzySearch {
    open spec fn matched(search_text: Seq<char>, queery_text: Seq<char>) -> Option<(i64, Seq<usize>)> {
        skim_indices(search_text, queery_text)
    }

    fn match_idxs(search_text: &str, queery_text: &str) -> (r: Option<(i64, Vec<usize>)>) {
        skim_fuzzy_indices(search_text, queery_text)
    }
}

/// One entry of the list that matches the query.
pub struct Match {
    idx: usize,
    char_idxs: Vec<usize>,
    score: i64,
}

pub ghost struct MatchView {
    pub idx: nat,
    pub char_idxs: Seq<usize>,
    pub score: i64,
}

impl View for Match {
    type V = MatchView;

    closed spec fn view(&self) -> MatchView {
        MatchView { idx: self.idx as nat, char_idxs: self.char_idxs@, score: self.score }
    }
}

impl Match {
    /// The position of the entry in the list of options.
    pub fn idx(&self) -> (r: usize)
        ensures
            r == self@.idx,
    {
        self.idx
    }

    /// The indices of the entry that the query matched.
    pub fn char_idxs(&self) -> (r: &Vec<usize>)
        ensures
            r@ == self@.char_idxs,
    {
        &self.char_idxs
    }

    pub fn score(&self) -> (r: i64)
        ensures
            r == self@.score,
    {
        self.score
    }
}

/// The match of `query` in one option, by the method that `fuzzy` selects.
pub open spec fn match_of(fuzzy: bool, option: Seq<char>, query: Seq<char>) -> Option<(i64, Seq<usize>)> {
    if fuzzy {
        FuzzySearch::matched(option, query)
    } else {
        BasicSearch::matched(option, query)
    }
}

/// Where a match with score `score` goes in `s`, a list in ascending order
/// of score: after every entry that does not score higher.
pub open spec fn insert_pos(s: Seq<MatchView>, score: i64) -> nat
    decreases s.len(),
{
    if s.len() == 0 {
        0
    } else if score < s.last().score {
        insert_pos(s.drop_last(), score)
    } else {
        s.len()
    }
}

/// The matches of `query` among `options`, in ascending order of score;
/// equal scores keep the order of the options.
pub open spec fn ranked(fuzzy: bool, options: Seq<Seq<char>>, query: Seq<char>) -> Seq<MatchView>
    decreases options.len(),
{
    if options.len() == 0 {
        Seq::empty()
    } else {
        let before = ranked(fuzzy, options.drop_last(), query);
        match match_of(fuzzy, options.last(), query) {
            Some((score, idxs)) => before.insert(
                insert_pos(before, score) as int,
                MatchView { idx: (options.len() - 1) as nat, char_idxs: idxs, score },
            ),
            None => before,
        }
    }
}

/// Every option, in order, with score 0 and nothing highlighted.
pub open spec fn unfiltered(n: nat) -> Seq<MatchView> {
    Seq::new(n, |i: int| MatchView { idx: i as nat, char_idxs: Seq::empty(), score: 0 })
}

pub open spec fn texts(options: Seq<String>) -> Seq<Seq<char>> {
    options.map_values(|o: String| o@)
}

proof fn lemma_insert_pos_bound(s: Seq<MatchView>, score: i64)
    ensures
        insert_pos(s, score) <= s.len(),
    decreases s.len(),
{
    if s.len() > 0 {
        lemma_insert_pos_bound(s.drop_last(), score);
    }
}

/// Whether the matches are in ascending order of score.
pub open spec fn ascending(s: Seq<MatchView>) -> bool {
    forall|i: int, j: int| 0 <= i < j < s.len() ==> s[i].score <= s[j].score
}

proof fn lemma_insert_pos_splits(s: Seq<MatchView>, score: i64)
    requires
        ascending(s),
    ensures
        insert_pos(s, score) <= s.len(),
        forall|k: int| 0 <= k < insert_pos(s, score) ==> s[k].score <= score,
        forall|k: int| insert_pos(s, score) <= k < s.len() ==> score < s[k].score,
    decreases s.len(),
{
    if s.len() > 0 {
        let front = s.drop_last();
        assert(ascending(front)) by {
            assert forall|i: int, j: int| 0 <= i < j < front.len() implies front[i].score <= front[j].score by {
                assert(front[i] == s[i] && front[j] == s[j]);
            }
        }
        lemma_insert_pos_splits(front, score);
        let p = insert_pos(front, score) as int;
        if score >= s.last().score {
            assert forall|k: int| 0 <= k < s.len() implies s[k].score <= score by {
                if k < s.len() - 1 {
                    assert(s[k].score <= s[s.len() - 1].score);
                }
            }
        } else {
            assert(insert_pos(s, score) == p);
            assert forall|k: int| 0 <= k < p implies s[k].score <= score by {
                assert(front[k] == s[k]);
            }
            assert forall|k: int| p <= k < s.len() implies score < s[k].score by {
                if k < s.len() - 1 {
                    assert(front[k] == s[k]);
                }
            }
        }
    }
}

/// The matches of a query are listed in ascending order of score, so the
/// best one is last.
pub proof fn lemma_ranked_ascending(fuzzy: bool, options: Seq<Seq<char>>, query: Seq<char>)
    ensures
        ascending(ranked(fuzzy, options, query)),
    decreases options.len(),
{
    if options.len() > 0 {
        let before = ranked(fuzzy, options.drop_last(), query);
        lemma_ranked_ascending(fuzzy, options.drop_last(), query);
        match match_of(fuzzy, options.last(), query) {
            Some((score, idxs)) => {
                let m = MatchView { idx: (options.len() - 1) as nat, char_idxs: idxs, score };
                let p = insert_pos(before, score) as int;
                lemma_insert_pos_splits(before, score);
                let after = before.insert(p, m);
                assert forall|i: int, j: int| 0 <= i < j < after.len() implies after[i].score <= after[j].score by {
                    if j < p {
                    } else if j == p {
                        assert(before[i].score <= score);
                    } else if i < p {
                        assert(after[j] == before[j - 1]);
                        assert(before[i].score <= before[j - 1].score);
                    } else if i == p {
                        assert(after[j] == before[j - 1]);
                    } else {
                        assert(after[j] == before[j - 1]);
                        assert(after[i] == before[i - 1]);
                    }
                }
            },
            None => {},
        }
    }
}

/// Finds where a match with `score` goes in `cache`, from the back.
fn find_insert_pos(cache: &Vec<Match>, score: i64) -> (r: usize)
    ensures
        r == insert_pos(cache@.map_values(|m: Match| m@), score),
{
    let ghost views = cache@.map_values(|m: Match| m@);
    let mut p: usize = cache.len();
    assert(views.take(p as int) =~= views);
    while p > 0 && score < cache[p - 1].score
        invariant
            p <= cache.len(),
            views == cache@.map_values(|m: Match| m@),
            insert_pos(views, score) == insert_pos(views.take(p as int), score),
        decreases p,
    {
        assert(views.take(p as int).drop_last() =~= views.take(p - 1));
        p = p - 1;
    }
    p
}

/// A list of options together with what the search over it keeps from one
/// frame to the next: the query, the selection, and the matches.
pub struct TextSearch {
    options: Vec<String>,
    input: String,
    selected: Option<usize>,
    just_clicked: bool,
    pub display_selected: bool,
    pub fuzzy: bool,
    cache: Vec<Match>,
}

impl TextSearch {
    /// A selection points at an option.
    pub closed spec fn wf(&self) -> bool {
        self.selected is Some ==> self.selected->0 < self.options.len()
    }

    pub closed spec fn options_view(&self) -> Seq<String> {
        self.options@
    }

    pub closed spec fn input_view(&self) -> Seq<char> {
        self.input@
    }

    pub closed spec fn selected_view(&self) -> Option<usize> {
        self.selected
    }

    pub closed spec fn just_clicked_view(&self) -> bool {
        self.just_clicked
    }

    pub closed spec fn display_selected_view(&self) -> bool {
        self.display_selected
    }

    pub closed spec fn fuzzy_view(&self) -> bool {
        self.fuzzy
    }

    pub closed spec fn cache_view(&self) -> Seq<MatchView> {
        self.cache@.map_values(|m: Match| m@)
    }

    /// A search over `options` with an empty query and nothing selected.
    pub fn new(options: Vec<String>, fuzzy: bool) -> (r: Self)
        ensures
            r.wf(),
            r.options_view() == options@,
            r.input_view() == Seq::<char>::empty(),
            r.selected_view() is None,
            !r.just_clicked_view(),
            r.display_selected_view(),
            r.fuzzy_view() == fuzzy,
            r.cache_view() == Seq::<MatchView>::empty(),
    {
        let r = TextSearch {
            options,
            input: String::new(),
            selected: None,
            just_clicked: false,
            display_selected: true,
            fuzzy,
            cache: Vec::new(),
        };
        assert(r.cache_view() =~= Seq::<MatchView>::empty());
        r
    }

    pub fn options(&self) -> (r: &Vec<String>)
        ensures
            r@ == self.options_view(),
    {
        &self.options
    }

    pub fn input(&self) -> (r: &String)
        ensures
            r@ == self.input_view(),
    {
        &self.input
    }

    pub fn selected(&self) -> (r: &Option<usize>)
        ensures
            *r == self.selected_view(),
    {
        &self.selected
    }

    /// Whether an option was picked during the current frame.
    pub fn just_clicked(&self) -> (r: &bool)
        ensures
            *r == self.just_clicked_view(),
    {
        &self.just_clicked
    }

    /// The matches to show, in ascending order of score (they are shown
    /// best first, from the back).
    pub fn cache(&self) -> (r: &Vec<Match>)
        ensures
            r@.map_values(|m: Match| m@) == self.cache_view(),
    {
        &self.cache
    }

    /// A new frame begins: nothing has been picked in it yet.
    pub fn begin_frame(&mut self)
        ensures
            final(self).options_view() == old(self).options_view(),
            final(self).input_view() == old(self).input_view(),
            final(self).selected_view() == old(self).selected_view(),
            !final(self).just_clicked_view(),
            final(self).display_selected_view() == old(self).display_selected_view(),
            final(self).fuzzy_view() == old(self).fuzzy_view(),
            final(self).cache_view() == old(self).cache_view(),
            old(self).wf() ==> final(self).wf(),
    {
        self.just_clicked = false;
    }

    /// The query was edited: it becomes `input`, and the matches are computed
    /// anew, in ascending order of score.
    pub fn set_input(&mut self, input: String)
        ensures
            final(self).options_view() == old(self).options_view(),
            final(self).input_view() == input@,
            final(self).selected_view() == old(self).selected_view(),
            final(self).just_clicked_view() == old(self).just_clicked_view(),
            final(self).display_selected_view() == old(self).display_selected_view(),
            final(self).fuzzy_view() == old(self).fuzzy_view(),
            final(self).cache_view() == ranked(old(self).fuzzy_view(), texts(old(self).options_view()), input@),
            old(self).wf() ==> final(self).wf(),
    {
        self.input = input;
        let ghost opts = texts(self.options@);
        let mut cache: Vec<Match> = Vec::new();
        let mut i: usize = 0;
        assert(opts.take(0) =~= Seq::<Seq<char>>::empty());
        assert(cache@.map_values(|m: Match| m@) =~= Seq::<MatchView>::empty());
        while i < self.options.len()
            invariant
                i <= self.options.len(),
                opts == texts(self.options@),
                cache@.map_values(|m: Match| m@) == ranked(self.fuzzy, opts.take(i as int), self.input@),
            decreases self.options.len() - i,
        {
            let entry = self.options[i].as_str();
            let found = if self.fuzzy {
                FuzzySearch::match_idxs(entry, self.input.as_str())
            } else {
                BasicSearch::match_idxs(entry, self.input.as_str())
            };
            let ghost before = cache@.map_values(|m: Match| m@);
            assert(opts.take(i + 1).drop_last() =~= opts.take(i as int));
            assert(opts.take(i + 1).last() == self.options@[i as int]@);
            match found {
                Some((score, char_idxs)) => {
                    let p = find_insert_pos(&cache, score);
                    proof {
                        lemma_insert_pos_bound(before, score);
                    }
                    cache.insert(p, Match { idx: i, char_idxs, score });
                    assert(cache@.map_values(|m: Match| m@) =~= before.insert(
                        p as int,
                        MatchView { idx: i as nat, char_idxs: char_idxs@, score },
                    ));
                },
                None => {},
            }
            i = i + 1;
        }
        assert(opts.take(i as int) =~= opts);
        self.cache = cache;
    }

    /// With an empty query every option is shown, in order: where the
    /// query is empty and the matches do not number the options, they are
    /// replaced by every option with score 0. Otherwise nothing changes.
    pub fn fill_unfiltered(&mut self)
        ensures
            final(self).options_view() == old(self).options_view(),
            final(self).input_view() == old(self).input_view(),
            final(self).selected_view() == old(self).selected_view(),
            final(self).just_clicked_view() == old(self).just_clicked_view(),
            final(self).display_selected_view() == old(self).display_selected_view(),
            final(self).fuzzy_view() == old(self).fuzzy_view(),
            final(self).cache_view() == if old(self).input_view().len() == 0
                && old(self).cache_view().len() != old(self).options_view().len() {
                unfiltered(old(self).options_view().len())
            } else {
                old(self).cache_view()
            },
            old(self).wf() ==> final(self).wf(),
    {
        if self.input.as_str().is_empty() && self.cache.len() != self.options.len() {
            let n = self.options.len();
            let mut cache: Vec<Match> = Vec::new();
            let mut idx: usize = 0;
            while idx < n
                invariant
                    idx <= n,
                    cache@.map_values(|m: Match| m@) == unfiltered(idx as nat),
                decreases n - idx,
            {
                let none: Vec<usize> = Vec::new();
                assert(none@ =~= Seq::<usize>::empty());
                let entry = Match { idx, char_idxs: none, score: 0 };
                assert(entry@ == MatchView { idx: idx as nat, char_idxs: Seq::<usize>::empty(), score: 0 });
                let ghost before = cache@;
                cache.push(entry);
                assert(cache@ == before.push(entry));
                assert(cache@.map_values(|m: Match| m@) =~= before.map_values(|m: Match| m@).push(entry@));
                assert(unfiltered((idx + 1) as nat) =~= unfiltered(idx as nat).push(entry@));
                idx = idx + 1;
            }
            self.cache = cache;
        }
    }

    /// The option at `idx` was picked.
    pub fn select(&mut self, idx: usize)
        requires
            idx < old(self).options_view().len(),
        ensures
            final(self).options_view() == old(self).options_view(),
            final(self).input_view() == old(self).input_view(),
            final(self).selected_view() == Some(idx),
            final(self).just_clicked_view(),
            final(self).display_selected_view() == old(self).display_selected_view(),
            final(self).fuzzy_view() == old(self).fuzzy_view(),
            final(self).cache_view() == old(self).cache_view(),
            final(self).wf(),
    {
        self.selected = Some(idx);
        self.just_clicked = true;
    }
}

/// A list of items that can be searched by a text made from each item.
pub struct SearchSelection<I, F: Fn(&I) -> String> {
    items: Vec<I>,
    str_from_i: F,
    pub search: TextSearch,
}

impl<I, F: Fn(&I) -> String> SearchSelection<I, F> {
    pub closed spec fn items_view(&self) -> Seq<I> {
        self.items@
    }

    pub closed spec fn label_fn(&self) -> F {
        self.str_from_i
    }

    pub closed spec fn search_view(&self) -> TextSearch {
        self.search
    }

    /// The search is over the texts of the items, one option per item, and
    /// a text can be made of any item.
    pub open spec fn wf(&self) -> bool {
        &&& self.search_view().wf()
        &&& self.search_view().options_view().len() == self.items_view().len()
        &&& forall|i: &I| call_requires(self.label_fn(), (i,))
    }

    /// Whether `options` are the texts of `items`, one by one.
    pub open spec fn labels(f: F, items: Seq<I>, options: Seq<String>) -> bool {
        &&& options.len() == items.len()
        &&& forall|k: int| 0 <= k < items.len() ==> call_ensures(f, (&items[k],), #[trigger] options[k])
    }

    /// A selection over `items`, whose texts `str_from_i` makes.
    pub fn new(items: Vec<I>, str_from_i: F) -> (r: Self)
        requires
            forall|i: &I| call_requires(str_from_i, (i,)),
        ensures
            r.wf(),
            r.items_view() == items@,
            r.label_fn() == str_from_i,
            Self::labels(str_from_i, items@, r.search_view().options_view()),
            r.search_view().input_view() == Seq::<char>::empty(),
            r.search_view().selected_view() is None,
            !r.search_view().just_clicked_view(),
            !r.search_view().fuzzy_view(),
            r.search_view().display_selected_view(),
            r.search_view().cache_view() == Seq::<MatchView>::empty(),
    {
        let mut new = SearchSelection { items, str_from_i, search: TextSearch::new(Vec::new(), false) };
        new.reset_search_text();
        new
    }

    /// Makes the texts of the items anew and starts a fresh plain search over
    /// them.
    pub fn reset_search_text(&mut self)
        requires
            forall|i: &I| call_requires(old(self).label_fn(), (i,)),
        ensures
            final(self).wf(),
            final(self).items_view() == old(self).items_view(),
            final(self).label_fn() == old(self).label_fn(),
            Self::labels(final(self).label_fn(), final(self).items_view(), final(self).search_view().options_view()),
            final(self).search_view().input_view() == Seq::<char>::empty(),
            final(self).search_view().selected_view() is None,
            !final(self).search_view().just_clicked_view(),
            !final(self).search_view().fuzzy_view(),
            final(self).search_view().display_selected_view(),
            final(self).search_view().cache_view() == Seq::<MatchView>::empty(),
    {
        let mut options: Vec<String> = Vec::new();
        let mut k: usize = 0;
        while k < self.items.len()
            invariant
                k <= self.items.len(),
                forall|i: &I| call_requires(self.label_fn(), (i,)),
                options.len() == k,
                forall|j: int| 0 <= j < k ==> call_ensures(self.label_fn(), (&self.items@[j],), #[trigger] options@[j]),
            decreases self.items.len() - k,
        {
            let item = &self.items[k];
            assert(call_requires(self.label_fn(), (item,)));
            let text = (self.str_from_i)(item);
            options.push(text);
            k = k + 1;
        }
        self.search = TextSearch::new(options, false);
        assert(self.label_fn() == old(self).label_fn());
    }

    pub fn items(&self) -> (r: &Vec<I>)
        ensures
            r@ == self.items_view(),
    {
        &self.items
    }

    /// Changes the items with `items_mut_fn`, then makes their texts anew,
    /// keeping the query (the matches and the selection start afresh).
    pub fn mut_items_with<M: Fn(&mut Vec<I>)>(&mut self, items_mut_fn: M)
        requires
            forall|i: &I| call_requires(old(self).label_fn(), (i,)),
            forall|v: &mut Vec<I>| call_requires(items_mut_fn, (v,)),
        ensures
            final(self).wf(),
            final(self).label_fn() == old(self).label_fn(),
            Self::labels(final(self).label_fn(), final(self).items_view(), final(self).search_view().options_view()),
            exists|v: &mut Vec<I>| {
                &&& v@ == old(self).items_view()
                &&& call_ensures(items_mut_fn, (v,), ())
                &&& final(v)@ == final(self).items_view()
            },
            final(self).search_view().input_view() == old(self).search_view().input_view(),
            final(self).search_view().selected_view() is None,
            !final(self).search_view().fuzzy_view(),
            !final(self).search_view().just_clicked_view(),
            final(self).search_view().display_selected_view(),
            final(self).search_view().cache_view() == Seq::<MatchView>::empty(),
    {
        items_mut_fn(&mut self.items);
        assert(self.label_fn() == old(self).label_fn());
        let old_search = self.search.input.clone();
        self.reset_search_text();
        self.search.input = old_search;
    }

    /// The selected item, if any.
    pub fn get_selected_ref(&self) -> (r: Option<&I>)
        requires
            self.wf(),
        ensures
            match self.search_view().selected_view() {
                Some(i) => r == Some(&self.items_view()[i as int]),
                None => r is None,
            },
    {
        match self.search.selected {
            Some(i) => Some(&self.items[i]),
            None => None,
        }
    }

    /// The selected item, to be changed in place. Its text in the search
    /// stays as it was until `reset_search_text`.
    pub fn get_selected_mut(&mut self) -> (r: Option<&mut I>)
        requires
            old(self).wf(),
        ensures
            match old(self).search_view().selected_view() {
                Some(i) => {
                    &&& r is Some
                    &&& *r->0 == old(self).items_view()[i as int]
                    &&& final(self).items_view() == old(self).items_view().update(i as int, *final(r->0))
                },
                None => r is None && *final(self) == *old(self),
            },
            final(self).search_view() == old(self).search_view(),
            final(self).label_fn() == old(self).label_fn(),
    {
        match self.search.selected {
            Some(i) => Some(&mut self.items[i]),
            None => None,
        }
    }
}

impl<I: Clone, F: Fn(&I) -> String> SearchSelection<I, F> {
    /// A copy of the selected item, if any.
    pub fn get_selected(&self) -> (r: Option<I>)
        requires
            self.wf(),
        ensures
            match self.search_view().selected_view() {
                Some(i) => r is Some && call_ensures(I::clone, (&self.items_view()[i as int],), r->0),
                None => r is None,
            },
    {
        match self.get_selected_ref() {
            Some(item) => Some(item.clone()),
            None => None,
        }
    }
}

} // verus!
