//! The word list the rules consult: which word forms are attested and their
//! part of speech, the origin class of words, and the outer affixes of Nepali
//! words.
use vstd::prelude::*;

use crate::text::{chars_of, owned, str_eq};

verus! {

broadcast use vstd::string::group_string_axioms;

/// Origin class of a Nepali word.
#[derive(Debug, Clone, Copy, PartialEq, Eq, Structural)]
pub enum Origin {
    /// Borrowed unchanged from Sanskrit.
    Tatsam,
    /// Derived from Sanskrit through sound change.
    Tadbhav,
    /// Native Nepali.
    Deshaj,
    /// Loan word from another language.
    Aagantuk,
}

/// One attested word form.
#[derive(Debug, Clone)]
pub struct LexEntry {
    /// The word form.
    pub word: String,
    /// Part of speech, present when the form is a headword.
    pub pos: Option<String>,
}

/// The content of a [`LexEntry`].
pub ghost struct LexEntryView {
    pub word: Seq<char>,
    pub pos: Option<Seq<char>>,
}

impl View for LexEntry {
    type V = LexEntryView;

    open spec fn view(&self) -> LexEntryView {
        LexEntryView {
            word: self.word@,
            pos: match self.pos {
                Some(p) => Some(p@),
                None => None,
            },
        }
    }
}

/// A lexicon: attested word forms in order, plus the outer-affix tables used
/// to detach case markers, particles and plural markers from word forms.
#[derive(Debug, Clone)]
pub struct Lexicon {
    /// Attested word forms, in lookup order.
    pub entries: Vec<LexEntry>,
    /// Origin classes of words, in lookup order; a word need not be attested
    /// to be classified.
    pub origins: Vec<(String, Origin)>,
    /// Discourse particles (निपात) that attach at the end of a word.
    pub particles: Vec<String>,
    /// Case markers (विभक्ति) that attach after a stem.
    pub case_markers: Vec<String>,
    /// Plural markers.
    pub plural_markers: Vec<String>,
    /// Morphological analyses, in lookup order: a word form the analyser
    /// accepts, and the stem of its best analysis (the form itself when the
    /// analysis detaches no suffix).
    pub analyses: Vec<(String, String)>,
}

/// The entries of a lexicon, by content.
pub open spec fn entries_view(entries: Seq<LexEntry>) -> Seq<LexEntryView> {
    entries.map_values(|e: LexEntry| e@)
}

/// Index of the first entry at or after `i` whose word is `w`, or `-1`.
pub open spec fn first_word_from(es: Seq<LexEntryView>, w: Seq<char>, i: int) -> int
    decreases es.len() - i,
{
    if i < 0 || i >= es.len() {
        -1
    } else if es[i].word == w {
        i
    } else {
        first_word_from(es, w, i + 1)
    }
}

/// Index of the first entry at or after `i` whose word is `w` and which is a headword, or `-1`.
pub open spec fn first_headword_from(es: Seq<LexEntryView>, w: Seq<char>, i: int) -> int
    decreases es.len() - i,
{
    if i < 0 || i >= es.len() {
        -1
    } else if es[i].word == w && es[i].pos is Some {
        i
    } else {
        first_headword_from(es, w, i + 1)
    }
}

/// Origin records by content.
pub open spec fn origins_view(v: Seq<(String, Origin)>) -> Seq<(Seq<char>, Origin)> {
    v.map_values(|p: (String, Origin)| (p.0@, p.1))
}

/// Index of the first origin record at or after `i` for the word `w`, or `-1`.
pub open spec fn first_origin_from(os: Seq<(Seq<char>, Origin)>, w: Seq<char>, i: int) -> int
    decreases os.len() - i,
{
    if i < 0 || i >= os.len() {
        -1
    } else if os[i].0 == w {
        i
    } else {
        first_origin_from(os, w, i + 1)
    }
}

/// Analysis records by content.
pub open spec fn analyses_view(v: Seq<(String, String)>) -> Seq<(Seq<char>, Seq<char>)> {
    v.map_values(|p: (String, String)| (p.0@, p.1@))
}

/// Index of the first analysis record at or after `i` for the form `w`, or `-1`.
pub open spec fn first_analysis_from(rs: Seq<(Seq<char>, Seq<char>)>, w: Seq<char>, i: int) -> int
    decreases rs.len() - i,
{
    if i < 0 || i >= rs.len() {
        -1
    } else if rs[i].0 == w {
        i
    } else {
        first_analysis_from(rs, w, i + 1)
    }
}

/// `a` and `b` differ by at most one substituted, inserted or deleted char.
pub open spec fn within_one_edit(a: Seq<char>, b: Seq<char>) -> bool {
    ||| a == b
    ||| (a.len() == b.len() && exists|i: int|
        0 <= i < a.len() && #[trigger] a.take(i) == b.take(i) && a.skip(i + 1) == b.skip(i + 1))
    ||| (a.len() + 1 == b.len() && exists|i: int|
        0 <= i <= a.len() && a == #[trigger] b.take(i) + b.skip(i + 1))
    ||| (b.len() + 1 == a.len() && exists|i: int|
        0 <= i <= b.len() && b == #[trigger] a.take(i) + a.skip(i + 1))
}

/// Index of the first entry at or after `i` whose word is within one edit of `w`, or `-1`.
pub open spec fn first_near_from(es: Seq<LexEntryView>, w: Seq<char>, i: int) -> int
    decreases es.len() - i,
{
    if i < 0 || i >= es.len() {
        -1
    } else if within_one_edit(es[i].word, w) {
        i
    } else {
        first_near_from(es, w, i + 1)
    }
}

impl Lexicon {
    /// The entries, by content.
    pub open spec fn view_entries(&self) -> Seq<LexEntryView> {
        entries_view(self.entries@)
    }

    /// The word form `w` is attested.
    pub open spec fn has_word(&self, w: Seq<char>) -> bool {
        first_word_from(self.view_entries(), w, 0) >= 0
    }

    /// Part of speech of the first headword entry for `w`.
    pub open spec fn pos_of(&self, w: Seq<char>) -> Option<Seq<char>> {
        let i = first_headword_from(self.view_entries(), w, 0);
        if i < 0 {
            None
        } else {
            self.view_entries()[i].pos
        }
    }

    /// `w` is attested as a form or as a headword.
    pub open spec fn supports(&self, w: Seq<char>) -> bool {
        self.has_word(w) || self.pos_of(w) is Some
    }

    /// Origin recorded for `w`, by the first record for it.
    pub open spec fn origin_of(&self, w: Seq<char>) -> Option<Origin> {
        let i = first_origin_from(origins_view(self.origins@), w, 0);
        if i < 0 {
            None
        } else {
            Some(origins_view(self.origins@)[i].1)
        }
    }

    /// The stem of the best analysis of `w`, by the first record for it.
    pub open spec fn analysis_of(&self, w: Seq<char>) -> Option<Seq<char>> {
        let i = first_analysis_from(analyses_view(self.analyses@), w, 0);
        if i < 0 {
            None
        } else {
            Some(analyses_view(self.analyses@)[i].1)
        }
    }

    /// The analyser accepts the form `w`.
    pub open spec fn analyzable(&self, w: Seq<char>) -> bool {
        self.analysis_of(w) is Some
    }

    /// `w` is a form the checker can vouch for: attested as a form or a
    /// headword, or accepted by the morphological analyser.
    pub open spec fn accepts(&self, w: Seq<char>) -> bool {
        self.supports(w) || self.analyzable(w)
    }

    /// `w` is recorded as a tatsam word.
    pub open spec fn is_tatsam(&self, w: Seq<char>) -> bool {
        self.origin_of(w) == Some(Origin::Tatsam)
    }

    /// The first attested word within one edit of `w`.
    pub open spec fn nearby(&self, w: Seq<char>) -> Option<Seq<char>> {
        let i = first_near_from(self.view_entries(), w, 0);
        if i < 0 {
            None
        } else {
            Some(self.view_entries()[i].word)
        }
    }

    /// A lexicon with no entries and no affixes.
    pub fn new() -> (l: Lexicon)
        ensures
            l.entries@.len() == 0,
            l.origins@.len() == 0,
            l.particles@.len() == 0,
            l.case_markers@.len() == 0,
            l.plural_markers@.len() == 0,
            l.analyses@.len() == 0,
    {
        Lexicon {
            entries: Vec::new(),
            origins: Vec::new(),
            particles: Vec::new(),
            case_markers: Vec::new(),
            plural_markers: Vec::new(),
            analyses: Vec::new(),
        }
    }

    /// Appends an attested word form, with its part of speech when it is a headword.
    pub fn add_entry(&mut self, word: &str, pos: Option<&str>)
        ensures
            final(self).entries@.len() == old(self).entries@.len() + 1,
            final(self).entries@.take(old(self).entries@.len() as int) == old(self).entries@,
            final(self).entries@.last().word@ == word@,
            final(self).entries@.last().pos matches Some(p) ==> pos matches Some(q) && p@ == q@,
            final(self).entries@.last().pos is None <==> pos is None,
            final(self).origins == old(self).origins,
            final(self).particles == old(self).particles,
            final(self).case_markers == old(self).case_markers,
            final(self).plural_markers == old(self).plural_markers,
            final(self).analyses == old(self).analyses,
    {
        let p = match pos {
            Some(q) => Some(owned(q)),
            None => None,
        };
        self.entries.push(LexEntry { word: owned(word), pos: p });
        assert(self.entries@.take(old(self).entries@.len() as int) =~= old(self).entries@);
    }

    /// Appends a plain word form (no part of speech).
    pub fn add_word(&mut self, word: &str)
        ensures
            final(self).entries@.len() == old(self).entries@.len() + 1,
            final(self).entries@.take(old(self).entries@.len() as int) == old(self).entries@,
            final(self).entries@.last().word@ == word@,
            final(self).entries@.last().pos is None,
            final(self).origins == old(self).origins,
            final(self).particles == old(self).particles,
            final(self).case_markers == old(self).case_markers,
            final(self).plural_markers == old(self).plural_markers,
            final(self).analyses == old(self).analyses,
    {
        self.add_entry(word, None);
    }

    /// Records the origin class of `word` (after any record already there).
    pub fn add_origin(&mut self, word: &str, origin: Origin)
        ensures
            origins_view(final(self).origins@) == origins_view(old(self).origins@).push((word@, origin)),
            final(self).entries == old(self).entries,
            final(self).particles == old(self).particles,
            final(self).case_markers == old(self).case_markers,
            final(self).plural_markers == old(self).plural_markers,
            final(self).analyses == old(self).analyses,
    {
        let ghost before = self.origins@;
        self.origins.push((owned(word), origin));
        assert(origins_view(self.origins@) =~= origins_view(before).push((word@, origin)));
    }

    /// Records the best analysis of `form`: the stem its suffixes are detached
    /// from (after any record already there).
    pub fn add_analysis(&mut self, form: &str, stem: &str)
        ensures
            analyses_view(final(self).analyses@) == analyses_view(old(self).analyses@).push(
                (form@, stem@),
            ),
            final(self).entries == old(self).entries,
            final(self).origins == old(self).origins,
            final(self).particles == old(self).particles,
            final(self).case_markers == old(self).case_markers,
            final(self).plural_markers == old(self).plural_markers,
    {
        let ghost before = self.analyses@;
        self.analyses.push((owned(form), owned(stem)));
        assert(analyses_view(self.analyses@) =~= analyses_view(before).push((form@, stem@)));
    }

    /// The stem of the best analysis of `w`.
    pub fn best_analysis(&self, w: &str) -> (r: Option<String>)
        ensures
            match r {
                Some(st) => self.analysis_of(w@) == Some(st@),
                None => self.analysis_of(w@) is None,
            },
    {
        let mut i: usize = 0;
        while i < self.analyses.len()
            invariant
                i <= self.analyses@.len(),
                first_analysis_from(analyses_view(self.analyses@), w@, 0) == first_analysis_from(
                    analyses_view(self.analyses@),
                    w@,
                    i as int,
                ),
            decreases self.analyses.len() - i,
        {
            let e = &self.analyses[i];
            assert(analyses_view(self.analyses@)[i as int] == (e.0@, e.1@));
            if str_eq(e.0.as_str(), w) {
                return Some(owned(e.1.as_str()));
            }
            i = i + 1;
        }
        None
    }

    /// Whether the analyser accepts the form `w`.
    pub fn has_analysis(&self, w: &str) -> (r: bool)
        ensures
            r == self.analyzable(w@),
    {
        self.best_analysis(w).is_some()
    }

    /// Whether the checker can vouch for `w`: attested as a form or a
    /// headword, or accepted by the morphological analyser.
    pub fn is_accepted(&self, w: &str) -> (r: bool)
        ensures
            r == self.accepts(w@),
    {
        self.is_supported(w) || self.has_analysis(w)
    }

    /// Whether `w` is an attested word form.
    pub fn contains(&self, w: &str) -> (r: bool)
        ensures
            r == self.has_word(w@),
    {
        let mut i: usize = 0;
        while i < self.entries.len()
            invariant
                i <= self.entries@.len(),
                first_word_from(self.view_entries(), w@, 0) == first_word_from(
                    self.view_entries(),
                    w@,
                    i as int,
                ),
            decreases self.entries.len() - i,
        {
            if str_eq(self.entries[i].word.as_str(), w) {
                return true;
            }
            i = i + 1;
        }
        false
    }

    /// Part of speech of the first headword entry for `w`.
    pub fn lookup(&self, w: &str) -> (r: Option<String>)
        ensures
            match r {
                Some(p) => self.pos_of(w@) == Some(p@),
                None => self.pos_of(w@) is None,
            },
    {
        let mut i: usize = 0;
        while i < self.entries.len()
            invariant
                i <= self.entries@.len(),
                first_headword_from(self.view_entries(), w@, 0) == first_headword_from(
                    self.view_entries(),
                    w@,
                    i as int,
                ),
            decreases self.entries.len() - i,
        {
            let e = &self.entries[i];
            if str_eq(e.word.as_str(), w) {
                match &e.pos {
                    Some(p) => {
                        return Some(p.clone());
                    },
                    None => {},
                }
            }
            i = i + 1;
        }
        None
    }

    /// Whether `w` is attested as a form or as a headword.
    pub fn is_supported(&self, w: &str) -> (r: bool)
        ensures
            r == self.supports(w@),
    {
        self.contains(w) || self.lookup(w).is_some()
    }

    /// Origin class recorded for `w`.
    pub fn classify(&self, w: &str) -> (r: Option<Origin>)
        ensures
            r == self.origin_of(w@),
    {
        let mut i: usize = 0;
        while i < self.origins.len()
            invariant
                i <= self.origins@.len(),
                first_origin_from(origins_view(self.origins@), w@, 0) == first_origin_from(
                    origins_view(self.origins@),
                    w@,
                    i as int,
                ),
            decreases self.origins.len() - i,
        {
            let e = &self.origins[i];
            assert(origins_view(self.origins@)[i as int] == (e.0@, e.1));
            if str_eq(e.0.as_str(), w) {
                return Some(e.1);
            }
            i = i + 1;
        }
        None
    }

    /// Whether `w` is recorded as a tatsam word.
    pub fn tatsam(&self, w: &str) -> (r: bool)
        ensures
            r == self.is_tatsam(w@),
    {
        match self.classify(w) {
            Some(Origin::Tatsam) => true,
            _ => false,
        }
    }

    /// The first attested word within one edit of `w`.
    pub fn suggest_nearby(&self, w: &str) -> (r: Option<String>)
        ensures
            match r {
                Some(s) => self.nearby(w@) == Some(s@),
                None => self.nearby(w@) is None,
            },
    {
        let target = chars_of(w);
        let mut i: usize = 0;
        while i < self.entries.len()
            invariant
                i <= self.entries@.len(),
                target@ == w@,
                first_near_from(self.view_entries(), w@, 0) == first_near_from(
                    self.view_entries(),
                    w@,
                    i as int,
                ),
            decreases self.entries.len() - i,
        {
            let cand = chars_of(self.entries[i].word.as_str());
            if one_edit_apart(&cand, &target) {
                return Some(self.entries[i].word.clone());
            }
            i = i + 1;
        }
        None
    }
}

/// Length of the longest common prefix of `a` and `b`.
fn common_prefix_len(a: &Vec<char>, b: &Vec<char>) -> (n: usize)
    ensures
        n <= a.len(),
        n <= b.len(),
        a@.take(n as int) == b@.take(n as int),
        n < a.len() && n < b.len() ==> a@[n as int] != b@[n as int],
{
    let mut n: usize = 0;
    while n < a.len() && n < b.len() && a[n] == b[n]
        invariant
            n <= a.len(),
            n <= b.len(),
            a@.take(n as int) == b@.take(n as int),
        decreases a.len() - n,
    {
        assert(a@.take(n + 1) =~= a@.take(n as int).push(a@[n as int]));
        assert(b@.take(n + 1) =~= b@.take(n as int).push(b@[n as int]));
        n = n + 1;
    }
    n
}

/// Whether `x` and `y` are equal from index `i` of `x` and index `j` of `y` onwards.
fn tails_equal(x: &Vec<char>, i: usize, y: &Vec<char>, j: usize) -> (r: bool)
    requires
        i <= x.len(),
        j <= y.len(),
    ensures
        r == (x@.skip(i as int) == y@.skip(j as int)),
{
    if x.len() - i != y.len() - j {
        proof {
            if x@.skip(i as int) == y@.skip(j as int) {
                assert(x@.skip(i as int).len() == y@.skip(j as int).len());
            }
        }
        return false;
    }
    let mut k: usize = 0;
    while k < x.len() - i
        invariant
            i <= x.len(),
            j <= y.len(),
            x.len() - i == y.len() - j,
            k <= x.len() - i,
            forall|t: int| 0 <= t < k ==> #[trigger] x@.skip(i as int)[t] == y@.skip(j as int)[t],
        decreases x.len() - i - k,
    {
        if x[i + k] != y[j + k] {
            assert(x@.skip(i as int)[k as int] != y@.skip(j as int)[k as int]);
            return false;
        }
        k = k + 1;
    }
    assert(x@.skip(i as int) =~= y@.skip(j as int));
    true
}

/// Whether `a` and `b` are within one edit of each other.
fn one_edit_apart(a: &Vec<char>, b: &Vec<char>) -> (r: bool)
    ensures
        r == within_one_edit(a@, b@),
{
    let n = common_prefix_len(a, b);
    if a.len() == b.len() {
        if n == a.len() {
            assert(a@ =~= a@.take(n as int));
            assert(b@ =~= b@.take(n as int));
            return true;
        }
        let r = tails_equal(a, n + 1, b, n + 1);
        proof {
            if r {
                assert(a@.take(n as int) == b@.take(n as int));
            } else {
                assert forall|i: int|
                    0 <= i < a@.len() && #[trigger] a@.take(i) == b@.take(i) implies a@.skip(i + 1)
                    != b@.skip(i + 1) by {
                    if i < n {
                        assert(a@.skip(i + 1)[n - i - 1] == a@[n as int]);
                        assert(b@.skip(i + 1)[n - i - 1] == b@[n as int]);
                    } else if i > n {
                        assert(a@.take(i)[n as int] == a@[n as int]);
                        assert(b@.take(i)[n as int] == b@[n as int]);
                    }
                }
                if a@ == b@ {
                    assert(a@[n as int] == b@[n as int]);
                }
            }
        }
        return r;
    }
    if b.len() > a.len() && b.len() - a.len() == 1 {
        // `a` is `b` with one char removed.
        let r = tails_equal(a, n, b, n + 1);
        proof {
            if r {
                assert(a@ =~= b@.take(n as int) + b@.skip(n + 1)) by {
                    assert(a@ =~= a@.take(n as int) + a@.skip(n as int));
                }
            } else {
                assert forall|i: int| 0 <= i <= a@.len() implies a@ != #[trigger] b@.take(i) + b@.skip(
                    i + 1,
                ) by {
                    if a@ == b@.take(i) + b@.skip(i + 1) {
                        if i <= n {
                            assert(a@.skip(n as int) =~= b@.skip(n + 1));
                        } else {
                            assert(a@[n as int] == b@[n as int]);
                        }
                    }
                }
            }
        }
        return r;
    }
    if a.len() > b.len() && a.len() - b.len() == 1 {
        let r = tails_equal(a, n + 1, b, n);
        proof {
            if r {
                assert(b@ =~= a@.take(n as int) + a@.skip(n + 1)) by {
                    assert(b@ =~= b@.take(n as int) + b@.skip(n as int));
                }
            } else {
                assert forall|i: int| 0 <= i <= b@.len() implies b@ != #[trigger] a@.take(i) + a@.skip(
                    i + 1,
                ) by {
                    if b@ == a@.take(i) + a@.skip(i + 1) {
                        if i <= n {
                            assert(a@.skip(n + 1) =~= b@.skip(n as int));
                        } else {
                            assert(a@[n as int] == b@[n as int]);
                        }
                    }
                }
            }
        }
        return r;
    }
    false
}

} // verus!
