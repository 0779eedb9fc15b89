//! Quick search in the issue list: a query typed after '/', the issues that match
//! it, and stepping between the matches.
use vstd::prelude::*;

use crate::api::types::Issue;
use crate::text::{
    chars_occur_at, chars_slice, concat3, contains, copy_str, decimal, lowercase, occurs_at,
    pop_char, push_char, seq_contains, to_chars, to_decimal, to_lowercase,
};

verus! {

/// Whether an issue matches a lower-cased query: in its key, summary or status,
/// compared in lower case.
pub open spec fn issue_matches(issue: Issue, q: Seq<char>) -> bool {
    seq_contains(lowercase(issue.key@), q) || seq_contains(lowercase(issue.summary@), q)
        || seq_contains(lowercase(issue.status@), q)
}

/// The positions, in increasing order, of the first `n` issues that match `q`.
pub open spec fn matching_positions(issues: Seq<Issue>, q: Seq<char>, n: nat) -> Seq<usize>
    decreases n,
{
    if n == 0 {
        Seq::empty()
    } else {
        let rest = matching_positions(issues, q, (n - 1) as nat);
        if issue_matches(issues[n - 1], q) {
            rest.push((n - 1) as usize)
        } else {
            rest
        }
    }
}

/// The quick-search state.
#[derive(Debug, Clone)]
pub struct QuickSearch {
    /// The search query.
    pub query: String,
    /// Whether search input is active.
    pub active: bool,
    /// Positions of the matching issues, in list order.
    pub matches: Vec<usize>,
    /// Which of the matches is current.
    pub current_match: usize,
}

impl Default for QuickSearch {
    fn default() -> (s: QuickSearch)
        ensures
            s.wf(),
            s.query@.len() == 0,
            !s.active,
            s.matches@.len() == 0,
            s.current_match == 0,
    {
        QuickSearch::new()
    }
}

impl QuickSearch {
    /// The current match is a match, or is 0 when there are none.
    pub open spec fn wf(&self) -> bool {
        self.current_match < self.matches@.len() || (self.matches@.len() == 0
            && self.current_match == 0)
    }

    /// Create an inactive search with no query.
    pub fn new() -> (s: QuickSearch)
        ensures
            s.wf(),
            s.query@.len() == 0,
            !s.active,
            s.matches@.len() == 0,
            s.current_match == 0,
    {
        QuickSearch { query: String::new(), active: false, matches: Vec::new(), current_match: 0 }
    }

    /// Start search input with an empty query and no matches.
    pub fn activate(&mut self)
        ensures
            final(self).wf(),
            final(self).active,
            final(self).query@.len() == 0,
            final(self).matches@.len() == 0,
            final(self).current_match == 0,
    {
        self.active = true;
        self.query = String::new();
        self.matches = Vec::new();
        self.current_match = 0;
    }

    /// End search input, clearing the query and the matches.
    pub fn deactivate(&mut self)
        ensures
            final(self).wf(),
            !final(self).active,
            final(self).query@.len() == 0,
            final(self).matches@.len() == 0,
            final(self).current_match == 0,
    {
        self.active = false;
        self.query = String::new();
        self.matches = Vec::new();
        self.current_match = 0;
    }

    /// Whether search input is active.
    pub fn is_active(&self) -> (b: bool)
        ensures
            b == self.active,
    {
        self.active
    }

    /// Set whether search input is active, keeping query and matches.
    pub fn set_active(&mut self, active: bool)
        ensures
            *final(self) == (QuickSearch { active, ..*old(self) }),
    {
        self.active = active;
    }

    /// The search query.
    pub fn query(&self) -> (s: &str)
        ensures
            s@ == self.query@,
    {
        self.query.as_str()
    }

    /// Whether the query is empty.
    pub fn is_empty(&self) -> (b: bool)
        ensures
            b == (self.query@.len() == 0),
    {
        self.query.as_str().is_empty()
    }

    /// Append a character to the query.
    pub fn push_char(&mut self, c: char)
        ensures
            final(self).query@ == old(self).query@.push(c),
            final(self).active == old(self).active,
            final(self).matches == old(self).matches,
            final(self).current_match == old(self).current_match,
    {
        push_char(&mut self.query, c);
    }

    /// Remove and return the last character of the query.
    pub fn pop_char(&mut self) -> (r: Option<char>)
        ensures
            old(self).query@.len() == 0 ==> r is None && final(self).query@ == old(self).query@,
            old(self).query@.len() > 0 ==> r == Some(old(self).query@.last()) && final(self).query@
                == old(self).query@.drop_last(),
            final(self).active == old(self).active,
            final(self).matches == old(self).matches,
            final(self).current_match == old(self).current_match,
    {
        pop_char(&mut self.query)
    }

    /// Find the issues that match the query (none for an empty query); the current
    /// match is kept if it is still a match, else it goes back to the first.
    pub fn update_matches(&mut self, issues: &[Issue])
        ensures
            final(self).wf(),
            final(self).query == old(self).query,
            final(self).active == old(self).active,
            old(self).query@.len() == 0 ==> final(self).matches@.len() == 0 && final(self).current_match == 0,
            old(self).query@.len() > 0 ==> final(self).matches@ == matching_positions(
                issues@,
                lowercase(old(self).query@),
                issues@.len(),
            ),
            old(self).query@.len() > 0 ==> final(self).current_match == (if old(self).current_match
                < final(self).matches@.len() {
                old(self).current_match
            } else {
                0
            }),
    {
        if self.query.as_str().is_empty() {
            self.matches = Vec::new();
            self.current_match = 0;
            return;
        }
        let q = to_lowercase(self.query.as_str());
        let mut found: Vec<usize> = Vec::new();
        let mut i: usize = 0;
        while i < issues.len()
            invariant
                i <= issues@.len(),
                q@ == lowercase(self.query@),
                found@ == matching_positions(issues@, q@, i as nat),
            decreases issues.len() - i,
        {
            let issue = &issues[i];
            let key = to_lowercase(issue.key.as_str());
            let summary = to_lowercase(issue.summary.as_str());
            let status = to_lowercase(issue.status.as_str());
            if contains(key.as_str(), q.as_str()) || contains(summary.as_str(), q.as_str())
                || contains(status.as_str(), q.as_str()) {
                found.push(i);
            }
            i += 1;
        }
        self.matches = found;
        if self.current_match >= self.matches.len() {
            self.current_match = 0;
        }
    }

    /// Step to the next match, wrapping around; returns its position.
    pub fn next_match(&mut self) -> (r: Option<usize>)
        requires
            old(self).wf(),
        ensures
            final(self).wf(),
            final(self).query == old(self).query,
            final(self).active == old(self).active,
            final(self).matches == old(self).matches,
            old(self).matches@.len() == 0 ==> r is None && final(self).current_match == old(self).current_match,
            old(self).matches@.len() > 0 ==> final(self).current_match == (old(self).current_match + 1)
                % (old(self).matches@.len() as int) && r == Some(old(self).matches@[final(self).current_match as int]),
    {
        if self.matches.len() == 0 {
            return None;
        }
        self.current_match = (self.current_match + 1) % self.matches.len();
        Some(self.matches[self.current_match])
    }

    /// Step to the previous match, wrapping around; returns its position.
    pub fn prev_match(&mut self) -> (r: Option<usize>)
        requires
            old(self).wf(),
        ensures
            final(self).wf(),
            final(self).query == old(self).query,
            final(self).active == old(self).active,
            final(self).matches == old(self).matches,
            old(self).matches@.len() == 0 ==> r is None && final(self).current_match == old(self).current_match,
            old(self).matches@.len() > 0 ==> final(self).current_match == (if old(self).current_match == 0 {
                old(self).matches@.len() - 1
            } else {
                old(self).current_match - 1
            }) && r == Some(old(self).matches@[final(self).current_match as int]),
    {
        if self.matches.len() == 0 {
            return None;
        }
        if self.current_match == 0 {
            self.current_match = self.matches.len() - 1;
        } else {
            self.current_match = self.current_match - 1;
        }
        Some(self.matches[self.current_match])
    }

    /// The position of the current match, if there is one.
    pub fn current_match_index(&self) -> (r: Option<usize>)
        ensures
            r == (if self.current_match < self.matches@.len() {
                Some(self.matches@[self.current_match as int])
            } else {
                None
            }),
    {
        if self.current_match < self.matches.len() {
            Some(self.matches[self.current_match])
        } else {
            None
        }
    }

    /// Whether the issue at `index` is a match.
    pub fn is_match(&self, index: usize) -> (b: bool)
        ensures
            b == self.matches@.contains(index),
    {
        let mut i: usize = 0;
        while i < self.matches.len()
            invariant
                i <= self.matches@.len(),
                forall|j: int| 0 <= j < i ==> self.matches@[j] != index,
            decreases self.matches.len() - i,
        {
            if self.matches[i] == index {
                return true;
            }
            i += 1;
        }
        false
    }

    /// Whether the issue at `index` is the current match.
    pub fn is_current_match(&self, index: usize) -> (b: bool)
        ensures
            b == (self.current_match < self.matches@.len() && self.matches@[self.current_match as int]
                == index),
    {
        match self.current_match_index() {
            Some(i) => i == index,
            None => false,
        }
    }

    /// "No matches", or "current/total" with the current match counted from 1.
    pub fn match_info(&self) -> (s: String)
        requires
            self.wf(),
        ensures
            self.matches@.len() == 0 ==> s@ == "No matches"@,
            self.matches@.len() > 0 ==> s@ == decimal((self.current_match + 1) as nat) + "/"@
                + decimal(self.matches@.len()),
    {
        if self.matches.len() == 0 {
            copy_str("No matches")
        } else {
            let cur = to_decimal((self.current_match + 1) as u64);
            let total = to_decimal(self.matches.len() as u64);
            concat3(cur.as_str(), "/", total.as_str())
        }
    }

    /// The number of matches.
    pub fn match_count(&self) -> (n: usize)
        ensures
            n == self.matches@.len(),
    {
        self.matches.len()
    }

    /// The positions of the matching issues.
    pub fn matches(&self) -> (r: &[usize])
        ensures
            r@ == self.matches@,
    {
        self.matches.as_slice()
    }
}

/// Stepping to the next match and back returns to the same match.
pub proof fn law_next_then_prev(current: int, len: int)
    requires
        0 <= current < len,
    ensures
        ({
            let next = (current + 1) % len;
            let back = if next == 0 { len - 1 } else { next - 1 };
            back == current
        }),
{
    if current + 1 < len {
        vstd::arithmetic::div_mod::lemma_small_mod((current + 1) as nat, len as nat);
    } else {
        vstd::arithmetic::div_mod::lemma_mod_self_0(len);
    }
}

/// A piece of a highlighted line: its text and whether it is a match.
#[derive(Debug, Clone)]
pub struct HighlightSpan {
    /// The text of the piece, in the case of the original text.
    pub content: String,
    /// Whether the piece is a match of the query.
    pub highlighted: bool,
}

/// A line of text cut into plain pieces and matches of a query.
#[derive(Debug, Clone)]
pub struct HighlightedLine {
    /// The pieces, in order; together they spell the whole text.
    pub spans: Vec<HighlightSpan>,
}

/// The pieces of a line as (text, is a match) pairs.
pub open spec fn pieces_of(spans: Seq<HighlightSpan>) -> Seq<(Seq<char>, bool)> {
    spans.map_values(|p: HighlightSpan| (p.content@, p.highlighted))
}

/// The plain piece of `t` from `a` to `b`, if it is not empty.
pub open spec fn plain_piece(t: Seq<char>, a: int, b: int) -> Seq<(Seq<char>, bool)> {
    if a < b {
        seq![(t.subrange(a, b), false)]
    } else {
        Seq::empty()
    }
}

/// The pieces of `t` from `last` on, scanning for matches of `q` in the lower-cased
/// text `l` from position `j`: the leftmost matches that do not overlap, each cut out
/// of `t` at the same positions, with the plain text between them.
pub open spec fn scan_pieces(t: Seq<char>, l: Seq<char>, q: Seq<char>, last: int, j: int) -> Seq<
    (Seq<char>, bool),
>
    decreases l.len() - j,
{
    if q.len() == 0 || j < last || j + q.len() > l.len() {
        plain_piece(t, last, t.len() as int)
    } else if occurs_at(l, q, j) {
        plain_piece(t, last, j) + seq![(t.subrange(j, j + q.len()), true)] + scan_pieces(
            t,
            l,
            q,
            j + q.len(),
            j + q.len(),
        )
    } else {
        scan_pieces(t, l, q, last, j + 1)
    }
}

/// The highlighted line of `t` for the query `q`, given both in lower case as `l` and
/// `lq`: the whole text as one plain piece for an empty query or when nothing else
/// would be left, else the matches and the text between them.
pub open spec fn highlight_spec(t: Seq<char>, l: Seq<char>, q: Seq<char>, lq: Seq<char>) -> Seq<
    (Seq<char>, bool),
> {
    let p = if q.len() == 0 {
        Seq::empty()
    } else {
        scan_pieces(t, l, lq, 0, 0)
    };
    if p.len() == 0 {
        seq![(t, false)]
    } else {
        p
    }
}

/// Cut `text` into plain pieces and matches of `query`, where `text_lower` and
/// `query_lower` are the two in lower case with as many characters as before; a
/// match is found in lower case and cut out of the original text.
pub fn highlight_lowered(text: &str, text_lower: &str, query: &str, query_lower: &str) -> (line:
    HighlightedLine)
    requires
        text_lower@.len() == text@.len(),
        query_lower@.len() == query@.len(),
    ensures
        pieces_of(line.spans@) == highlight_spec(text@, text_lower@, query@, query_lower@),
{
    let t = to_chars(text);
    if query.is_empty() {
        let mut spans: Vec<HighlightSpan> = Vec::new();
        spans.push(HighlightSpan { content: copy_str(text), highlighted: false });
        proof {
            assert(pieces_of(spans@) =~= seq![(text@, false)]);
        }
        return HighlightedLine { spans };
    }
    let l = to_chars(text_lower);
    let q = to_chars(query_lower);
    let ln = l.len();
    let qn = q.len();
    let mut spans: Vec<HighlightSpan> = Vec::new();
    let mut last: usize = 0;
    let mut j: usize = 0;
    while j <= ln && ln - j >= qn
        invariant
            t@ == text@,
            l@ == text_lower@,
            q@ == query_lower@,
            ln == l@.len(),
            qn == q@.len(),
            ln == t@.len(),
            qn > 0,
            last <= j <= ln,
            pieces_of(spans@) + scan_pieces(t@, l@, q@, last as int, j as int) == scan_pieces(
                t@,
                l@,
                q@,
                0,
                0,
            ),
        decreases ln - j,
    {
        let ghost before = pieces_of(spans@);
        if chars_occur_at(&l, &q, j) {
            if last < j {
                spans.push(HighlightSpan { content: chars_slice(&t, last, j), highlighted: false });
            }
            spans.push(HighlightSpan { content: chars_slice(&t, j, j + qn), highlighted: true });
            proof {
                assert(pieces_of(spans@) =~= before + plain_piece(t@, last as int, j as int) + seq![
                    (t@.subrange(j as int, j + qn), true),
                ]);
            }
            j = j + qn;
            last = j;
        } else {
            j = j + 1;
        }
    }
    let ghost before = pieces_of(spans@);
    if last < ln {
        spans.push(HighlightSpan { content: chars_slice(&t, last, ln), highlighted: false });
    }
    proof {
        assert(pieces_of(spans@) =~= before + plain_piece(t@, last as int, ln as int));
        assert(scan_pieces(t@, l@, q@, 0, 0) == pieces_of(spans@));
    }
    if spans.len() == 0 {
        spans.push(HighlightSpan { content: copy_str(text), highlighted: false });
        proof {
            assert(pieces_of(spans@) =~= seq![(text@, false)]);
        }
    }
    HighlightedLine { spans }
}

/// Highlight the matches of `query` in `text`, ignoring case. Where lower-casing
/// changes the number of characters of either, the text comes back whole as one
/// plain piece.
pub fn highlight_text(text: &str, query: &str) -> (line: HighlightedLine)
    ensures
        lowercase(text@).len() == text@.len() && lowercase(query@).len() == query@.len() ==> pieces_of(
            line.spans@,
        ) == highlight_spec(text@, lowercase(text@), query@, lowercase(query@)),
        !(lowercase(text@).len() == text@.len() && lowercase(query@).len() == query@.len())
            ==> pieces_of(line.spans@) == seq![(text@, false)],
{
    let text_lower = to_lowercase(text);
    let query_lower = to_lowercase(query);
    if text_lower.as_str().unicode_len() == text.unicode_len() && query_lower.as_str().unicode_len()
        == query.unicode_len() {
        highlight_lowered(text, text_lower.as_str(), query, query_lower.as_str())
    } else {
        let mut spans: Vec<HighlightSpan> = Vec::new();
        spans.push(HighlightSpan { content: copy_str(text), highlighted: false });
        proof {
            assert(pieces_of(spans@) =~= seq![(text@, false)]);
        }
        HighlightedLine { spans }
    }
}

/// The text of a line: its pieces one after the other.
pub open spec fn spell(pieces: Seq<(Seq<char>, bool)>) -> Seq<char>
    decreases pieces.len(),
{
    if pieces.len() == 0 {
        Seq::empty()
    } else {
        spell(pieces.drop_last()) + pieces.last().0
    }
}

proof fn lemma_spell_concat(a: Seq<(Seq<char>, bool)>, b: Seq<(Seq<char>, bool)>)
    ensures
        spell(a + b) == spell(a) + spell(b),
    decreases b.len(),
{
    if b.len() == 0 {
        assert(a + b =~= a);
        assert(spell(a) + spell(b) =~= spell(a));
    } else {
        assert((a + b).drop_last() =~= a + b.drop_last());
        lemma_spell_concat(a, b.drop_last());
        assert(spell(a + b) =~= spell(a) + spell(b));
    }
}

proof fn lemma_spell_single(p: (Seq<char>, bool))
    ensures
        spell(seq![p]) == p.0,
{
    let one = seq![p];
    assert(one.drop_last() =~= Seq::<(Seq<char>, bool)>::empty());
    assert(spell(one.drop_last()) == Seq::<char>::empty());
    assert(spell(one) =~= p.0);
}

proof fn lemma_spell_plain(t: Seq<char>, a: int, b: int)
    requires
        0 <= a <= b <= t.len(),
    ensures
        spell(plain_piece(t, a, b)) == t.subrange(a, b),
{
    if a < b {
        lemma_spell_single((t.subrange(a, b), false));
    } else {
        assert(t.subrange(a, b) =~= Seq::<char>::empty());
    }
}

proof fn lemma_scan_spells(t: Seq<char>, l: Seq<char>, q: Seq<char>, last: int, j: int)
    requires
        l.len() == t.len(),
        0 <= last <= j,
        last <= t.len(),
    ensures
        spell(scan_pieces(t, l, q, last, j)) == t.subrange(last, t.len() as int),
    decreases l.len() - j,
{
    if q.len() == 0 || j < last || j + q.len() > l.len() {
        lemma_spell_plain(t, last, t.len() as int);
    } else if occurs_at(l, q, j) {
        let hit = seq![(t.subrange(j, j + q.len()), true)];
        lemma_scan_spells(t, l, q, j + q.len(), j + q.len());
        lemma_spell_plain(t, last, j);
        lemma_spell_concat(plain_piece(t, last, j), hit);
        lemma_spell_concat(
            plain_piece(t, last, j) + hit,
            scan_pieces(t, l, q, j + q.len(), j + q.len()),
        );
        lemma_spell_single((t.subrange(j, j + q.len()), true));
        assert(t.subrange(last, j) + t.subrange(j, j + q.len()) + t.subrange(
            j + q.len(),
            t.len() as int,
        ) =~= t.subrange(last, t.len() as int));
    } else {
        lemma_scan_spells(t, l, q, last, j + 1);
    }
}

/// Highlighting only marks text: the pieces of a highlighted line, one after the
/// other, give back the whole text, in its own case.
pub proof fn law_highlight_spells_text(t: Seq<char>, l: Seq<char>, q: Seq<char>, lq: Seq<char>)
    requires
        l.len() == t.len(),
    ensures
        spell(highlight_spec(t, l, q, lq)) == t,
{
    lemma_spell_single((t, false));
    if q.len() > 0 {
        lemma_scan_spells(t, l, lq, 0, 0);
        assert(t.subrange(0, t.len() as int) =~= t);
    }
}

/// The match reached from `current` after `k` steps to the next match.
pub open spec fn next_steps(current: int, len: int, k: nat) -> int
    decreases k,
{
    if k == 0 {
        current
    } else {
        (next_steps(current, len, (k - 1) as nat) + 1) % len
    }
}

/// The match reached from `current` after `k` steps to the previous match.
pub open spec fn prev_steps(current: int, len: int, k: nat) -> int
    decreases k,
{
    if k == 0 {
        current
    } else {
        let p = prev_steps(current, len, (k - 1) as nat);
        if p == 0 {
            len - 1
        } else {
            p - 1
        }
    }
}

proof fn lemma_next_steps(current: int, len: int, k: nat)
    requires
        0 <= current < len,
    ensures
        next_steps(current, len, k) == (current + k) % len,
        0 <= next_steps(current, len, k) < len,
    decreases k,
{
    if k == 0 {
        vstd::arithmetic::div_mod::lemma_fundamental_div_mod_converse(current, len, 0, current);
    } else {
        lemma_next_steps(current, len, (k - 1) as nat);
        let p = next_steps(current, len, (k - 1) as nat);
        let q = (current + k - 1) / len;
        vstd::arithmetic::div_mod::lemma_fundamental_div_mod(current + k - 1, len);
        if p + 1 < len {
            vstd::arithmetic::div_mod::lemma_fundamental_div_mod_converse(p + 1, len, 0, p + 1);
            vstd::arithmetic::div_mod::lemma_fundamental_div_mod_converse(current + k, len, q, p + 1);
        } else {
            vstd::arithmetic::div_mod::lemma_fundamental_div_mod_converse(p + 1, len, 1, 0);
            assert(current + k == (q + 1) * len) by (nonlinear_arith)
                requires
                    current + k - 1 == len * q + p,
                    p + 1 == len,
            ;
            vstd::arithmetic::div_mod::lemma_fundamental_div_mod_converse(current + k, len, q + 1, 0);
        }
    }
}

proof fn lemma_prev_steps(current: int, len: int, k: nat)
    requires
        0 <= current < len,
    ensures
        prev_steps(current, len, k) == (current - k) % len,
        0 <= prev_steps(current, len, k) < len,
    decreases k,
{
    if k == 0 {
        vstd::arithmetic::div_mod::lemma_fundamental_div_mod_converse(current, len, 0, current);
    } else {
        lemma_prev_steps(current, len, (k - 1) as nat);
        let p = prev_steps(current, len, (k - 1) as nat);
        let q = (current - k + 1) / len;
        vstd::arithmetic::div_mod::lemma_fundamental_div_mod(current - k + 1, len);
        if p == 0 {
            assert(current - k == (q - 1) * len + (len - 1)) by (nonlinear_arith)
                requires
                    current - k + 1 == len * q + p,
                    p == 0,
            ;
            vstd::arithmetic::div_mod::lemma_fundamental_div_mod_converse(current - k, len, q - 1, len - 1);
        } else {
            assert(current - k == q * len + (p - 1)) by (nonlinear_arith)
                requires
                    current - k + 1 == len * q + p,
            ;
            vstd::arithmetic::div_mod::lemma_fundamental_div_mod_converse(current - k, len, q, p - 1);
        }
    }
}

/// Stepping through the matches wraps around: as many steps to the next match, or
/// to the previous one, as there are matches return to the match one started on.
pub proof fn law_steps_wrap(current: int, len: int)
    requires
        0 <= current < len,
    ensures
        next_steps(current, len, len as nat) == current,
        prev_steps(current, len, len as nat) == current,
{
    lemma_next_steps(current, len, len as nat);
    lemma_prev_steps(current, len, len as nat);
    vstd::arithmetic::div_mod::lemma_fundamental_div_mod_converse(current + len, len, 1, current);
    vstd::arithmetic::div_mod::lemma_fundamental_div_mod_converse(current - len, len, -1, current);
}

} // verus!
