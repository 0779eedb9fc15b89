//! The help bar: a line of key hints such as "[j/k] navigate  [?] help", split
//! into the keys (the bracketed parts, shown highlighted) and the text between.
use vstd::prelude::*;

use crate::text::{push_char, to_chars};

verus! {

/// A piece of the hint line.
#[derive(Debug, Clone, PartialEq, Eq)]
pub struct HintSpan {
    /// The text of the piece.
    pub text: String,
    /// Whether it is a key in brackets.
    pub is_key: bool,
}

/// A piece as data.
pub type SpanView = (Seq<char>, bool);

/// The pieces as data.
pub open spec fn span_views(v: Seq<HintSpan>) -> Seq<SpanView> {
    v.map_values(|s: HintSpan| (s.text@, s.is_key))
}

/// The state of the splitter: the finished pieces, the piece being read, and
/// whether an opening bracket was met and not yet closed.
pub type HintState = (Seq<SpanView>, Seq<char>, bool);

/// The splitter after reading one more character: '[' ends the text read so far
/// and starts a key; ']' ends a key that was started; any other character is
/// added to the piece being read.
pub open spec fn hint_step(st: HintState, c: char) -> HintState {
    let (spans, current, in_bracket) = st;
    if c == '[' {
        let flushed = if current.len() > 0 {
            spans.push((current, false))
        } else {
            spans
        };
        (flushed, seq![c], true)
    } else if c == ']' {
        if in_bracket {
            (spans.push((current.push(c), true)), Seq::empty(), false)
        } else {
            (spans, current.push(c), in_bracket)
        }
    } else {
        (spans, current.push(c), in_bracket)
    }
}

/// The splitter after reading `s`.
pub open spec fn hint_fold(s: Seq<char>) -> HintState
    decreases s.len(),
{
    if s.len() == 0 {
        (Seq::empty(), Seq::empty(), false)
    } else {
        hint_step(hint_fold(s.drop_last()), s.last())
    }
}

/// The pieces of a hint line: those finished, then what was left unread as text.
pub open spec fn hint_spans(s: Seq<char>) -> Seq<SpanView> {
    let (spans, current, _) = hint_fold(s);
    if current.len() > 0 {
        spans.push((current, false))
    } else {
        spans
    }
}

/// The texts of the pieces, one after the other.
pub open spec fn joined(spans: Seq<SpanView>) -> Seq<char>
    decreases spans.len(),
{
    if spans.len() == 0 {
        Seq::empty()
    } else {
        joined(spans.drop_last()) + spans.last().0
    }
}

/// Split a hint line into keys and text.
pub fn parse_hints_to_spans(hints: &str) -> (v: Vec<HintSpan>)
    ensures
        span_views(v@) == hint_spans(hints@),
{
    let chars = to_chars(hints);
    let mut spans: Vec<HintSpan> = Vec::new();
    let mut current = String::new();
    let mut in_bracket = false;
    let mut i: usize = 0;
    while i < chars.len()
        invariant
            i <= chars@.len(),
            chars@ == hints@,
            (span_views(spans@), current@, in_bracket) == hint_fold(chars@.take(i as int)),
        decreases chars.len() - i,
    {
        let c = chars[i];
        let ghost before = span_views(spans@);
        proof {
            assert(chars@.take(i + 1).drop_last() =~= chars@.take(i as int));
        }
        if c == '[' {
            if current.unicode_len() > 0 {
                spans.push(HintSpan { text: current, is_key: false });
                proof {
                    assert(span_views(spans@) =~= before.push((hint_fold(chars@.take(i as int)).1, false)));
                }
            }
            current = String::new();
            push_char(&mut current, c);
            proof {
                assert(current@ =~= seq![c]);
            }
            in_bracket = true;
        } else if c == ']' {
            push_char(&mut current, c);
            if in_bracket {
                spans.push(HintSpan { text: current, is_key: true });
                proof {
                    assert(span_views(spans@) =~= before.push((hint_fold(chars@.take(i as int)).1.push(c), true)));
                }
                current = String::new();
                in_bracket = false;
            }
        } else {
            push_char(&mut current, c);
        }
        i += 1;
    }
    proof {
        assert(chars@.take(chars@.len() as int) =~= chars@);
    }
    let ghost before = span_views(spans@);
    if current.unicode_len() > 0 {
        spans.push(HintSpan { text: current, is_key: false });
        proof {
            assert(span_views(spans@) =~= before.push((hint_fold(hints@).1, false)));
        }
    }
    spans
}

proof fn lemma_fold_joins(s: Seq<char>)
    ensures
        joined(hint_fold(s).0) + hint_fold(s).1 == s,
        forall|k: int| 0 <= k < hint_fold(s).0.len() ==> (#[trigger] hint_fold(s).0[k]).0.len() > 0,
        hint_fold(s).2 ==> hint_fold(s).1.len() > 0 && hint_fold(s).1[0] == '[',
    decreases s.len(),
{
    if s.len() > 0 {
        let d = s.drop_last();
        lemma_fold_joins(d);
        let (spans, current, in_bracket) = hint_fold(d);
        let c = s.last();
        assert(d.push(c) =~= s);
        if c == '[' {
            if current.len() > 0 {
                assert(spans.push((current, false)).drop_last() =~= spans);
                assert(joined(spans.push((current, false))) == joined(spans) + current);
            }
            assert(joined(spans) + current + seq![c] =~= d.push(c));
        } else if c == ']' && in_bracket {
            assert(spans.push((current.push(c), true)).drop_last() =~= spans);
            assert(joined(spans) + current.push(c) =~= d.push(c));
        } else {
            assert(joined(spans) + current.push(c) =~= d.push(c));
        }
    }
}

/// Splitting loses and adds nothing: the pieces, one after the other, are the
/// hint line, and no piece is empty.
pub proof fn law_spans_join_to_hints(s: Seq<char>)
    ensures
        joined(hint_spans(s)) == s,
        forall|k: int| 0 <= k < hint_spans(s).len() ==> (#[trigger] hint_spans(s)[k]).0.len() > 0,
{
    lemma_fold_joins(s);
    let (spans, current, _) = hint_fold(s);
    if current.len() > 0 {
        assert(spans.push((current, false)).drop_last() =~= spans);
    } else {
        assert(joined(spans) + current =~= joined(spans));
    }
}

} // verus!
