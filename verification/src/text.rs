//! Grapheme-aware, whitespace-preserving text measurement.
//!
//! The text of a leaf node is tokenized into words with their trailing
//! whitespace, then folded greedily into lines under a maximum width, where
//! width is counted in extended grapheme clusters.  The measurement entry
//! point answers "how large is this text" under the sizing modes the
//! box-layout engine offers.
use vstd::prelude::*;

use unicode_segmentation::UnicodeSegmentation;

verus! {

/// Whether `c` has the Unicode `White_Space` property, the same set of
/// characters that `char::is_whitespace` recognizes.
pub open spec fn is_ws(c: char) -> bool {
    c == ' ' || c == '\t' || c == '\n' || c == '\u{b}' || c == '\u{c}' || c == '\r'
        || c == '\u{85}' || c == '\u{a0}' || c == '\u{1680}' || ('\u{2000}' <= c && c
        <= '\u{200a}') || c == '\u{2028}' || c == '\u{2029}' || c == '\u{202f}' || c == '\u{205f}'
        || c == '\u{3000}'
}

/// Executable test for the Unicode `White_Space` property.
pub fn is_whitespace_char(c: char) -> (r: bool)
    ensures
        r == is_ws(c),
{
    c == ' ' || c == '\t' || c == '\n' || c == '\u{b}' || c == '\u{c}' || c == '\r'
        || c == '\u{85}' || c == '\u{a0}' || c == '\u{1680}' || ('\u{2000}' <= c && c
        <= '\u{200a}') || c == '\u{2028}' || c == '\u{2029}' || c == '\u{202f}' || c == '\u{205f}'
        || c == '\u{3000}'
}

/// The number of extended grapheme clusters in a sequence of characters.
/// Left abstract: it is fixed by the Unicode segmentation rules, which are
/// not restated here; the characters alone determine it.
pub uninterp spec fn grapheme_count(s: Seq<char>) -> nat;

/// Relies on unicode_segmentation's `UnicodeSegmentation::graphemes` (with
/// extended clusters) and `Iterator::count`: the clusters of a string
/// partition it, so how many there are depends on the characters alone, and
/// there are none exactly when the string is empty.
#[verifier::external_body]
pub fn graphemes_count(text: &Vec<char>) -> (n: usize)
    ensures
        n as nat == grapheme_count(text@),
        (n == 0) <==> text@.len() == 0,
{
    let s: String = text.iter().collect();
    s.graphemes(true).count()
}

/// Relies on std's `FromIterator` impl for `String`: collecting characters
/// yields the string of exactly those characters in order.
#[verifier::external_body]
pub fn string_from_chars(chars: &Vec<char>) -> (s: String)
    ensures
        s@ == chars@,
{
    chars.iter().collect()
}

/// The characters of `text`, one by one.
pub fn to_chars(text: &str) -> (v: Vec<char>)
    ensures
        v@ == text@,
{
    let n = text.unicode_len();
    let mut v: Vec<char> = Vec::new();
    let mut i: usize = 0;
    while i < n
        invariant
            n == text@.len(),
            i <= n,
            v@ == text@.take(i as int),
        decreases n - i,
    {
        let c = text.get_char(i);
        v.push(c);
        proof {
            assert(v@ =~= text@.take(i + 1int));
        }
        i = i + 1;
    }
    proof {
        assert(text@.take(n as int) =~= text@);
    }
    v
}

/// The length of the longest prefix of `s` made of non-whitespace
/// characters.
pub open spec fn word_run(s: Seq<char>) -> nat
    decreases s.len(),
{
    if s.len() == 0 {
        0
    } else if is_ws(s[0]) {
        0
    } else {
        (1 + word_run(s.skip(1))) as nat
    }
}

/// The length of the longest prefix of `s` made of whitespace characters.
pub open spec fn ws_run(s: Seq<char>) -> nat
    decreases s.len(),
{
    if s.len() == 0 {
        0
    } else if !is_ws(s[0]) {
        0
    } else {
        (1 + ws_run(s.skip(1))) as nat
    }
}

pub proof fn lemma_word_run_le(s: Seq<char>)
    ensures
        word_run(s) <= s.len(),
    decreases s.len(),
{
    if s.len() > 0 && !is_ws(s[0]) {
        lemma_word_run_le(s.skip(1));
    }
}

pub proof fn lemma_ws_run_le(s: Seq<char>)
    ensures
        ws_run(s) <= s.len(),
    decreases s.len(),
{
    if s.len() > 0 && is_ws(s[0]) {
        lemma_ws_run_le(s.skip(1));
    }
}

/// A run is exactly `n` characters long when the first `n` characters
/// satisfy the run's test and the character after them (if any) does not.
pub proof fn lemma_word_run_value(s: Seq<char>, n: int)
    requires
        0 <= n <= s.len(),
        forall|j: int| 0 <= j < n ==> !is_ws(s[j]),
        n == s.len() || is_ws(s[n]),
    ensures
        word_run(s) == n,
    decreases n,
{
    if n == 0 {
    } else {
        assert(!is_ws(s[0]));
        lemma_word_run_value(s.skip(1), n - 1);
    }
}

pub proof fn lemma_ws_run_value(s: Seq<char>, n: int)
    requires
        0 <= n <= s.len(),
        forall|j: int| 0 <= j < n ==> is_ws(s[j]),
        n == s.len() || !is_ws(s[n]),
    ensures
        ws_run(s) == n,
    decreases n,
{
    if n == 0 {
    } else {
        assert(is_ws(s[0]));
        lemma_ws_run_value(s.skip(1), n - 1);
    }
}

/// Every character inside the leading whitespace run is whitespace.
pub proof fn lemma_ws_run_chars(s: Seq<char>)
    ensures
        forall|j: int| 0 <= j < ws_run(s) ==> is_ws(s[j]),
    decreases s.len(),
{
    lemma_ws_run_le(s);
    if s.len() > 0 && is_ws(s[0]) {
        lemma_ws_run_chars(s.skip(1));
        assert forall|j: int| 0 <= j < ws_run(s) implies is_ws(s[j]) by {
            if j > 0 {
                assert(is_ws(s.skip(1)[j - 1]));
            }
        }
    }
}

/// The tokens of `s`: each a maximal run of non-whitespace characters paired
/// with the number of whitespace characters that follow it.  If `s` begins
/// with whitespace, the first token carries an empty word; the final word
/// carries any trailing whitespace.  Joining every `word + ' ' * count` back
/// together reproduces a text whose whitespace was all spaces.
pub open spec fn split_spec(s: Seq<char>) -> Seq<(Seq<char>, nat)>
    decreases s.len(),
    via split_spec_dec
{
    if s.len() == 0 {
        Seq::empty()
    } else {
        let w = word_run(s) as int;
        let k = ws_run(s.skip(w)) as int;
        seq![(s.take(w), ws_run(s.skip(w)))] + split_spec(s.skip(w + k))
    }
}

#[via_fn]
proof fn split_spec_dec(s: Seq<char>) {
    if s.len() > 0 {
        split_step_facts(s);
    }
}

/// The facts that drive one unfolding of `split_spec`: the word and
/// whitespace runs fit inside `s` and consume at least one character.
pub proof fn split_step_facts(s: Seq<char>)
    requires
        s.len() > 0,
    ensures
        word_run(s) + ws_run(s.skip(word_run(s) as int)) <= s.len(),
        word_run(s) + ws_run(s.skip(word_run(s) as int)) >= 1,
{
    let w = word_run(s) as int;
    lemma_word_run_le(s);
    lemma_ws_run_le(s.skip(w));
    if w == 0 {
        assert(is_ws(s[0]));
        assert(s.skip(0) =~= s);
        assert(ws_run(s) >= 1);
    }
}

/// The number of whitespace-delimited words in `s`: tokens whose word part
/// is non-empty.
pub open spec fn words_count(s: Seq<char>) -> nat {
    split_spec(s).filter(|t: (Seq<char>, nat)| t.0.len() > 0).len()
}

/// When `s` does not begin with whitespace, every token of `split_spec(s)`
/// carries a non-empty word, so the token count is the word count.
pub proof fn lemma_split_all_words(s: Seq<char>)
    requires
        s.len() == 0 || !is_ws(s[0]),
    ensures
        forall|i: int| 0 <= i < split_spec(s).len() ==> (#[trigger] split_spec(s)[i]).0.len() > 0,
        words_count(s) == split_spec(s).len(),
    decreases s.len(),
{
    let toks = split_spec(s);
    if s.len() == 0 {
        reveal_with_fuel(vstd::seq::Seq::filter, 2);
        assert(toks =~= Seq::<(Seq<char>, nat)>::empty());
    } else {
        let w = word_run(s) as int;
        let k = ws_run(s.skip(w)) as int;
        split_step_facts(s);
        assert(w >= 1);
        let rest = s.skip(w + k);
        if rest.len() > 0 {
            assert(!is_ws(rest[0])) by {
                assert(rest[0] == s.skip(w)[k]);
                lemma_ws_run_stops(s.skip(w));
            }
        }
        lemma_split_all_words(rest);
        assert forall|i: int| 0 <= i < toks.len() implies (#[trigger] toks[i]).0.len() > 0 by {
            if i == 0 {
                assert(toks[0].0 == s.take(w));
            } else {
                assert(toks[i] == split_spec(rest)[i - 1]);
            }
        }
        lemma_filter_all(toks);
    }
}

/// A whitespace run stops right before a non-whitespace character.
proof fn lemma_ws_run_stops(s: Seq<char>)
    requires
        ws_run(s) < s.len(),
    ensures
        !is_ws(s[ws_run(s) as int]),
    decreases s.len(),
{
    if s.len() > 0 && is_ws(s[0]) {
        lemma_ws_run_stops(s.skip(1));
    }
}

/// Filtering a sequence whose elements all pass keeps its length.
proof fn lemma_filter_all(toks: Seq<(Seq<char>, nat)>)
    requires
        forall|i: int| 0 <= i < toks.len() ==> (#[trigger] toks[i]).0.len() > 0,
    ensures
        toks.filter(|t: (Seq<char>, nat)| t.0.len() > 0).len() == toks.len(),
    decreases toks.len(),
{
    reveal_with_fuel(vstd::seq::Seq::filter, 2);
    if toks.len() > 0 {
        lemma_filter_all(toks.drop_last());
    }
}

/// The length of the word run of `chars` that starts at `from`.
fn word_run_from(chars: &Vec<char>, from: usize) -> (n: usize)
    requires
        from <= chars@.len(),
    ensures
        n == word_run(chars@.skip(from as int)),
        from + n <= chars@.len(),
{
    let len = chars.len();
    let mut i: usize = from;
    loop
        invariant
            from <= i <= len,
            len == chars@.len(),
            forall|j: int| from <= j < i ==> !is_ws(chars@[j]),
        ensures
            from <= i <= len,
            forall|j: int| from <= j < i ==> !is_ws(chars@[j]),
            i == len || is_ws(chars@[i as int]),
        decreases len - i,
    {
        if i < len {
            if !is_whitespace_char(chars[i]) {
                i = i + 1;
            } else {
                break ;
            }
        } else {
            break ;
        }
    }
    proof {
        let tail = chars@.skip(from as int);
        assert forall|j: int| 0 <= j < i - from implies !is_ws(tail[j]) by {
            assert(tail[j] == chars@[from + j]);
        }
        if i < len {
            assert(tail[i - from] == chars@[i as int]);
        }
        lemma_word_run_value(tail, i - from);
    }
    i - from
}

/// The length of the whitespace run of `chars` that starts at `from`.
fn ws_run_from(chars: &Vec<char>, from: usize) -> (n: usize)
    requires
        from <= chars@.len(),
    ensures
        n == ws_run(chars@.skip(from as int)),
        from + n <= chars@.len(),
{
    let len = chars.len();
    let mut i: usize = from;
    loop
        invariant
            from <= i <= len,
            len == chars@.len(),
            forall|j: int| from <= j < i ==> is_ws(chars@[j]),
        ensures
            from <= i <= len,
            forall|j: int| from <= j < i ==> is_ws(chars@[j]),
            i == len || !is_ws(chars@[i as int]),
        decreases len - i,
    {
        if i < len {
            if is_whitespace_char(chars[i]) {
                i = i + 1;
            } else {
                break ;
            }
        } else {
            break ;
        }
    }
    proof {
        let tail = chars@.skip(from as int);
        assert forall|j: int| 0 <= j < i - from implies is_ws(tail[j]) by {
            assert(tail[j] == chars@[from + j]);
        }
        if i < len {
            assert(tail[i - from] == chars@[i as int]);
        }
        lemma_ws_run_value(tail, i - from);
    }
    i - from
}

/// The token sequence of a token vector, as the specification sees it.
pub open spec fn toks_model(toks: Seq<(Vec<char>, usize)>) -> Seq<(Seq<char>, nat)> {
    toks.map_values(|t: (Vec<char>, usize)| (t.0@, t.1 as nat))
}

/// The token sequence of a string-token vector, as the specification sees
/// it.
pub open spec fn stoks_model(toks: Seq<(String, usize)>) -> Seq<(Seq<char>, nat)> {
    toks.map_values(|t: (String, usize)| (t.0@, t.1 as nat))
}

/// The tokens of a character vector: maximal non-whitespace words, each with
/// the count of whitespace characters that follow it.
pub fn split_chars(chars: &Vec<char>) -> (toks: Vec<(Vec<char>, usize)>)
    ensures
        toks_model(toks@) == split_spec(chars@),
{
    let len = chars.len();
    let mut toks: Vec<(Vec<char>, usize)> = Vec::new();
    let mut i: usize = 0;
    proof {
        assert(chars@.skip(0) =~= chars@);
        assert(toks_model(toks@) =~= Seq::<(Seq<char>, nat)>::empty());
    }
    while i < len
        invariant
            i <= len,
            len == chars@.len(),
            split_spec(chars@) == toks_model(toks@) + split_spec(chars@.skip(i as int)),
        decreases len - i,
    {
        let w = word_run_from(chars, i);
        let end = i + w;
        let k = ws_run_from(chars, end);
        let mut word: Vec<char> = Vec::new();
        let mut j: usize = i;
        while j < end
            invariant
                i <= j <= end,
                end == i + w,
                end <= chars@.len(),
                word@ == chars@.subrange(i as int, j as int),
            decreases end - j,
        {
            word.push(chars[j]);
            proof {
                assert(word@ =~= chars@.subrange(i as int, j + 1int));
            }
            j = j + 1;
        }
        proof {
            let tail = chars@.skip(i as int);
            split_step_facts(tail);
            assert(tail.skip(1).len() < tail.len());
            assert(word_run(tail) == w);
            assert(tail.skip(w as int) =~= chars@.skip(i + w));
            assert(ws_run(tail.skip(w as int)) == k);
            assert(tail.take(w as int) =~= chars@.subrange(i as int, i + w));
            assert(tail.skip(w + k) =~= chars@.skip(i + w + k));
            assert(split_spec(tail) == seq![(word@, k as nat)] + split_spec(
                chars@.skip(i + w + k),
            ));
            assert(toks_model(toks@.push((word, k))) =~= toks_model(toks@) + seq![
                (word@, k as nat),
            ]);
            assert(toks_model(toks@) + (seq![(word@, k as nat)] + split_spec(
                chars@.skip(i + w + k),
            )) =~= (toks_model(toks@) + seq![(word@, k as nat)]) + split_spec(
                chars@.skip(i + w + k),
            ));
        }
        toks.push((word, k));
        i = i + w + k;
    }
    proof {
        assert(chars@.skip(len as int) =~= Seq::<char>::empty());
        assert(split_spec(Seq::<char>::empty()) =~= Seq::<(Seq<char>, nat)>::empty());
        assert(toks_model(toks@) + Seq::<(Seq<char>, nat)>::empty() =~= toks_model(toks@));
    }
    toks
}

/// The tokens of `text`: each word of the text paired with the number of
/// whitespace characters that follow it, a leading empty word standing for
/// leading whitespace.
pub fn split_with_whitespaces(text: &str) -> (r: Vec<(String, usize)>)
    ensures
        stoks_model(r@) == split_spec(text@),
{
    let chars = to_chars(text);
    let toks = split_chars(&chars);
    let mut out: Vec<(String, usize)> = Vec::new();
    let mut i: usize = 0;
    proof {
        assert(stoks_model(out@) =~= toks_model(toks@).take(0));
    }
    while i < toks.len()
        invariant
            i <= toks@.len(),
            stoks_model(out@) == toks_model(toks@).take(i as int),
        decreases toks@.len() - i,
    {
        let s = string_from_chars(&toks[i].0);
        let k = toks[i].1;
        let ghost prev = out@;
        out.push((s, k));
        proof {
            assert(out@ == prev.push((s, k)));
            assert(stoks_model(out@) =~= stoks_model(prev).push((s@, k as nat)));
            assert((s@, k as nat) == toks_model(toks@)[i as int]);
            assert(stoks_model(out@) =~= toks_model(toks@).take(i + 1int));
        }
        i = i + 1;
    }
    proof {
        assert(toks_model(toks@).take(toks@.len() as int) =~= toks_model(toks@));
    }
    out
}

/// The sequence of `' '` repeated `n` times.
pub open spec fn spaces(n: nat) -> Seq<char> {
    Seq::new(n, |i: int| ' ')
}

/// The text that a token sequence stands for: every word followed by its
/// whitespace count in spaces.
pub open spec fn rejoin(toks: Seq<(Seq<char>, nat)>) -> Seq<char>
    decreases toks.len(),
{
    if toks.len() == 0 {
        Seq::empty()
    } else {
        toks[0].0 + spaces(toks[0].1) + rejoin(toks.skip(1))
    }
}

/// Whether every whitespace character of `s` is the plain space character.
pub open spec fn space_only_ws(s: Seq<char>) -> bool {
    forall|i: int| 0 <= i < s.len() && is_ws(#[trigger] s[i]) ==> s[i] == ' '
}

/// Tokenization round-trip: rejoining the tokens of `s` reproduces `s`
/// exactly, for every string whose whitespace is made of plain spaces
/// (other whitespace characters come back as spaces, so they are left out).
pub proof fn lemma_split_rejoin(s: Seq<char>)
    requires
        space_only_ws(s),
    ensures
        rejoin(split_spec(s)) == s,
    decreases s.len(),
{
    if s.len() == 0 {
        assert(rejoin(split_spec(s)) =~= s);
    } else {
        let w = word_run(s) as int;
        let k = ws_run(s.skip(w)) as int;
        split_step_facts(s);
        let rest = s.skip(w + k);
        assert(space_only_ws(rest)) by {
            assert(forall|i: int|
                0 <= i < rest.len() && is_ws(#[trigger] rest[i]) ==> rest[i] == s[w + k + i]
                    && rest[i] == ' ');
        }
        lemma_split_rejoin(rest);
        let toks = split_spec(s);
        assert(toks == seq![(s.take(w), k as nat)] + split_spec(rest));
        assert(toks[0] == (s.take(w), k as nat));
        assert(toks.skip(1) =~= split_spec(rest));
        assert(rejoin(toks) == s.take(w) + spaces(k as nat) + rejoin(split_spec(rest)));
        lemma_ws_run_chars(s.skip(w));
        assert forall|j: int| 0 <= j < k implies #[trigger] s.subrange(w, w + k)[j] == ' ' by {
            assert(s.subrange(w, w + k)[j] == s[w + j]);
            assert(s.skip(w)[j] == s[w + j]);
            assert(is_ws(s.skip(w)[j]));
        }
        assert(s.subrange(w, w + k) =~= spaces(k as nat));
        assert(s.take(w) + spaces(k as nat) + rejoin(split_spec(rest)) =~= s) by {
            assert(rejoin(split_spec(rest)) == rest);
            assert(forall|j: int| 0 <= j < k ==> #[trigger] spaces(k as nat)[j] == s[w + j]);
            assert(forall|j: int| 0 <= j < rest.len() ==> #[trigger] rest[j] == s[w + k + j]);
        }
    }
}

} // verus!

verus! {

/// One step of the greedy fold: place the token on the current line if the
/// line is empty or the token fits; otherwise push the line and start a new
/// one with the token.
pub open spec fn wrap_step(
    lines: Seq<Seq<char>>,
    current: Seq<char>,
    tok: (Seq<char>, nat),
    max: nat,
) -> (Seq<Seq<char>>, Seq<char>) {
    let cur_w = grapheme_count(current);
    let new_w = cur_w + grapheme_count(tok.0) + tok.1;
    if cur_w == 0 || new_w <= max {
        (lines, current + tok.0 + spaces(tok.1))
    } else {
        (lines.push(current), tok.0 + spaces(tok.1))
    }
}

/// The greedy fold over a token sequence, from an intermediate state.
pub open spec fn wrap_fold(
    toks: Seq<(Seq<char>, nat)>,
    lines: Seq<Seq<char>>,
    current: Seq<char>,
    max: nat,
) -> (Seq<Seq<char>>, Seq<char>)
    decreases toks.len(),
{
    if toks.len() == 0 {
        (lines, current)
    } else {
        let st = wrap_step(lines, current, toks[0], max);
        wrap_fold(toks.skip(1), st.0, st.1, max)
    }
}

/// After the fold, a non-empty current line is pushed.
pub open spec fn wrap_finish(lines: Seq<Seq<char>>, current: Seq<char>) -> Seq<Seq<char>> {
    if grapheme_count(current) > 0 {
        lines.push(current)
    } else {
        lines
    }
}

/// The lines produced by greedily wrapping a token sequence at `max`
/// grapheme clusters per line.
pub open spec fn wrap_spec(toks: Seq<(Seq<char>, nat)>, max: nat) -> Seq<Seq<char>> {
    let st = wrap_fold(toks, Seq::empty(), Seq::empty(), max);
    wrap_finish(st.0, st.1)
}

/// The largest grapheme count over a sequence of lines, zero if there are
/// none.
pub open spec fn max_line_width(lines: Seq<Seq<char>>) -> nat
    decreases lines.len(),
{
    if lines.len() == 0 {
        0
    } else {
        let rest = max_line_width(lines.drop_last());
        let last = grapheme_count(lines.last());
        if last > rest {
            last
        } else {
            rest
        }
    }
}

/// The character sequences of a vector of character-vector lines.
pub open spec fn lines_model(lines: Seq<Vec<char>>) -> Seq<Seq<char>> {
    lines.map_values(|l: Vec<char>| l@)
}

/// The character sequences of a vector of string lines.
pub open spec fn lines_str_model(lines: Seq<String>) -> Seq<Seq<char>> {
    lines.map_values(|l: String| l@)
}

/// Appends a token to a line: the word, then its whitespace count in
/// spaces.
fn append_token(current: &mut Vec<char>, word: &Vec<char>, ws: usize)
    ensures
        final(current)@ == old(current)@ + word@ + spaces(ws as nat),
{
    let ghost base = current@;
    let mut j: usize = 0;
    while j < word.len()
        invariant
            j <= word@.len(),
            current@ == base + word@.take(j as int),
        decreases word@.len() - j,
    {
        current.push(word[j]);
        proof {
            assert(current@ =~= base + word@.take(j + 1int));
        }
        j = j + 1;
    }
    proof {
        assert(word@.take(word@.len() as int) =~= word@);
    }
    let ghost mid = current@;
    let mut p: usize = 0;
    while p < ws
        invariant
            p <= ws,
            mid == base + word@,
            current@ == mid + spaces(p as nat),
        decreases ws - p,
    {
        current.push(' ');
        proof {
            assert(current@ =~= mid + spaces((p + 1) as nat));
        }
        p = p + 1;
    }
    proof {
        assert(current@ =~= base + word@ + spaces(ws as nat));
    }
}

/// Whether every token of a sequence carries a non-empty word.
pub open spec fn all_tokens_worded(toks: Seq<(Seq<char>, nat)>) -> bool {
    forall|i: int| 0 <= i < toks.len() ==> (#[trigger] toks[i]).0.len() > 0
}

/// The greedy wrap of a token vector at `max_width` grapheme clusters per
/// line.  No pushed line is ever empty, and at width zero each worded token
/// lands on a line of its own.
pub fn wrap_tokens(toks: &Vec<(Vec<char>, usize)>, max_width: usize) -> (lines: Vec<Vec<char>>)
    ensures
        lines_model(lines@) == wrap_spec(toks_model(toks@), max_width as nat),
        forall|i: int| 0 <= i < lines@.len() ==> (#[trigger] lines@[i])@.len() > 0,
        (max_width == 0 && all_tokens_worded(toks_model(toks@))) ==> lines@.len() == toks@.len(),
        concat_lines(lines_model(lines@)) == rejoin(toks_model(toks@)),
{
    let ghost tm = toks_model(toks@);
    let ghost m = max_width as nat;
    let mut lines: Vec<Vec<char>> = Vec::new();
    let mut current: Vec<char> = Vec::new();
    let mut i: usize = 0;
    proof {
        assert(tm.skip(0) =~= tm);
        assert(lines_model(lines@) =~= Seq::<Seq<char>>::empty());
        assert(tm.take(0) =~= Seq::<(Seq<char>, nat)>::empty());
        assert(concat_lines(lines_model(lines@)) + current@ =~= rejoin(tm.take(0)));
    }
    while i < toks.len()
        invariant
            i <= toks@.len(),
            tm == toks_model(toks@),
            m == max_width as nat,
            wrap_fold(tm.skip(i as int), lines_model(lines@), current@, m) == wrap_fold(
                tm,
                Seq::empty(),
                Seq::empty(),
                m,
            ),
            forall|j: int| 0 <= j < lines@.len() ==> (#[trigger] lines@[j])@.len() > 0,
            (max_width == 0 && all_tokens_worded(tm) && i > 0) ==> (lines@.len() == i - 1
                && current@.len() > 0),
            i == 0 ==> lines@.len() == 0 && current@.len() == 0,
            concat_lines(lines_model(lines@)) + current@ == rejoin(tm.take(i as int)),
        decreases toks@.len() - i,
    {
        let ghost lines0 = lines_model(lines@);
        let ghost cur0 = current@;
        let cur_w = graphemes_count(&current);
        let word_w = graphemes_count(&toks[i].0);
        let ws = toks[i].1;
        let fits = if cur_w > max_width {
            false
        } else if word_w > max_width - cur_w {
            false
        } else {
            ws <= max_width - cur_w - word_w
        };
        proof {
            assert(tm.skip(i as int)[0] == tm[i as int]);
            assert(tm[i as int] == (toks@[i as int].0@, toks@[i as int].1 as nat));
            assert(tm.skip(i as int).skip(1) =~= tm.skip(i + 1int));
            assert(tm.take(i + 1int) =~= tm.take(i as int).push(tm[i as int]));
            lemma_rejoin_push(tm.take(i as int), tm[i as int]);
        }
        if cur_w == 0 || fits {
            append_token(&mut current, &toks[i].0, ws);
            proof {
                assert(wrap_step(lines0, cur0, tm[i as int], m) == (lines0, current@));
                assert(concat_lines(lines0) + current@ =~= (concat_lines(lines0) + cur0)
                    + tm[i as int].0 + spaces(tm[i as int].1));
            }
        } else {
            lines.push(current);
            let mut fresh: Vec<char> = Vec::new();
            append_token(&mut fresh, &toks[i].0, ws);
            current = fresh;
            proof {
                assert(cur0.len() > 0);
                assert(current@ =~= Seq::<char>::empty() + toks@[i as int].0@ + spaces(
                    toks@[i as int].1 as nat,
                ));
                assert(lines_model(lines@) =~= lines0.push(cur0));
                assert(wrap_step(lines0, cur0, tm[i as int], m) == (lines_model(lines@), current@));
                lemma_concat_lines_push(lines0, cur0);
                assert(concat_lines(lines_model(lines@)) + current@ =~= (concat_lines(lines0)
                    + cur0) + tm[i as int].0 + spaces(tm[i as int].1));
            }
        }
        proof {
            if max_width == 0 && all_tokens_worded(tm) {
                assert(tm[i as int].0.len() > 0);
            }
        }
        i = i + 1;
    }
    proof {
        assert(tm.skip(toks@.len() as int) =~= Seq::<(Seq<char>, nat)>::empty());
        assert(tm.take(toks@.len() as int) =~= tm);
    }
    let final_w = graphemes_count(&current);
    if final_w > 0 {
        let ghost lines0 = lines_model(lines@);
        let ghost cur0 = current@;
        lines.push(current);
        proof {
            assert(lines_model(lines@) =~= lines0.push(cur0));
            lemma_concat_lines_push(lines0, cur0);
        }
    } else {
        proof {
            assert(current@ =~= Seq::<char>::empty());
            assert(concat_lines(lines_model(lines@)) + current@ =~= concat_lines(
                lines_model(lines@),
            ));
        }
    }
    lines
}

} // verus!

verus! {

/// The width constraint a text leaf is measured under: a definite width in
/// cells, the smallest width that avoids breaking inside words, or the
/// width the text would take with unlimited room.
#[derive(Debug, Clone, Copy, PartialEq, Eq, Structural)]
pub enum AvailableSpace {
    Definite(usize),
    MinContent,
    MaxContent,
}

/// An intrinsic text size, in grapheme clusters and lines.
#[derive(Debug, Clone, Copy, PartialEq, Eq, Structural)]
pub struct TextSize {
    pub width: usize,
    pub height: usize,
}

/// The wrapping width the decision order picks: a known width always wins;
/// otherwise `MinContent` wraps at zero and `Definite` at its width, while
/// `MaxContent` does not wrap at all.
pub open spec fn wrap_width_of(known_width: Option<usize>, available_space: AvailableSpace) -> Option<
    nat,
> {
    match known_width {
        Some(w) => Some(w as nat),
        None => match available_space {
            AvailableSpace::MinContent => Some(0nat),
            AvailableSpace::MaxContent => None,
            AvailableSpace::Definite(w) => Some(w as nat),
        },
    }
}

/// The lines a text leaf is broken into: the untouched text on a single
/// line when wrapping is off or no width constrains it, the greedy wrap of
/// its tokens otherwise.
pub open spec fn measured_lines(
    text: Seq<char>,
    known_width: Option<usize>,
    available_space: AvailableSpace,
    line_wrap: bool,
) -> Seq<Seq<char>> {
    if !line_wrap {
        seq![text]
    } else {
        match wrap_width_of(known_width, available_space) {
            None => seq![text],
            Some(w) => wrap_spec(split_spec(text), w),
        }
    }
}

/// The wrapped lines and intrinsic size of a character sequence at a given
/// maximum width: the greedy wrap, the longest line's grapheme count, and
/// the line count.
pub fn text_sizes(chars: &Vec<char>, max_width: usize) -> (r: (TextSize, Vec<String>))
    ensures
        lines_str_model(r.1@) == wrap_spec(split_spec(chars@), max_width as nat),
        r.0.width == max_line_width(lines_str_model(r.1@)),
        r.0.height == r.1@.len(),
        forall|i: int| 0 <= i < r.1@.len() ==> (#[trigger] r.1@[i])@.len() > 0,
        (max_width == 0 && (chars@.len() == 0 || !is_ws(chars@[0]))) ==> r.1@.len()
            == words_count(chars@),
        concat_lines(lines_str_model(r.1@)) == rejoin(split_spec(chars@)),
{
    let toks = split_chars(chars);
    let lines = wrap_tokens(&toks, max_width);
    let mut out: Vec<String> = Vec::new();
    let mut widest: usize = 0;
    let mut i: usize = 0;
    proof {
        assert(lines_str_model(out@) =~= lines_model(lines@).take(0));
        assert(max_line_width(lines_model(lines@).take(0)) == 0);
    }
    while i < lines.len()
        invariant
            i <= lines@.len(),
            lines_str_model(out@) == lines_model(lines@).take(i as int),
            out@.len() == i,
            widest == max_line_width(lines_model(lines@).take(i as int)),
            forall|j: int| 0 <= j < lines@.len() ==> (#[trigger] lines@[j])@.len() > 0,
            forall|j: int| 0 <= j < out@.len() ==> (#[trigger] out@[j])@.len() > 0,
        decreases lines@.len() - i,
    {
        let s = string_from_chars(&lines[i]);
        let w = graphemes_count(&lines[i]);
        if w > widest {
            widest = w;
        }
        let ghost prev = out@;
        out.push(s);
        proof {
            assert(out@ == prev.push(s));
            assert(lines_str_model(out@) =~= lines_str_model(prev).push(s@));
            assert(lines_str_model(out@) =~= lines_model(lines@).take(i + 1int));
            assert(lines_model(lines@).take(i + 1int).drop_last() =~= lines_model(lines@).take(
                i as int,
            ));
            assert(lines_model(lines@).take(i + 1int).last() == lines@[i as int]@);
        }
        i = i + 1;
    }
    proof {
        assert(lines_model(lines@).take(lines@.len() as int) =~= lines_model(lines@));
        if max_width == 0 && (chars@.len() == 0 || !is_ws(chars@[0])) {
            lemma_split_all_words(chars@);
            assert(all_tokens_worded(toks_model(toks@)));
        }
    }
    let height = out.len();
    (TextSize { width: widest, height }, out)
}

/// The intrinsic size and wrapped lines of a text leaf.
///
/// Decision order: wrapping disabled gives the untouched text on one line;
/// otherwise a known width wraps at that width whatever the available
/// space says; otherwise `MaxContent` gives the untouched text,
/// `MinContent` wraps at zero, and `Definite` wraps at its width.  The
/// reported width is the grapheme count of the longest line (of the whole
/// text on the single-line paths), the height the number of lines.  No
/// line comes back empty unless the text itself is empty.
pub fn measure_size(
    text: &str,
    known_width: Option<usize>,
    available_space: AvailableSpace,
    line_wrap: bool,
) -> (r: (TextSize, Vec<String>))
    ensures
        lines_str_model(r.1@) == measured_lines(text@, known_width, available_space, line_wrap),
        r.0.height == r.1@.len(),
        (!line_wrap || wrap_width_of(known_width, available_space) is None) ==> (r.0.width
            == grapheme_count(text@) && r.1@.len() == 1),
        (line_wrap && wrap_width_of(known_width, available_space) is Some) ==> r.0.width
            == max_line_width(lines_str_model(r.1@)),
        text@.len() > 0 ==> forall|i: int| 0 <= i < r.1@.len() ==> (#[trigger] r.1@[i])@.len() > 0,
        (line_wrap && known_width is None && available_space is MinContent && (text@.len() == 0
            || !is_ws(text@[0]))) ==> r.1@.len() == words_count(text@),
        space_only_ws(text@) ==> concat_lines(lines_str_model(r.1@)) == text@,
{
    let chars = to_chars(text);
    if !line_wrap {
        let width = graphemes_count(&chars);
        let mut lines: Vec<String> = Vec::new();
        lines.push(text.to_owned());
        proof {
            assert(lines_str_model(lines@) =~= seq![text@]);
            lemma_concat_single(text@);
        }
        return (TextSize { width, height: 1 }, lines);
    }
    let r = match known_width {
        Some(w) => text_sizes(&chars, w),
        None => match available_space {
            AvailableSpace::MinContent => text_sizes(&chars, 0),
            AvailableSpace::Definite(w) => text_sizes(&chars, w),
            AvailableSpace::MaxContent => {
                let width = graphemes_count(&chars);
                let mut lines: Vec<String> = Vec::new();
                lines.push(text.to_owned());
                proof {
                    assert(lines_str_model(lines@) =~= seq![text@]);
                    lemma_concat_single(text@);
                }
                return (TextSize { width, height: 1 }, lines);
            },
        },
    };
    proof {
        if space_only_ws(text@) {
            lemma_split_rejoin(text@);
        }
    }
    r
}

/// A single line holds exactly its own text.
pub proof fn lemma_concat_single(l: Seq<char>)
    ensures
        concat_lines(seq![l]) == l,
{
    assert(seq![l].skip(1) =~= Seq::<Seq<char>>::empty());
    assert(concat_lines(Seq::<Seq<char>>::empty()) == Seq::<char>::empty());
    assert(concat_lines(seq![l]) =~= l);
}

/// With wrapping disabled the output is one line equal to the input text,
/// whatever the sizing mode.
pub proof fn lemma_no_wrap_single_line(
    text: Seq<char>,
    known_width: Option<usize>,
    available_space: AvailableSpace,
)
    ensures
        measured_lines(text, known_width, available_space, false) == seq![text],
{
}

/// Under `MaxContent` with no known width the output is one line equal to
/// the input text.
pub proof fn lemma_max_content_single_line(text: Seq<char>)
    ensures
        measured_lines(text, None, AvailableSpace::MaxContent, true) == seq![text],
{
}

/// A known width always overrides the available-space mode: the lines are
/// the same whatever that mode says.
pub proof fn lemma_known_width_overrides(
    text: Seq<char>,
    w: usize,
    a1: AvailableSpace,
    a2: AvailableSpace,
    line_wrap: bool,
)
    ensures
        measured_lines(text, Some(w), a1, line_wrap) == measured_lines(
            text,
            Some(w),
            a2,
            line_wrap,
        ),
{
}

} // verus!

verus! {

/// The text that a sequence of lines holds, concatenated in order.
pub open spec fn concat_lines(lines: Seq<Seq<char>>) -> Seq<char>
    decreases lines.len(),
{
    if lines.len() == 0 {
        Seq::empty()
    } else {
        lines[0] + concat_lines(lines.skip(1))
    }
}

/// Concatenation distributes over appending one line at the end.
pub proof fn lemma_concat_lines_push(lines: Seq<Seq<char>>, l: Seq<char>)
    ensures
        concat_lines(lines.push(l)) == concat_lines(lines) + l,
    decreases lines.len(),
{
    if lines.len() == 0 {
        assert(lines.push(l).skip(1) =~= Seq::<Seq<char>>::empty());
        assert(concat_lines(Seq::<Seq<char>>::empty()) == Seq::<char>::empty());
        assert(concat_lines(lines.push(l)) == l + Seq::<char>::empty());
        assert(concat_lines(lines.push(l)) =~= concat_lines(lines) + l);
    } else {
        assert(lines.push(l).skip(1) =~= lines.skip(1).push(l));
        lemma_concat_lines_push(lines.skip(1), l);
        assert(lines[0] + (concat_lines(lines.skip(1)) + l) =~= (lines[0] + concat_lines(
            lines.skip(1),
        )) + l);
    }
}

/// Rejoining distributes over appending one token at the end.
pub proof fn lemma_rejoin_push(toks: Seq<(Seq<char>, nat)>, tok: (Seq<char>, nat))
    ensures
        rejoin(toks.push(tok)) == rejoin(toks) + tok.0 + spaces(tok.1),
    decreases toks.len(),
{
    if toks.len() == 0 {
        assert(toks.push(tok).skip(1) =~= Seq::<(Seq<char>, nat)>::empty());
        assert(rejoin(Seq::<(Seq<char>, nat)>::empty()) == Seq::<char>::empty());
        assert(rejoin(toks.push(tok)) == tok.0 + spaces(tok.1) + Seq::<char>::empty());
        assert(rejoin(toks.push(tok)) =~= rejoin(toks) + tok.0 + spaces(tok.1));
    } else {
        assert(toks.push(tok).skip(1) =~= toks.skip(1).push(tok));
        lemma_rejoin_push(toks.skip(1), tok);
        assert(toks[0].0 + spaces(toks[0].1) + (rejoin(toks.skip(1)) + tok.0 + spaces(tok.1)) =~= (
        toks[0].0 + spaces(toks[0].1) + rejoin(toks.skip(1))) + tok.0 + spaces(tok.1));
    }
}

} // verus!

verus! {

/// Helper for the no-blank-lines law: the fold never pushes a line with a
/// zero grapheme count, whatever state it starts from.
proof fn lemma_wrap_fold_no_blank(
    toks: Seq<(Seq<char>, nat)>,
    lines: Seq<Seq<char>>,
    current: Seq<char>,
    max: nat,
)
    requires
        forall|i: int| 0 <= i < lines.len() ==> grapheme_count(#[trigger] lines[i]) > 0,
    ensures
        forall|i: int|
            0 <= i < wrap_fold(toks, lines, current, max).0.len() ==> grapheme_count(
                #[trigger] wrap_fold(toks, lines, current, max).0[i],
            ) > 0,
    decreases toks.len(),
{
    if toks.len() > 0 {
        let st = wrap_step(lines, current, toks[0], max);
        assert forall|i: int| 0 <= i < st.0.len() implies grapheme_count(#[trigger] st.0[i])
            > 0 by {
            if i < lines.len() {
                assert(st.0[i] == lines[i]);
            }
        }
        lemma_wrap_fold_no_blank(toks.skip(1), st.0, st.1, max);
        assert(wrap_fold(toks, lines, current, max) == wrap_fold(toks.skip(1), st.0, st.1, max));
    }
}

/// No sizing mode ever pushes a blank line: every line of a greedy wrap
/// counts at least one grapheme cluster, whatever the tokens and the
/// width.
pub proof fn lemma_wrap_spec_no_blank_lines(toks: Seq<(Seq<char>, nat)>, max: nat)
    ensures
        forall|i: int|
            0 <= i < wrap_spec(toks, max).len() ==> grapheme_count(
                #[trigger] wrap_spec(toks, max)[i],
            ) > 0,
{
    lemma_wrap_fold_no_blank(toks, Seq::empty(), Seq::empty(), max);
    let st = wrap_fold(toks, Seq::empty(), Seq::empty(), max);
    assert forall|i: int| 0 <= i < wrap_spec(toks, max).len() implies grapheme_count(
        #[trigger] wrap_spec(toks, max)[i],
    ) > 0 by {
        if i < st.0.len() {
            assert(wrap_spec(toks, max)[i] == st.0[i]);
        } else {
            assert(wrap_spec(toks, max)[i] == st.1);
        }
    }
}

} // verus!
