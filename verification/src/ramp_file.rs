//! The bevel ramp file (`bevel_ramp.kdl`): the Ramp editor writes it on every edit,
//! and the editor and every app that draws bevels read it back.
//!
//! ```text
//! keys {
//!     key pos=0 val=0
//!     key pos=0.5 val=1
//! }
//! line_type "linear"
//! ```
//!
//! The numbers are kept as text here: their decimal form is written and read by the
//! application around this library.
use vstd::prelude::*;

verus! {

// ---------------------------------------------------------------------------------
// Characters, trimming and words.
// ---------------------------------------------------------------------------------

/// Unicode `White_Space`, the set `char::is_whitespace` tests for.
pub open spec fn is_space(c: char) -> bool {
    ||| ('\u{9}' <= c && c <= '\u{d}')
    ||| c == ' '
    ||| c == '\u{85}'
    ||| c == '\u{a0}'
    ||| c == '\u{1680}'
    ||| ('\u{2000}' <= c && c <= '\u{200a}')
    ||| c == '\u{2028}'
    ||| c == '\u{2029}'
    ||| c == '\u{202f}'
    ||| c == '\u{205f}'
    ||| c == '\u{3000}'
}

/// No character of `s` is white space.
pub open spec fn no_space(s: Seq<char>) -> bool {
    forall|i: int| 0 <= i < s.len() ==> !is_space(#[trigger] s[i])
}

/// `s` without its leading white space.
pub open spec fn trim_start(s: Seq<char>) -> Seq<char>
    decreases s.len(),
{
    if s.len() > 0 && is_space(s[0]) {
        trim_start(s.drop_first())
    } else {
        s
    }
}

/// `s` without its trailing white space.
pub open spec fn trim_end(s: Seq<char>) -> Seq<char>
    decreases s.len(),
{
    if s.len() > 0 && is_space(s.last()) {
        trim_end(s.drop_last())
    } else {
        s
    }
}

/// `s` without white space at either end (`str::trim`).
pub open spec fn trim(s: Seq<char>) -> Seq<char> {
    trim_end(trim_start(s))
}

/// `s` without its leading double quotes.
pub open spec fn trim_start_quotes(s: Seq<char>) -> Seq<char>
    decreases s.len(),
{
    if s.len() > 0 && s[0] == '"' {
        trim_start_quotes(s.drop_first())
    } else {
        s
    }
}

/// `s` without its trailing double quotes.
pub open spec fn trim_end_quotes(s: Seq<char>) -> Seq<char>
    decreases s.len(),
{
    if s.len() > 0 && s.last() == '"' {
        trim_end_quotes(s.drop_last())
    } else {
        s
    }
}

/// `s` without double quotes at either end (`str::trim_matches('"')`).
pub open spec fn trim_quotes(s: Seq<char>) -> Seq<char> {
    trim_end_quotes(trim_start_quotes(s))
}

/// The number of characters before the first white space in `s` (all of them if none).
pub open spec fn word_len(s: Seq<char>) -> nat
    decreases s.len(),
{
    if s.len() == 0 || is_space(s[0]) {
        0
    } else {
        1 + word_len(s.drop_first())
    }
}

/// A word is no longer than the text it starts, and a text that starts with a
/// non-space character starts with a word.
pub proof fn lemma_word_len_bound(s: Seq<char>)
    ensures
        word_len(s) <= s.len(),
        s.len() > 0 && !is_space(s[0]) ==> word_len(s) >= 1,
    decreases s.len(),
{
    if s.len() > 0 && !is_space(s[0]) {
        lemma_word_len_bound(s.drop_first());
    }
}

/// The white-space separated words of `s`, in order (`str::split_whitespace`).
pub open spec fn words(s: Seq<char>) -> Seq<Seq<char>>
    decreases s.len(),
{
    if s.len() == 0 {
        seq![]
    } else if is_space(s[0]) {
        words(s.drop_first())
    } else {
        proof {
            lemma_word_len_bound(s);
        }
        seq![s.take(word_len(s) as int)] + words(s.skip(word_len(s) as int))
    }
}

/// Whether `s` begins with `p`.
pub open spec fn starts_with(s: Seq<char>, p: Seq<char>) -> bool {
    p.len() <= s.len() && s.take(p.len() as int) == p
}

// ---------------------------------------------------------------------------------
// Executable counterparts.
// ---------------------------------------------------------------------------------

/// `char::is_whitespace`.
pub fn char_is_space(c: char) -> (r: bool)
    ensures
        r == is_space(c),
{
    ('\u{9}' <= c && c <= '\u{d}') || c == ' ' || c == '\u{85}' || c == '\u{a0}' || c
        == '\u{1680}' || ('\u{2000}' <= c && c <= '\u{200a}') || c == '\u{2028}' || c
        == '\u{2029}' || c == '\u{202f}' || c == '\u{205f}' || c == '\u{3000}'
}

pub proof fn lemma_trim_start_skip(s: Seq<char>, a: int)
    requires
        0 <= a <= s.len(),
        forall|j: int| 0 <= j < a ==> is_space(#[trigger] s[j]),
        a == s.len() || !is_space(s[a]),
    ensures
        trim_start(s) == s.skip(a),
    decreases a,
{
    if a > 0 {
        lemma_trim_start_skip(s.drop_first(), a - 1);
        assert(s.drop_first().skip(a - 1) =~= s.skip(a));
    } else {
        assert(s.skip(0) =~= s);
    }
}

proof fn lemma_trim_end_take(s: Seq<char>, b: int)
    requires
        0 <= b <= s.len(),
        forall|j: int| b <= j < s.len() ==> is_space(#[trigger] s[j]),
        b == 0 || !is_space(s[b - 1]),
    ensures
        trim_end(s) == s.take(b),
    decreases s.len() - b,
{
    if b < s.len() {
        lemma_trim_end_take(s.drop_last(), b);
        assert(s.drop_last().take(b) =~= s.take(b));
    } else {
        assert(s.take(b) =~= s);
    }
}

pub proof fn lemma_trim_start_quotes_skip(s: Seq<char>, a: int)
    requires
        0 <= a <= s.len(),
        forall|j: int| 0 <= j < a ==> #[trigger] s[j] == '"',
        a == s.len() || s[a] != '"',
    ensures
        trim_start_quotes(s) == s.skip(a),
    decreases a,
{
    if a > 0 {
        lemma_trim_start_quotes_skip(s.drop_first(), a - 1);
        assert(s.drop_first().skip(a - 1) =~= s.skip(a));
    } else {
        assert(s.skip(0) =~= s);
    }
}

pub proof fn lemma_trim_end_quotes_take(s: Seq<char>, b: int)
    requires
        0 <= b <= s.len(),
        forall|j: int| b <= j < s.len() ==> #[trigger] s[j] == '"',
        b == 0 || s[b - 1] != '"',
    ensures
        trim_end_quotes(s) == s.take(b),
    decreases s.len() - b,
{
    if b < s.len() {
        lemma_trim_end_quotes_take(s.drop_last(), b);
        assert(s.drop_last().take(b) =~= s.take(b));
    } else {
        assert(s.take(b) =~= s);
    }
}

/// The characters `s[from..to]` as a new vector.
fn copy_range(s: &Vec<char>, from: usize, to: usize) -> (r: Vec<char>)
    requires
        from <= to <= s.len(),
    ensures
        r@ == s@.subrange(from as int, to as int),
{
    let mut r: Vec<char> = Vec::new();
    let mut i = from;
    while i < to
        invariant
            from <= i <= to <= s.len(),
            r@ == s@.subrange(from as int, i as int),
        decreases to - i,
    {
        r.push(s[i]);
        i = i + 1;
        assert(r@ =~= s@.subrange(from as int, i as int));
    }
    r
}

/// `s` without white space at either end.
pub fn trim_chars(s: &Vec<char>) -> (r: Vec<char>)
    ensures
        r@ == trim(s@),
{
    let n: usize = s.len();
    let mut a: usize = 0;
    while a < n && char_is_space(s[a])
        invariant
            a <= n == s.len(),
            forall|j: int| 0 <= j < a ==> is_space(#[trigger] s@[j]),
        decreases n - a,
    {
        a = a + 1;
    }
    proof {
        lemma_trim_start_skip(s@, a as int);
    }
    let mut b: usize = n;
    while b > a && char_is_space(s[b - 1])
        invariant
            a <= b <= n == s.len(),
            forall|j: int| b <= j < n ==> is_space(#[trigger] s@[j]),
        decreases b - a,
    {
        b = b - 1;
    }
    proof {
        let t = s@.skip(a as int);
        assert forall|j: int| (b - a) <= j < t.len() implies is_space(#[trigger] t[j]) by {
            assert(t[j] == s@[j + a]);
        }
        lemma_trim_end_take(t, b - a);
        assert(t.take(b - a) =~= s@.subrange(a as int, b as int));
    }
    copy_range(s, a, b)
}

/// `s` without double quotes at either end.
pub fn trim_quote_chars(s: &Vec<char>) -> (r: Vec<char>)
    ensures
        r@ == trim_quotes(s@),
{
    let n: usize = s.len();
    let mut a: usize = 0;
    while a < n && s[a] == '"'
        invariant
            a <= n == s.len(),
            forall|j: int| 0 <= j < a ==> #[trigger] s@[j] == '"',
        decreases n - a,
    {
        a = a + 1;
    }
    proof {
        lemma_trim_start_quotes_skip(s@, a as int);
    }
    let mut b: usize = n;
    while b > a && s[b - 1] == '"'
        invariant
            a <= b <= n == s.len(),
            forall|j: int| b <= j < n ==> #[trigger] s@[j] == '"',
        decreases b - a,
    {
        b = b - 1;
    }
    proof {
        let t = s@.skip(a as int);
        assert forall|j: int| (b - a) <= j < t.len() implies #[trigger] t[j] == '"' by {
            assert(t[j] == s@[j + a]);
        }
        lemma_trim_end_quotes_take(t, b - a);
        assert(t.take(b - a) =~= s@.subrange(a as int, b as int));
    }
    copy_range(s, a, b)
}

/// The character sequences held by a vector of character vectors.
pub open spec fn views(v: Seq<Vec<char>>) -> Seq<Seq<char>> {
    v.map_values(|w: Vec<char>| w@)
}

/// A text whose first `k` characters are not white space and whose next one is (or
/// which ends there) starts with a word of `k` characters.
pub proof fn lemma_word_len_exact(t: Seq<char>, k: int)
    requires
        0 <= k <= t.len(),
        forall|j: int| 0 <= j < k ==> !is_space(#[trigger] t[j]),
        k == t.len() || is_space(t[k]),
    ensures
        word_len(t) == k,
    decreases k,
{
    if k > 0 {
        lemma_word_len_exact(t.drop_first(), k - 1);
    }
}

/// The words of `s[i..]` when `s[i..j]` is a whole word.
proof fn lemma_words_at_word(s: Seq<char>, i: int, j: int)
    requires
        0 <= i < j <= s.len(),
        forall|k: int| i <= k < j ==> !is_space(#[trigger] s[k]),
        j == s.len() || is_space(s[j]),
    ensures
        words(s.skip(i)) == seq![s.subrange(i, j)] + words(s.skip(j)),
{
    let t = s.skip(i);
    assert forall|k: int| 0 <= k < j - i implies !is_space(#[trigger] t[k]) by {
        assert(t[k] == s[k + i]);
    }
    lemma_word_len_exact(t, j - i);
    assert(t.take(j - i) =~= s.subrange(i, j));
    assert(t.skip(j - i) =~= s.skip(j));
}

/// The words of `s[i..]` when `s[i]` is white space.
proof fn lemma_words_at_space(s: Seq<char>, i: int)
    requires
        0 <= i < s.len(),
        is_space(s[i]),
    ensures
        words(s.skip(i)) == words(s.skip(i + 1)),
{
    assert(s.skip(i).drop_first() =~= s.skip(i + 1));
}

/// The white-space separated words of `s`.
pub fn split_words(s: &Vec<char>) -> (r: Vec<Vec<char>>)
    ensures
        views(r@) == words(s@),
{
    let n: usize = s.len();
    let mut out: Vec<Vec<char>> = Vec::new();
    let mut i: usize = 0;
    assert(s@.skip(0) =~= s@);
    while i < n
        invariant
            i <= n == s.len(),
            words(s@) == views(out@) + words(s@.skip(i as int)),
        decreases n - i,
    {
        if char_is_space(s[i]) {
            proof {
                lemma_words_at_space(s@, i as int);
            }
            i = i + 1;
        } else {
            let mut j: usize = i + 1;
            while j < n && !char_is_space(s[j])
                invariant
                    i < j <= n == s.len(),
                    forall|k: int| i <= k < j ==> !is_space(#[trigger] s@[k]),
                decreases n - j,
            {
                j = j + 1;
            }
            proof {
                lemma_words_at_word(s@, i as int, j as int);
            }
            let w = copy_range(s, i, j);
            let ghost before = out@;
            out.push(w);
            assert(views(out@) =~= views(before).push(w@));
            assert(views(out@) + words(s@.skip(j as int)) =~= views(before) + (seq![w@] + words(
                s@.skip(j as int),
            )));
            i = j;
        }
    }
    assert(s@.skip(n as int) =~= Seq::<char>::empty());
    assert(views(out@) + words(s@.skip(n as int)) =~= views(out@));
    out
}

/// Whether `s` begins with the characters of `p`.
pub fn has_prefix(s: &Vec<char>, p: &str) -> (r: bool)
    ensures
        r == starts_with(s@, p@),
{
    let m: usize = p.unicode_len();
    if m > s.len() {
        return false;
    }
    let mut i: usize = 0;
    while i < m
        invariant
            m == p@.len(),
            m <= s.len(),
            i <= m,
            forall|j: int| 0 <= j < i ==> s@[j] == p@[j],
        decreases m - i,
    {
        if s[i] != p.get_char(i) {
            assert(s@.take(m as int)[i as int] != p@[i as int]);
            return false;
        }
        i = i + 1;
    }
    assert(s@.take(m as int) =~= p@);
    true
}

// ---------------------------------------------------------------------------------
// The file format.
// ---------------------------------------------------------------------------------

/// The `pos=` and `val=` texts of one `key` line, each the text after the last word
/// that carries that prefix (`None` when no word does).
pub struct KeyText {
    pub pos: Option<Vec<char>>,
    pub val: Option<Vec<char>>,
}

/// What a bevel ramp file says: its `key` lines in order, and the line type
/// (the last `line_type` line's value, `linear` when there is none).
pub struct RampText {
    pub keys: Vec<KeyText>,
    pub line_type: Vec<char>,
}

/// The texts of one key to be written: its position and its value.
pub struct KeyPairText {
    pub pos: Vec<char>,
    pub val: Vec<char>,
}

pub open spec fn opt_view(o: Option<Vec<char>>) -> Option<Seq<char>> {
    match o {
        Some(v) => Some(v@),
        None => None,
    }
}

impl View for KeyText {
    type V = (Option<Seq<char>>, Option<Seq<char>>);

    open spec fn view(&self) -> (Option<Seq<char>>, Option<Seq<char>>) {
        (opt_view(self.pos), opt_view(self.val))
    }
}

impl View for KeyPairText {
    type V = (Seq<char>, Seq<char>);

    open spec fn view(&self) -> (Seq<char>, Seq<char>) {
        (self.pos@, self.val@)
    }
}

impl View for RampText {
    type V = (Seq<(Option<Seq<char>>, Option<Seq<char>>)>, Seq<char>);

    open spec fn view(&self) -> (Seq<(Option<Seq<char>>, Option<Seq<char>>)>, Seq<char>) {
        (self.keys@.map_values(|k: KeyText| k@), self.line_type@)
    }
}

/// The `pos=` / `val=` texts a `key` line's words give: each word that starts with
/// `pos=` sets the position to the rest of the word, each other word that starts with
/// `val=` sets the value; a later word overrides an earlier one.
pub open spec fn key_fields(ws: Seq<Seq<char>>) -> (Option<Seq<char>>, Option<Seq<char>>)
    decreases ws.len(),
{
    if ws.len() == 0 {
        (None, None)
    } else {
        let (p, v) = key_fields(ws.drop_last());
        let w = ws.last();
        if starts_with(w, "pos="@) {
            (Some(w.skip("pos="@.len() as int)), v)
        } else if starts_with(w, "val="@) {
            (p, Some(w.skip("val="@.len() as int)))
        } else {
            (p, v)
        }
    }
}

/// The pieces of `s` between line feeds: one more piece than `s` has line feeds.
///
/// Reading the file by these pieces gives what `str::lines` gives, since every piece
/// is trimmed before it is looked at: a carriage return before a line feed is white
/// space, and the empty piece after a final line feed says nothing.
pub open spec fn lines(s: Seq<char>) -> Seq<Seq<char>>
    decreases s.len(),
{
    if s.len() == 0 {
        seq![seq![]]
    } else {
        let p = lines(s.drop_last());
        if s.last() == '\n' {
            p.push(seq![])
        } else {
            p.update(p.len() - 1, p.last().push(s.last()))
        }
    }
}

/// The keys read so far and the last line type seen.
pub type ReadState = (Seq<(Option<Seq<char>>, Option<Seq<char>>)>, Option<Seq<char>>);

/// What one line adds: a trimmed line that starts with `key ` adds a key from its
/// words; one that starts with `line_type ` sets the line type to its second word
/// without surrounding double quotes, if it has a second word; any other line is
/// passed over.
pub open spec fn read_line(st: ReadState, raw: Seq<char>) -> ReadState {
    let t = trim(raw);
    if starts_with(t, "key "@) {
        (st.0.push(key_fields(words(t))), st.1)
    } else if starts_with(t, "line_type "@) {
        let ws = words(t);
        if ws.len() >= 2 {
            (st.0, Some(trim_quotes(ws[1])))
        } else {
            st
        }
    } else {
        st
    }
}

/// `st` after reading the lines `ls` in order.
pub open spec fn read_lines(st: ReadState, ls: Seq<Seq<char>>) -> ReadState
    decreases ls.len(),
{
    if ls.len() == 0 {
        st
    } else {
        read_line(read_lines(st, ls.drop_last()), ls.last())
    }
}

/// What a whole file says, as (keys, line type).
pub open spec fn read_ramp(s: Seq<char>) -> (Seq<(Option<Seq<char>>, Option<Seq<char>>)>, Seq<char>) {
    let st = read_lines((seq![], None), lines(s));
    (
        st.0,
        match st.1 {
            Some(t) => t,
            None => "linear"@,
        },
    )
}

/// The `pos=`/`val=` texts of the words of a `key` line.
fn key_text(ws: &Vec<Vec<char>>) -> (r: KeyText)
    ensures
        r@ == key_fields(views(ws@)),
{
    let mut pos: Option<Vec<char>> = None;
    let mut val: Option<Vec<char>> = None;
    let mut i: usize = 0;
    while i < ws.len()
        invariant
            i <= ws.len(),
            (opt_view(pos), opt_view(val)) == key_fields(views(ws@).take(i as int)),
        decreases ws.len() - i,
    {
        let w = &ws[i];
        proof {
            assert(views(ws@).take(i + 1).drop_last() =~= views(ws@).take(i as int));
            reveal_strlit("pos=");
            reveal_strlit("val=");
        }
        if has_prefix(w, "pos=") {
            pos = Some(copy_range(w, 4, w.len()));
            assert(w@.subrange(4, w@.len() as int) =~= w@.skip(4));
        } else if has_prefix(w, "val=") {
            val = Some(copy_range(w, 4, w.len()));
            assert(w@.subrange(4, w@.len() as int) =~= w@.skip(4));
        }
        i = i + 1;
    }
    assert(views(ws@).take(ws.len() as int) =~= views(ws@));
    KeyText { pos, val }
}

/// The pieces of `s` between line feeds.
fn split_lines(s: &Vec<char>) -> (r: Vec<Vec<char>>)
    ensures
        views(r@) == lines(s@),
{
    let mut out: Vec<Vec<char>> = Vec::new();
    let mut cur: Vec<char> = Vec::new();
    let mut i: usize = 0;
    assert(s@.take(0) =~= Seq::<char>::empty());
    assert(views(out@).push(cur@) =~= seq![seq![]]);
    while i < s.len()
        invariant
            i <= s.len(),
            views(out@).push(cur@) == lines(s@.take(i as int)),
        decreases s.len() - i,
    {
        let c = s[i];
        proof {
            assert(s@.take(i + 1).drop_last() =~= s@.take(i as int));
            assert(s@.take(i + 1).last() == c);
        }
        let ghost before = views(out@).push(cur@);
        if c == '\n' {
            let done = cur;
            out.push(done);
            cur = Vec::new();
            assert(views(out@).push(cur@) =~= before.push(seq![]));
        } else {
            cur.push(c);
            assert(views(out@).push(cur@) =~= before.update(
                before.len() - 1,
                before.last().push(c),
            ));
        }
        i = i + 1;
    }
    assert(s@.take(s.len() as int) =~= s@);
    out.push(cur);
    out
}

/// The characters of `s`.
pub fn chars_of(s: &str) -> (r: Vec<char>)
    ensures
        r@ == s@,
{
    let n: usize = s.unicode_len();
    let mut r: Vec<char> = Vec::new();
    for c in it: s.chars()
        invariant
            n == s@.len(),
            r@ == it.seq().take(it.index() as int),
            it.seq() == s@,
    {
        r.push(c);
    }
    r
}

/// Reads a bevel ramp file: its `key` lines' `pos=`/`val=` texts in file order, and its
/// line type.
pub fn parse_bevel_ramp(content: &str) -> (r: RampText)
    ensures
        r@ == read_ramp(content@),
{
    let chars = chars_of(content);
    let ls = split_lines(&chars);
    let mut keys: Vec<KeyText> = Vec::new();
    let mut line_type: Option<Vec<char>> = None;
    let mut i: usize = 0;
    assert(views(ls@).take(0) =~= Seq::<Seq<char>>::empty());
    assert(keys@.map_values(|k: KeyText| k@) =~= Seq::<(Option<Seq<char>>, Option<Seq<char>>)>::empty());
    while i < ls.len()
        invariant
            i <= ls.len(),
            views(ls@) == lines(content@),
            (keys@.map_values(|k: KeyText| k@), opt_view(line_type)) == read_lines(
                (seq![], None),
                views(ls@).take(i as int),
            ),
        decreases ls.len() - i,
    {
        let ghost st = (keys@.map_values(|k: KeyText| k@), opt_view(line_type));
        proof {
            assert(views(ls@).take(i + 1).drop_last() =~= views(ls@).take(i as int));
            assert(views(ls@).take(i + 1).last() == ls@[i as int]@);
        }
        let t = trim_chars(&ls[i]);
        if has_prefix(&t, "key ") {
            let ws = split_words(&t);
            let k = key_text(&ws);
            let ghost kv = k@;
            keys.push(k);
            assert(keys@.map_values(|k: KeyText| k@) =~= st.0.push(kv));
        } else if has_prefix(&t, "line_type ") {
            let ws = split_words(&t);
            if ws.len() >= 2 {
                line_type = Some(trim_quote_chars(&ws[1]));
            }
        }
        i = i + 1;
    }
    assert(views(ls@).take(ls.len() as int) =~= views(ls@));
    let line_type = match line_type {
        Some(t) => t,
        None => chars_of("linear"),
    };
    RampText { keys, line_type }
}

/// The line type an editor dropdown selection stands for: `bezier` for entry 1,
/// `linear` for every other.
pub open spec fn line_type_text(selected: usize) -> Seq<char> {
    if selected == 1 {
        "bezier"@
    } else {
        "linear"@
    }
}

/// The dropdown entry a line type selects: 1 for `bezier`, 0 for anything else.
pub open spec fn line_type_choice(t: Seq<char>) -> usize {
    if t == "bezier"@ {
        1
    } else {
        0
    }
}

/// The line type written for the editor's dropdown selection.
pub fn line_type_name(selected: usize) -> (r: &'static str)
    ensures
        r@ == line_type_text(selected),
{
    if selected == 1 {
        "bezier"
    } else {
        "linear"
    }
}

/// The editor's dropdown selection for a line type read from the file.
pub fn line_type_index(name: &str) -> (r: usize)
    ensures
        r == line_type_choice(name@),
{
    if crate::text::text_eq(name, "bezier") {
        1
    } else {
        0
    }
}

/// One written key line, with its line feed.
pub open spec fn key_line(k: (Seq<char>, Seq<char>)) -> Seq<char> {
    "    key pos="@ + k.0 + " val="@ + k.1 + "\n"@
}

/// The written key lines, in order.
pub open spec fn key_lines(ks: Seq<(Seq<char>, Seq<char>)>) -> Seq<char>
    decreases ks.len(),
{
    if ks.len() == 0 {
        seq![]
    } else {
        key_lines(ks.drop_last()) + key_line(ks.last())
    }
}

/// The file written for the keys `ks` and the line type `lt`.
pub open spec fn ramp_file_text(ks: Seq<(Seq<char>, Seq<char>)>, lt: Seq<char>) -> Seq<char> {
    "keys {\n"@ + key_lines(ks) + "}\n"@ + "line_type \""@ + lt + "\"\n"@
}

/// Appends the characters of `s` to `out`.
fn push_str(out: &mut Vec<char>, s: &str)
    ensures
        final(out)@ == old(out)@ + s@,
{
    let n: usize = s.unicode_len();
    let mut i: usize = 0;
    while i < n
        invariant
            n == s@.len(),
            i <= n,
            out@ == old(out)@ + s@.take(i as int),
        decreases n - i,
    {
        out.push(s.get_char(i));
        i = i + 1;
        assert(out@ =~= old(out)@ + s@.take(i as int));
    }
    assert(s@.take(n as int) =~= s@);
}

/// Appends the characters of `v` to `out`.
fn push_chars(out: &mut Vec<char>, v: &Vec<char>)
    ensures
        final(out)@ == old(out)@ + v@,
{
    let mut i: usize = 0;
    while i < v.len()
        invariant
            i <= v.len(),
            out@ == old(out)@ + v@.take(i as int),
        decreases v.len() - i,
    {
        out.push(v[i]);
        i = i + 1;
        assert(out@ =~= old(out)@ + v@.take(i as int));
    }
    assert(v@.take(v.len() as int) =~= v@);
}

/// Writes a bevel ramp file: a `keys` block with one `key pos=.. val=..` line per key,
/// in the order given, then the quoted line type.
pub fn render_bevel_ramp(keys: &Vec<KeyPairText>, line_type: &str) -> (r: Vec<char>)
    ensures
        r@ == ramp_file_text(keys@.map_values(|k: KeyPairText| k@), line_type@),
{
    let ghost ks = keys@.map_values(|k: KeyPairText| k@);
    let mut out: Vec<char> = Vec::new();
    push_str(&mut out, "keys {\n");
    let mut i: usize = 0;
    while i < keys.len()
        invariant
            i <= keys.len(),
            ks == keys@.map_values(|k: KeyPairText| k@),
            out@ == "keys {\n"@ + key_lines(ks.take(i as int)),
        decreases keys.len() - i,
    {
        let ghost before = out@;
        push_str(&mut out, "    key pos=");
        push_chars(&mut out, &keys[i].pos);
        push_str(&mut out, " val=");
        push_chars(&mut out, &keys[i].val);
        push_str(&mut out, "\n");
        proof {
            assert(ks.take(i + 1).drop_last() =~= ks.take(i as int));
            assert(ks.take(i + 1).last() == keys@[i as int]@);
            assert(out@ =~= before + key_line(keys@[i as int]@));
        }
        i = i + 1;
    }
    assert(ks.take(keys.len() as int) =~= ks);
    push_str(&mut out, "}\n");
    push_str(&mut out, "line_type \"");
    push_str(&mut out, line_type);
    push_str(&mut out, "\"\n");
    out
}

} // verus!
