//! What is proved of the bevel ramp file as a whole: reading back a written file gives
//! what was written, and the editor's line-type choice survives the trip.
use vstd::prelude::*;
use crate::ramp_file::{
    is_space, no_space, trim, trim_start, trim_end, trim_end_quotes, word_len, words,
    starts_with, key_fields, lines, read_line, read_lines, read_ramp, key_line, key_lines,
    ramp_file_text, ReadState, lemma_word_len_bound, lemma_word_len_exact, line_type_text,
    line_type_choice,
};

verus! {

proof fn lemma_lines_nonempty(s: Seq<char>)
    ensures
        lines(s).len() >= 1,
    decreases s.len(),
{
    if s.len() > 0 {
        lemma_lines_nonempty(s.drop_last());
    }
}

proof fn lemma_lines_single(l: Seq<char>)
    requires
        forall|i: int| 0 <= i < l.len() ==> #[trigger] l[i] != '\n',
    ensures
        lines(l) == seq![l],
    decreases l.len(),
{
    if l.len() > 0 {
        lemma_lines_single(l.drop_last());
        assert(l.drop_last().push(l.last()) =~= l);
        assert(seq![l.drop_last()].update(0, l.drop_last().push(l.last())) =~= seq![l]);
    } else {
        assert(l =~= Seq::<char>::empty());
    }
}

proof fn lemma_lines_append(a: Seq<char>, b: Seq<char>)
    requires
        a.len() > 0,
        a.last() == '\n',
    ensures
        lines(a + b) == lines(a).drop_last() + lines(b),
    decreases b.len(),
{
    if b.len() == 0 {
        assert(a + b =~= a);
        assert(lines(a.drop_last()).push(seq![]).drop_last() + seq![seq![]] =~= lines(
            a.drop_last(),
        ).push(seq![]));
    } else {
        let b1 = b.drop_last();
        let c = b.last();
        lemma_lines_append(a, b1);
        lemma_lines_nonempty(b1);
        assert((a + b).drop_last() =~= a + b1);
        assert((a + b).last() == c);
        let x = lines(a).drop_last();
        let y = lines(b1);
        if c == '\n' {
            assert((x + y).push(seq![]) =~= x + y.push(seq![]));
        } else {
            assert((x + y).update((x + y).len() - 1, (x + y).last().push(c)) =~= x + y.update(
                y.len() - 1,
                y.last().push(c),
            ));
        }
    }
}

/// The pieces of a text that starts with a line `l` and its line feed.
proof fn lemma_lines_line(l: Seq<char>, b: Seq<char>)
    requires
        forall|i: int| 0 <= i < l.len() ==> #[trigger] l[i] != '\n',
    ensures
        lines(l + "\n"@ + b) == seq![l] + lines(b),
{
    reveal_strlit("\n");
    let a = l + "\n"@;
    lemma_lines_single(l);
    assert(a.drop_last() =~= l);
    assert(lines(a) == seq![l].push(seq![]));
    lemma_lines_append(a, b);
    assert(seq![l].push(seq![]).drop_last() =~= seq![l]);
}

/// Reading `xs` then `ys` is reading `xs + ys`.
proof fn lemma_read_lines_append(st: ReadState, xs: Seq<Seq<char>>, ys: Seq<Seq<char>>)
    ensures
        read_lines(st, xs + ys) == read_lines(read_lines(st, xs), ys),
    decreases ys.len(),
{
    if ys.len() == 0 {
        assert(xs + ys =~= xs);
    } else {
        lemma_read_lines_append(st, xs, ys.drop_last());
        assert((xs + ys).drop_last() =~= xs + ys.drop_last());
        assert((xs + ys).last() == ys.last());
    }
}

proof fn lemma_read_lines_one(st: ReadState, x: Seq<char>)
    ensures
        read_lines(st, seq![x]) == read_line(st, x),
{
    assert(seq![x].drop_last() =~= Seq::<Seq<char>>::empty());
    assert(read_lines(st, Seq::<Seq<char>>::empty()) == st);
}

proof fn lemma_trim_same(s: Seq<char>)
    requires
        s.len() > 0,
        !is_space(s[0]),
        !is_space(s.last()),
    ensures
        trim(s) == s,
{
}

proof fn lemma_words_single(w: Seq<char>)
    requires
        w.len() > 0,
        no_space(w),
    ensures
        words(w) == seq![w],
{
    assert(!is_space(w[0]));
    lemma_word_len_exact(w, w.len() as int);
    assert(w.take(w.len() as int) =~= w);
    assert(w.skip(w.len() as int) =~= Seq::<char>::empty());
    assert(words(Seq::<char>::empty()) == Seq::<Seq<char>>::empty());
    assert(words(w) == seq![w] + Seq::<Seq<char>>::empty());
    assert(seq![w] + Seq::<Seq<char>>::empty() =~= seq![w]);
}

proof fn lemma_words_cons(w: Seq<char>, r: Seq<char>)
    requires
        w.len() > 0,
        no_space(w),
    ensures
        words(w + " "@ + r) == seq![w] + words(r),
{
    reveal_strlit(" ");
    let s = w + " "@ + r;
    assert(s[w.len() as int] == ' ');
    assert forall|j: int| 0 <= j < w.len() implies !is_space(#[trigger] s[j]) by {
        assert(s[j] == w[j]);
    }
    lemma_word_len_exact(s, w.len() as int);
    lemma_word_len_bound(s);
    assert(s.take(w.len() as int) =~= w);
    let rest = s.skip(w.len() as int);
    assert(rest.drop_first() =~= r);
    assert(rest[0] == ' ');
    assert(words(rest) == words(r));
    assert(s[0] == w[0]);
    assert(!is_space(s[0]));
    assert(words(s) == seq![s.take(word_len(s) as int)] + words(s.skip(word_len(s) as int)));
}

/// No key text of `ks` holds white space.
pub open spec fn keys_without_space(ks: Seq<(Seq<char>, Seq<char>)>) -> bool {
    forall|i: int| 0 <= i < ks.len() ==> no_space(#[trigger] ks[i].0) && no_space(ks[i].1)
}

/// A written key line, without its line feed.
pub open spec fn key_body(k: (Seq<char>, Seq<char>)) -> Seq<char> {
    "    key pos="@ + k.0 + " val="@ + k.1
}

/// A key as reading gives it back: both texts present.
pub open spec fn read_pair(k: (Seq<char>, Seq<char>)) -> (Option<Seq<char>>, Option<Seq<char>>) {
    (Some(k.0), Some(k.1))
}

proof fn lemma_read_key_line(st: ReadState, k: (Seq<char>, Seq<char>))
    requires
        no_space(k.0),
        no_space(k.1),
    ensures
        read_line(st, key_body(k)) == (st.0.push(read_pair(k)), st.1),
{
    reveal_strlit("    key pos=");
    reveal_strlit(" val=");
    reveal_strlit("key ");
    reveal_strlit("key");
    reveal_strlit(" ");
    reveal_strlit("pos=");
    reveal_strlit("val=");
    let (p, v) = k;
    let raw = key_body(k);
    let t = "key"@ + " "@ + ("pos="@ + p) + " "@ + ("val="@ + v);
    assert(raw.skip(4) =~= t);
    assert forall|j: int| 0 <= j < 4 implies is_space(#[trigger] raw[j]) by {}
    assert(raw[4] == 'k');
    crate::ramp_file::lemma_trim_start_skip(raw, 4);
    assert(t.len() > 0 && !is_space(t[0]));
    if v.len() > 0 {
        assert(t.last() == v.last());
    } else {
        assert(t.last() == '=');
    }
    assert(trim_start(t) == t);
    assert(trim_end(t) == t);
    assert(trim(raw) == t);
    assert(t.take(4) =~= "key "@);
    let w1 = "pos="@ + p;
    let w2 = "val="@ + v;
    assert forall|j: int| 0 <= j < w1.len() implies !is_space(#[trigger] w1[j]) by {
        if j >= 4 {
            assert(w1[j] == p[j - 4]);
        }
    }
    assert forall|j: int| 0 <= j < w2.len() implies !is_space(#[trigger] w2[j]) by {
        if j >= 4 {
            assert(w2[j] == v[j - 4]);
        }
    }
    assert("key"@.len() == 3);
    lemma_words_cons("key"@, w1 + " "@ + w2);
    assert("key"@ + " "@ + (w1 + " "@ + w2) =~= t);
    lemma_words_cons(w1, w2);
    lemma_words_single(w2);
    let ws = seq!["key"@, w1, w2];
    assert(words(t) =~= ws);
    assert(!starts_with("key"@, "pos="@));
    assert(!starts_with("key"@, "val="@));
    assert(w1.take(4) =~= "pos="@);
    assert(w1.skip(4) =~= p);
    assert(w2.take(4)[0] == 'v');
    assert(!starts_with(w2, "pos="@));
    assert(w2.take(4) =~= "val="@);
    assert(w2.skip(4) =~= v);
    assert(ws.drop_last() =~= seq!["key"@, w1]);
    assert(seq!["key"@, w1].drop_last() =~= seq!["key"@]);
    assert(seq!["key"@].drop_last() =~= Seq::<Seq<char>>::empty());
    assert(key_fields(Seq::<Seq<char>>::empty()) == (None::<Seq<char>>, None::<Seq<char>>));
    assert(seq!["key"@].last() == "key"@);
    assert(key_fields(seq!["key"@]) == (None::<Seq<char>>, None::<Seq<char>>));
    assert(key_fields(seq!["key"@, w1]) == (Some(p), None::<Seq<char>>));
    assert(key_fields(ws) == (Some(p), Some(v)));
}

proof fn lemma_read_keys(st: ReadState, ks: Seq<(Seq<char>, Seq<char>)>)
    requires
        keys_without_space(ks),
    ensures
        read_lines(st, ks.map_values(|k: (Seq<char>, Seq<char>)| key_body(k))) == (
            st.0 + ks.map_values(|k: (Seq<char>, Seq<char>)| read_pair(k)),
            st.1,
        ),
    decreases ks.len(),
{
    let bodies = ks.map_values(|k: (Seq<char>, Seq<char>)| key_body(k));
    let pairs = ks.map_values(|k: (Seq<char>, Seq<char>)| read_pair(k));
    if ks.len() == 0 {
        assert(bodies =~= Seq::<Seq<char>>::empty());
        assert(st.0 + pairs =~= st.0);
    } else {
        let ks1 = ks.drop_last();
        let k = ks.last();
        assert(no_space(ks[ks.len() - 1].0));
        assert(keys_without_space(ks1)) by {
            assert forall|i: int| 0 <= i < ks1.len() implies no_space(#[trigger] ks1[i].0) && no_space(ks1[i].1) by {
                assert(ks1[i] == ks[i]);
            }
        }
        lemma_read_keys(st, ks1);
        let b1 = ks1.map_values(|k: (Seq<char>, Seq<char>)| key_body(k));
        assert(bodies =~= b1 + seq![key_body(k)]);
        lemma_read_lines_append(st, b1, seq![key_body(k)]);
        lemma_read_lines_one(read_lines(st, b1), key_body(k));
        lemma_read_key_line(read_lines(st, b1), k);
        assert(st.0 + pairs =~= (st.0 + ks1.map_values(|k: (Seq<char>, Seq<char>)| read_pair(k))).push(
            read_pair(k),
        ));
    }
}

proof fn lemma_lines_of_keys(ks: Seq<(Seq<char>, Seq<char>)>, rest: Seq<char>)
    requires
        keys_without_space(ks),
    ensures
        lines(key_lines(ks) + rest) == ks.map_values(|k: (Seq<char>, Seq<char>)| key_body(k))
            + lines(rest),
    decreases ks.len(),
{
    let bodies = ks.map_values(|k: (Seq<char>, Seq<char>)| key_body(k));
    if ks.len() == 0 {
        assert(key_lines(ks) + rest =~= rest);
        assert(bodies + lines(rest) =~= lines(rest));
    } else {
        let ks1 = ks.drop_last();
        let k = ks.last();
        assert(no_space(ks[ks.len() - 1].0) && no_space(ks[ks.len() - 1].1));
        assert(keys_without_space(ks1)) by {
            assert forall|i: int| 0 <= i < ks1.len() implies no_space(#[trigger] ks1[i].0) && no_space(ks1[i].1) by {
                assert(ks1[i] == ks[i]);
            }
        }
        reveal_strlit("    key pos=");
        reveal_strlit(" val=");
        reveal_strlit("\n");
        let body = key_body(k);
        assert forall|i: int| 0 <= i < body.len() implies #[trigger] body[i] != '\n' by {
            let n1: int = "    key pos="@.len() as int;
            let n2: int = n1 + k.0.len();
            let n3: int = n2 + " val="@.len();
            if i < n1 {
            } else if i < n2 {
                assert(body[i] == k.0[i - n1]);
            } else if i < n3 {
            } else {
                assert(body[i] == k.1[i - n3]);
            }
        }
        lemma_lines_of_keys(ks1, key_line(k) + rest);
        assert(key_lines(ks) + rest =~= key_lines(ks1) + (key_line(k) + rest));
        assert(key_line(k) + rest =~= body + "\n"@ + rest);
        lemma_lines_line(body, rest);
        assert(bodies =~= ks1.map_values(|k: (Seq<char>, Seq<char>)| key_body(k)) + seq![body]);
    }
}

proof fn lemma_read_other_lines(st: ReadState)
    ensures
        read_line(st, "keys {"@) == st,
        read_line(st, "}"@) == st,
        read_line(st, Seq::<char>::empty()) == st,
{
    reveal_strlit("keys {");
    reveal_strlit("}");
    reveal_strlit("key ");
    reveal_strlit("line_type ");
    let a = "keys {"@;
    lemma_trim_same(a);
    assert(a.take(4)[3] != "key "@[3]);
    lemma_trim_same("}"@);
    assert(trim(Seq::<char>::empty()) =~= Seq::<char>::empty());
}

proof fn lemma_read_line_type(st: ReadState, lt: Seq<char>)
    requires
        no_space(lt),
        lt.len() == 0 || (lt[0] != '"' && lt.last() != '"'),
    ensures
        read_line(st, "line_type \""@ + lt + "\""@) == (st.0, Some(lt)),
{
    reveal_strlit("line_type \"");
    reveal_strlit("\"");
    reveal_strlit("key ");
    reveal_strlit("line_type ");
    reveal_strlit("line_type");
    reveal_strlit(" ");
    let raw = "line_type \""@ + lt + "\""@;
    let q = "\""@ + lt + "\""@;
    lemma_trim_same(raw);
    assert(raw.take(4)[0] != "key "@[0]);
    assert(raw.take(10) =~= "line_type "@);
    assert forall|j: int| 0 <= j < q.len() implies !is_space(#[trigger] q[j]) by {
        if 1 <= j < q.len() - 1 {
            assert(q[j] == lt[j - 1]);
        }
    }
    assert("line_type"@ + " "@ + q =~= raw);
    lemma_words_cons("line_type"@, q);
    lemma_words_single(q);
    assert(words(raw) =~= seq!["line_type"@, q]);
    if lt.len() == 0 {
        crate::ramp_file::lemma_trim_start_quotes_skip(q, 2);
        assert(q.skip(2) =~= Seq::<char>::empty());
        assert(trim_end_quotes(Seq::<char>::empty()) == Seq::<char>::empty());
        assert(lt =~= Seq::<char>::empty());
    } else {
        crate::ramp_file::lemma_trim_start_quotes_skip(q, 1);
        let r = q.skip(1);
        assert(r =~= lt + "\""@);
        assert forall|j: int| lt.len() <= j < r.len() implies #[trigger] r[j] == '"' by {}
        crate::ramp_file::lemma_trim_end_quotes_take(r, lt.len() as int);
        assert(r.take(lt.len() as int) =~= lt);
    }
}

/// Reading back a written bevel ramp file gives exactly the keys, in order, and the
/// line type that were written, for texts without white space (a written number never
/// has any) and a line type that neither starts nor ends with a double quote.
pub proof fn lemma_read_written(ks: Seq<(Seq<char>, Seq<char>)>, lt: Seq<char>)
    requires
        keys_without_space(ks),
        no_space(lt),
        lt.len() == 0 || (lt[0] != '"' && lt.last() != '"'),
    ensures
        read_ramp(ramp_file_text(ks, lt)) == (
            ks.map_values(|k: (Seq<char>, Seq<char>)| read_pair(k)),
            lt,
        ),
{
    reveal_strlit("keys {\n");
    reveal_strlit("keys {");
    reveal_strlit("}\n");
    reveal_strlit("}");
    reveal_strlit("line_type \"");
    reveal_strlit("\"\n");
    reveal_strlit("\"");
    reveal_strlit("\n");
    let lt_line = "line_type \""@ + lt + "\""@;
    let rest = "}\n"@ + "line_type \""@ + lt + "\"\n"@;
    let text = ramp_file_text(ks, lt);
    assert(text =~= "keys {"@ + "\n"@ + (key_lines(ks) + rest));
    lemma_lines_line("keys {"@, key_lines(ks) + rest);
    lemma_lines_of_keys(ks, rest);
    assert(rest =~= "}"@ + "\n"@ + (lt_line + "\n"@ + Seq::<char>::empty()));
    lemma_lines_line("}"@, lt_line + "\n"@ + Seq::<char>::empty());
    assert forall|i: int| 0 <= i < lt_line.len() implies #[trigger] lt_line[i] != '\n' by {
        if 11 <= i < lt_line.len() - 1 {
            assert(lt_line[i] == lt[i - 11]);
        }
    }
    lemma_lines_line(lt_line, Seq::<char>::empty());
    assert(lines(Seq::<char>::empty()) =~= seq![Seq::<char>::empty()]);
    let bodies = ks.map_values(|k: (Seq<char>, Seq<char>)| key_body(k));
    let tail = seq!["}"@, lt_line, Seq::<char>::empty()];
    assert(lines(text) =~= seq!["keys {"@] + bodies + tail);
    let init: ReadState = (seq![], None);
    lemma_read_lines_append(init, seq!["keys {"@] + bodies, tail);
    lemma_read_lines_append(init, seq!["keys {"@], bodies);
    lemma_read_lines_one(init, "keys {"@);
    lemma_read_other_lines(init);
    lemma_read_keys(init, ks);
    let st1: ReadState = (
        Seq::<(Option<Seq<char>>, Option<Seq<char>>)>::empty() + ks.map_values(
            |k: (Seq<char>, Seq<char>)| read_pair(k),
        ),
        None,
    );
    assert(tail =~= seq!["}"@] + seq![lt_line] + seq![Seq::<char>::empty()]);
    lemma_read_lines_append(st1, seq!["}"@] + seq![lt_line], seq![Seq::<char>::empty()]);
    lemma_read_lines_append(st1, seq!["}"@], seq![lt_line]);
    lemma_read_lines_one(st1, "}"@);
    lemma_read_other_lines(st1);
    lemma_read_lines_one(st1, lt_line);
    lemma_read_line_type(st1, lt);
    let st2: ReadState = (st1.0, Some(lt));
    lemma_read_lines_one(st2, Seq::<char>::empty());
    lemma_read_other_lines(st2);
    assert(st1.0 =~= ks.map_values(|k: (Seq<char>, Seq<char>)| read_pair(k)));
}

/// The editor's line-type selection survives being written and read back: reading the
/// file written for keys `ks` and selection `selected` gives the same keys, and the
/// selection it gives back is `selected` (entry 1, bezier) or entry 0 (linear) for any
/// other selection.
pub proof fn lemma_editor_state_survives(ks: Seq<(Seq<char>, Seq<char>)>, selected: usize)
    requires
        keys_without_space(ks),
    ensures
        read_ramp(ramp_file_text(ks, line_type_text(selected))).0 == ks.map_values(
            |k: (Seq<char>, Seq<char>)| read_pair(k),
        ),
        line_type_choice(read_ramp(ramp_file_text(ks, line_type_text(selected))).1) == (
        if selected == 1 {
            1usize
        } else {
            0usize
        }),
{
    reveal_strlit("bezier");
    reveal_strlit("linear");
    let lt = line_type_text(selected);
    assert(no_space(lt));
    assert(lt[0] != '"' && lt.last() != '"');
    lemma_read_written(ks, lt);
    assert("linear"@[0] != "bezier"@[0]);
}


/// The words of a `key` line made of two further words.
proof fn lemma_key_line_words(w1: Seq<char>, w2: Seq<char>)
    requires
        w1.len() > 0,
        w2.len() > 0,
        no_space(w1),
        no_space(w2),
    ensures
        ({
            let raw = "key "@ + w1 + " "@ + w2;
            &&& trim(raw) == raw
            &&& starts_with(raw, "key "@)
            &&& words(raw) == seq!["key"@, w1, w2]
            &&& forall|i: int| 0 <= i < raw.len() ==> #[trigger] raw[i] != '\n'
        }),
{
    reveal_strlit("key ");
    reveal_strlit("key");
    reveal_strlit(" ");
    let raw = "key "@ + w1 + " "@ + w2;
    assert(!is_space(w2[w2.len() - 1]));
    assert(raw.last() == w2.last());
    assert(raw[0] == 'k');
    assert(trim_start(raw) == raw);
    assert(trim_end(raw) == raw);
    assert(raw.take(4) =~= "key "@);
    assert("key"@ + " "@ + (w1 + " "@ + w2) =~= raw);
    assert("key"@.len() == 3);
    lemma_words_cons("key"@, w1 + " "@ + w2);
    lemma_words_cons(w1, w2);
    lemma_words_single(w2);
    assert(words(raw) =~= seq!["key"@, w1, w2]);
    assert forall|i: int| 0 <= i < raw.len() implies #[trigger] raw[i] != '\n' by {
        if 4 <= i < 4 + w1.len() {
            assert(raw[i] == w1[i - 4]);
            assert(!is_space(w1[i - 4]));
        } else if i >= 5 + w1.len() {
            assert(raw[i] == w2[i - 5 - w1.len()]);
            assert(!is_space(w2[i - 5 - w1.len()]));
        }
    }
}

proof fn lemma_prefixed_word(pre: Seq<char>, t: Seq<char>)
    requires
        pre.len() == 4,
        no_space(pre),
        no_space(t),
    ensures
        no_space(pre + t),
        (pre + t).len() > 0,
        (pre + t).take(4) == pre,
        (pre + t).skip(4) == t,
{
    let w = pre + t;
    assert forall|j: int| 0 <= j < w.len() implies !is_space(#[trigger] w[j]) by {
        if j >= 4 {
            assert(w[j] == t[j - 4]);
        } else {
            assert(w[j] == pre[j]);
        }
    }
    assert(w.take(4) =~= pre);
    assert(w.skip(4) =~= t);
}

/// The file made of one line `raw` and its line feed reads as that line alone.
proof fn lemma_read_one_line_file(raw: Seq<char>)
    requires
        forall|i: int| 0 <= i < raw.len() ==> #[trigger] raw[i] != '\n',
    ensures
        read_ramp(raw + "\n"@).0 == read_line((seq![], None), raw).0,
{
    let init: ReadState = (seq![], None);
    assert(raw + "\n"@ =~= raw + "\n"@ + Seq::<char>::empty());
    lemma_lines_line(raw, Seq::<char>::empty());
    assert(lines(Seq::<char>::empty()) =~= seq![Seq::<char>::empty()]);
    assert(lines(raw + "\n"@) =~= seq![raw] + seq![Seq::<char>::empty()]);
    lemma_read_lines_append(init, seq![raw], seq![Seq::<char>::empty()]);
    lemma_read_lines_one(init, raw);
    let st = read_line(init, raw);
    lemma_read_lines_one(st, Seq::<char>::empty());
    lemma_read_other_lines(st);
    assert(read_lines(init, lines(raw + "\n"@)) == st);
}

/// A `key` line gives its position and its value whatever the order of its `pos=` and
/// `val=` words: both `key pos=P val=V` and `key val=V pos=P` read as the one key
/// (P, V), for texts without white space.
pub proof fn lemma_key_words_in_any_order(p: Seq<char>, v: Seq<char>)
    requires
        no_space(p),
        no_space(v),
    ensures
        read_ramp("key pos="@ + p + " val="@ + v + "\n"@).0 == seq![(Some(p), Some(v))],
        read_ramp("key val="@ + v + " pos="@ + p + "\n"@).0 == seq![(Some(p), Some(v))],
{
    reveal_strlit("key pos=");
    reveal_strlit("key val=");
    reveal_strlit(" val=");
    reveal_strlit(" pos=");
    reveal_strlit("key ");
    reveal_strlit("pos=");
    reveal_strlit("val=");
    reveal_strlit(" ");
    reveal_strlit("key");
    reveal_strlit("\n");
    assert(no_space("pos="@));
    assert(no_space("val="@));
    lemma_prefixed_word("pos="@, p);
    lemma_prefixed_word("val="@, v);
    let wp = "pos="@ + p;
    let wv = "val="@ + v;
    assert(wv.take(4)[0] == 'v');
    assert(!starts_with(wv, "pos="@));
    assert(!starts_with("key"@, "pos="@));
    assert(!starts_with("key"@, "val="@));
    assert(key_fields(Seq::<Seq<char>>::empty()) == (None::<Seq<char>>, None::<Seq<char>>));
    assert(seq!["key"@].drop_last() =~= Seq::<Seq<char>>::empty());
    assert(seq!["key"@].last() == "key"@);
    assert(key_fields(seq!["key"@]) == (None::<Seq<char>>, None::<Seq<char>>));
    let init: ReadState = (seq![], None);
    // pos= first.
    lemma_key_line_words(wp, wv);
    let a = "key "@ + wp + " "@ + wv;
    assert("key pos="@ + p + " val="@ + v =~= a);
    assert(seq!["key"@, wp, wv].drop_last() =~= seq!["key"@, wp]);
    assert(seq!["key"@, wp].drop_last() =~= seq!["key"@]);
    assert(key_fields(seq!["key"@, wp]) == (Some(p), None::<Seq<char>>));
    assert(key_fields(seq!["key"@, wp, wv]) == (Some(p), Some(v)));
    lemma_read_one_line_file(a);
    assert("key pos="@ + p + " val="@ + v + "\n"@ =~= a + "\n"@);
    assert(read_line(init, a).0 =~= seq![(Some(p), Some(v))]);
    // val= first.
    lemma_key_line_words(wv, wp);
    let b = "key "@ + wv + " "@ + wp;
    assert("key val="@ + v + " pos="@ + p =~= b);
    assert(seq!["key"@, wv, wp].drop_last() =~= seq!["key"@, wv]);
    assert(seq!["key"@, wv].drop_last() =~= seq!["key"@]);
    assert(key_fields(seq!["key"@, wv]) == (None::<Seq<char>>, Some(v)));
    assert(key_fields(seq!["key"@, wv, wp]) == (Some(p), Some(v)));
    lemma_read_one_line_file(b);
    assert("key val="@ + v + " pos="@ + p + "\n"@ =~= b + "\n"@);
    assert(read_line(init, b).0 =~= seq![(Some(p), Some(v))]);
}

} // verus!
