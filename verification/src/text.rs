//! Verified text utilities: separator-aware splitting and joining, removal of
//! thousands separators, and trimming of identifier lines.
use vstd::prelude::*;

verus! {

/// True when no character of `s` equals `sep`.
pub open spec fn free_of(s: Seq<char>, sep: char) -> bool {
    forall|i: int| 0 <= i < s.len() ==> s[i] != sep
}

/// True when no character of `s` is a comma.
pub open spec fn comma_free(s: Seq<char>) -> bool {
    free_of(s, ',')
}

/// `s` with every comma removed.
pub open spec fn strip_commas_spec(s: Seq<char>) -> Seq<char>
    decreases s.len(),
{
    if s.len() == 0 {
        Seq::empty()
    } else if s.last() == ',' {
        strip_commas_spec(s.drop_last())
    } else {
        strip_commas_spec(s.drop_last()).push(s.last())
    }
}

pub proof fn lemma_strip_commas_is_comma_free(s: Seq<char>)
    ensures
        comma_free(strip_commas_spec(s)),
    decreases s.len(),
{
    if s.len() > 0 {
        lemma_strip_commas_is_comma_free(s.drop_last());
    }
}

/// Removes every comma from `s` (used to drop thousands separators).
pub fn strip_commas(s: &str) -> (r: String)
    ensures
        r@ == strip_commas_spec(s@),
{
    let n = s.unicode_len();
    let mut r = String::new();
    for i in 0..n
        invariant
            n == s@.len(),
            r@ == strip_commas_spec(s@.take(i as int)),
    {
        let c = s.get_char(i);
        proof {
            assert(s@.take(i + 1).drop_last() =~= s@.take(i as int));
            assert(s@.take(i + 1).last() == s@[i as int]);
        }
        if c != ',' {
            let piece = s.substring_char(i, i + 1);
            r.append(piece);
            proof {
                assert(r@ =~= strip_commas_spec(s@.take(i + 1)));
            }
        }
    }
    proof {
        assert(s@.take(n as int) =~= s@);
    }
    r
}

/// The comma-joined form of a list of fields.
pub open spec fn join_spec(fields: Seq<Seq<char>>) -> Seq<char>
    decreases fields.len(),
{
    if fields.len() == 0 {
        Seq::empty()
    } else if fields.len() == 1 {
        fields[0]
    } else {
        join_spec(fields.drop_last()) + seq![','] + fields.last()
    }
}

/// Joins the fields with commas.
pub fn join_fields(fields: &Vec<String>) -> (r: String)
    ensures
        r@ == join_spec(fields@.map_values(|f: String| f@)),
{
    let ghost views = fields@.map_values(|f: String| f@);
    let mut r = String::new();
    for i in 0..fields.len()
        invariant
            views == fields@.map_values(|f: String| f@),
            views.len() == fields@.len(),
            r@ == join_spec(views.take(i as int)),
    {
        if i != 0 {
            r.append(",");
            proof {
                reveal_strlit(",");
            }
        }
        r.append(fields[i].as_str());
        proof {
            assert(views.take(i + 1).drop_last() =~= views.take(i as int));
            assert(views.take(i + 1).last() == views[i as int]);
            if i == 0 {
                assert(r@ =~= join_spec(views.take(i + 1)));
            } else {
                assert(r@ =~= join_spec(views.take(i as int)) + seq![','] + views[i as int]);
                assert(r@ =~= join_spec(views.take(i + 1)));
            }
        }
    }
    proof {
        assert(views.take(fields@.len() as int) =~= views);
    }
    r
}

/// The fields obtained by cutting `s` at every occurrence of `sep`.
/// An input of length zero yields one empty field, as a split does.
pub open spec fn split_on_spec(s: Seq<char>, sep: char) -> Seq<Seq<char>>
    decreases s.len(),
{
    if s.len() == 0 {
        seq![Seq::<char>::empty()]
    } else if s.last() == sep {
        split_on_spec(s.drop_last(), sep).push(Seq::empty())
    } else {
        let rest = split_on_spec(s.drop_last(), sep);
        rest.update(rest.len() - 1, rest.last().push(s.last()))
    }
}

pub proof fn lemma_split_on_len(s: Seq<char>, sep: char)
    ensures
        split_on_spec(s, sep).len() >= 1,
    decreases s.len(),
{
    if s.len() > 0 {
        lemma_split_on_len(s.drop_last(), sep);
    }
}

/// Cuts `s` at every occurrence of `sep`.
pub fn split_on(s: &str, sep: char) -> (r: Vec<String>)
    ensures
        r@.map_values(|f: String| f@) == split_on_spec(s@, sep),
{
    let n = s.unicode_len();
    let mut out: Vec<String> = Vec::new();
    let mut cur = String::new();
    for i in 0..n
        invariant
            n == s@.len(),
            out@.map_values(|f: String| f@).push(cur@) =~= split_on_spec(s@.take(i as int), sep),
    {
        let c = s.get_char(i);
        proof {
            assert(s@.take(i + 1).drop_last() =~= s@.take(i as int));
            assert(s@.take(i + 1).last() == s@[i as int]);
        }
        if c == sep {
            out.push(cur);
            cur = String::new();
            proof {
                assert(out@.map_values(|f: String| f@).push(cur@) =~= split_on_spec(
                    s@.take(i + 1),
                    sep,
                ));
            }
        } else {
            let ghost old_cur = cur@;
            let piece = s.substring_char(i, i + 1);
            cur.append(piece);
            proof {
                let prev = split_on_spec(s@.take(i as int), sep);
                assert(prev.len() >= 1) by {
                    lemma_split_on_len(s@.take(i as int), sep);
                }
                let m = out@.map_values(|f: String| f@);
                assert(prev == m.push(old_cur));
                assert(prev.last() == old_cur);
                assert(cur@ =~= old_cur.push(s@[i as int]));
                assert(m.push(old_cur).update(m.len() as int, old_cur.push(s@[i as int])) =~= m.push(
                    old_cur.push(s@[i as int]),
                ));
                assert(out@.map_values(|f: String| f@).push(cur@) =~= prev.update(
                    prev.len() - 1,
                    prev.last().push(s@[i as int]),
                ));
            }
        }
    }
    proof {
        assert(s@.take(n as int) =~= s@);
    }
    out.push(cur);
    out
}

/// Splitting a row on commas.
pub fn split_row(s: &str) -> (r: Vec<String>)
    ensures
        r@.map_values(|f: String| f@) == split_on_spec(s@, ','),
{
    split_on(s, ',')
}

proof fn lemma_split_on_push(s: Seq<char>, c: char, sep: char)
    ensures
        c == sep ==> split_on_spec(s.push(c), sep) == split_on_spec(s, sep).push(
            Seq::<char>::empty(),
        ),
        c != sep ==> split_on_spec(s.push(c), sep) == split_on_spec(s, sep).update(
            split_on_spec(s, sep).len() - 1,
            split_on_spec(s, sep).last().push(c),
        ),
{
    assert(s.push(c).drop_last() =~= s);
    assert(s.push(c).last() == c);
}

proof fn lemma_split_on_append_free(x: Seq<char>, w: Seq<char>, sep: char)
    requires
        free_of(w, sep),
    ensures
        split_on_spec(x + w, sep) == split_on_spec(x, sep).update(
            split_on_spec(x, sep).len() - 1,
            split_on_spec(x, sep).last() + w,
        ),
    decreases w.len(),
{
    lemma_split_on_len(x, sep);
    let sx = split_on_spec(x, sep);
    if w.len() == 0 {
        assert(x + w =~= x);
        assert(sx.last() + w =~= sx.last());
        assert(sx.update(sx.len() - 1, sx.last() + w) =~= sx);
    } else {
        let w0 = w.drop_last();
        assert(free_of(w0, sep));
        lemma_split_on_append_free(x, w0, sep);
        let mid = split_on_spec(x + w0, sep);
        assert(x + w =~= (x + w0).push(w.last()));
        lemma_split_on_push(x + w0, w.last(), sep);
        assert(w.last() != sep);
        assert(mid.len() == sx.len());
        assert(mid.last() == sx.last() + w0);
        assert((sx.last() + w0).push(w.last()) =~= sx.last() + w);
        assert(split_on_spec(x + w, sep) =~= sx.update(sx.len() - 1, sx.last() + w));
    }
}

/// Law: splitting a comma-joined list of comma-free fields on commas gives
/// back exactly the fields.
pub proof fn lemma_join_split(fields: Seq<Seq<char>>)
    requires
        fields.len() >= 1,
        forall|i: int| 0 <= i < fields.len() ==> comma_free(#[trigger] fields[i]),
    ensures
        split_on_spec(join_spec(fields), ',') == fields,
    decreases fields.len(),
{
    if fields.len() == 1 {
        let w = fields[0];
        assert(Seq::<char>::empty() + w =~= w);
        lemma_split_on_append_free(Seq::<char>::empty(), w, ',');
        assert(split_on_spec(Seq::<char>::empty(), ',') == seq![Seq::<char>::empty()]);
        assert(Seq::<char>::empty() + w =~= w);
        assert(split_on_spec(join_spec(fields), ',') =~= fields);
    } else {
        let init = fields.drop_last();
        let w = fields.last();
        assert(forall|i: int| 0 <= i < init.len() ==> comma_free(#[trigger] init[i]));
        lemma_join_split(init);
        let j = join_spec(init);
        assert(join_spec(fields) == j + seq![','] + w);
        assert(j + seq![','] =~= j.push(','));
        lemma_split_on_push(j, ',', ',');
        let sj = split_on_spec(j, ',');
        let sjc = split_on_spec(j.push(','), ',');
        assert(sjc == sj.push(Seq::<char>::empty()));
        lemma_split_on_len(j, ',');
        assert(j + seq![','] + w =~= j.push(',') + w);
        lemma_split_on_append_free(j.push(','), w, ',');
        assert(sjc.last() == Seq::<char>::empty());
        assert(Seq::<char>::empty() + w =~= w);
        assert(sjc.update(sjc.len() - 1, w) =~= sj.push(w));
        assert(split_on_spec(join_spec(fields), ',') =~= fields);
    }
}

/// A whitespace character as trimming understands it.
pub open spec fn is_space(c: char) -> bool {
    c == ' ' || c == '\t' || c == '\r'
}

/// `s` without its leading whitespace.
pub open spec fn trim_start_spec(s: Seq<char>) -> Seq<char>
    decreases s.len(),
{
    if s.len() > 0 && is_space(s[0]) {
        trim_start_spec(s.drop_first())
    } else {
        s
    }
}

/// `s` without its trailing whitespace.
pub open spec fn trim_end_spec(s: Seq<char>) -> Seq<char>
    decreases s.len(),
{
    if s.len() > 0 && is_space(s.last()) {
        trim_end_spec(s.drop_last())
    } else {
        s
    }
}

/// `s` without leading and trailing whitespace.
pub open spec fn trim_spec(s: Seq<char>) -> Seq<char> {
    trim_end_spec(trim_start_spec(s))
}

proof fn lemma_trim_start_range(s: Seq<char>, a: int)
    requires
        0 <= a <= s.len(),
        forall|i: int| 0 <= i < a ==> is_space(s[i]),
        a < s.len() ==> !is_space(s[a]),
    ensures
        trim_start_spec(s) == s.subrange(a, s.len() as int),
    decreases a,
{
    if a == 0 {
        if s.len() > 0 && is_space(s[0]) {
            assert(false);
        }
        assert(s.subrange(0, s.len() as int) =~= s);
    } else {
        assert(is_space(s[0]));
        let t = s.drop_first();
        assert(forall|i: int| 0 <= i < a - 1 ==> is_space(#[trigger] t[i]));
        lemma_trim_start_range(t, a - 1);
        assert(t.subrange(a - 1, t.len() as int) =~= s.subrange(a, s.len() as int));
    }
}

proof fn lemma_trim_end_range(s: Seq<char>, b: int)
    requires
        0 <= b <= s.len(),
        forall|i: int| b <= i < s.len() ==> is_space(s[i]),
        b > 0 ==> !is_space(s[b - 1]),
    ensures
        trim_end_spec(s) == s.subrange(0, b),
    decreases s.len() - b,
{
    if b == s.len() {
        if s.len() > 0 && is_space(s.last()) {
            assert(false);
        }
        assert(s.subrange(0, s.len() as int) =~= s);
    } else {
        assert(is_space(s.last()));
        let t = s.drop_last();
        lemma_trim_end_range(t, b);
        assert(t.subrange(0, b) =~= s.subrange(0, b));
    }
}

/// Removes leading and trailing whitespace.
pub fn trim(s: &str) -> (r: String)
    ensures
        r@ == trim_spec(s@),
{
    let n = s.unicode_len();
    let mut a: usize = 0;
    while a < n && is_space_char(s.get_char(a))
        invariant
            n == s@.len(),
            a <= n,
            forall|i: int| 0 <= i < a ==> is_space(s@[i]),
        decreases n - a,
    {
        a = a + 1;
    }
    let mut b: usize = n;
    while b > a && is_space_char(s.get_char(b - 1))
        invariant
            n == s@.len(),
            a <= b <= n,
            forall|i: int| 0 <= i < a ==> is_space(s@[i]),
            a < n ==> !is_space(s@[a as int]),
            forall|i: int| b <= i < n ==> is_space(s@[i]),
        decreases b,
    {
        b = b - 1;
    }
    let piece = s.substring_char(a, b);
    proof {
        lemma_trim_start_range(s@, a as int);
        let t = trim_start_spec(s@);
        if b == a {
            lemma_trim_end_range(t, 0);
        } else {
            assert(!is_space(s@[b - 1]));
            assert(forall|i: int| b - a <= i < t.len() ==> is_space(#[trigger] t[i]));
            lemma_trim_end_range(t, b - a);
        }
        assert(t.subrange(0, b - a) =~= s@.subrange(a as int, b as int));
    }
    piece.to_owned()
}

/// Whether `c` counts as whitespace for trimming.
pub fn is_space_char(c: char) -> (r: bool)
    ensures
        r == is_space(c),
{
    c == ' ' || c == '\t' || c == '\r'
}

/// The lines of `text`, each trimmed, with empty lines dropped: processing
/// a prefix of the trimmed lines keeps exactly the non-empty ones, in order.
pub open spec fn keep_nonempty(lines: Seq<Seq<char>>) -> Seq<Seq<char>>
    decreases lines.len(),
{
    if lines.len() == 0 {
        Seq::empty()
    } else if lines.last().len() > 0 {
        keep_nonempty(lines.drop_last()).push(lines.last())
    } else {
        keep_nonempty(lines.drop_last())
    }
}

/// The identifiers carried by a newline-delimited text: its lines, trimmed,
/// with empty lines dropped, in text order.
pub open spec fn identifiers_spec(text: Seq<char>) -> Seq<Seq<char>> {
    keep_nonempty(split_on_spec(text, '\n').map_values(|l: Seq<char>| trim_spec(l)))
}

/// Reads the identifier list out of a newline-delimited text.
pub fn parse_identifiers(text: &str) -> (r: Vec<String>)
    ensures
        r@.map_values(|f: String| f@) == identifiers_spec(text@),
{
    let parts = split_on(text, '\n');
    let ghost trimmed = parts@.map_values(|f: String| f@).map_values(|l: Seq<char>| trim_spec(l));
    let mut out: Vec<String> = Vec::new();
    for i in 0..parts.len()
        invariant
            trimmed == parts@.map_values(|f: String| f@).map_values(|l: Seq<char>| trim_spec(l)),
            trimmed.len() == parts@.len(),
            forall|j: int| 0 <= j < parts@.len() ==> trimmed[j] == trim_spec(parts@[j]@),
            out@.map_values(|f: String| f@) =~= keep_nonempty(trimmed.take(i as int)),
    {
        let t = trim(parts[i].as_str());
        proof {
            assert(trimmed.take(i + 1).drop_last() =~= trimmed.take(i as int));
            assert(trimmed.take(i + 1).last() == trimmed[i as int]);
        }
        if t.unicode_len() > 0 {
            out.push(t);
        }
    }
    proof {
        assert(trimmed.take(parts@.len() as int) =~= trimmed);
    }
    out
}

} // verus!
