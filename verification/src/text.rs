//! Character and string primitives that the rest of the library is written
//! against: Unicode white space, ASCII case folding, trimming, searching,
//! splitting, word normalisation, decimal rendering and UTF-16 encoding.
//! Every function here is stated over the `Seq<char>` view of its strings.

use vstd::prelude::*;

verus! {

/// The Unicode `White_Space` property (PropList.txt): the characters that
/// `char::is_whitespace` accepts and that `str::trim` and
/// `str::split_whitespace` treat as separators.
pub open spec fn is_white_space(c: char) -> bool {
    let u = c as u32;
    ||| 0x09 <= u <= 0x0D
    ||| u == 0x20
    ||| u == 0x85
    ||| u == 0xA0
    ||| u == 0x1680
    ||| 0x2000 <= u <= 0x200A
    ||| u == 0x2028
    ||| u == 0x2029
    ||| u == 0x202F
    ||| u == 0x205F
    ||| u == 0x3000
}

/// Whether `c` is Unicode white space.
pub fn is_whitespace_char(c: char) -> (r: bool)
    ensures
        r == is_white_space(c),
{
    let u = c as u32;
    (0x09 <= u && u <= 0x0D) || u == 0x20 || u == 0x85 || u == 0xA0 || u == 0x1680 || (0x2000
        <= u && u <= 0x200A) || u == 0x2028 || u == 0x2029 || u == 0x202F || u == 0x205F || u
        == 0x3000
}

/// ASCII lower-casing of one character: `A`..`Z` map to `a`..`z`, every other
/// character is left alone.
pub open spec fn ascii_lower(c: char) -> char {
    if 'A' <= c && c <= 'Z' {
        ((c as u32) + 32) as char
    } else {
        c
    }
}

/// ASCII lower-casing of every character of a sequence.
pub open spec fn lower_seq(s: Seq<char>) -> Seq<char> {
    s.map_values(|c: char| ascii_lower(c))
}

/// The ASCII lower-case form of `c`.
pub fn ascii_lower_char(c: char) -> (r: char)
    ensures
        r == ascii_lower(c),
{
    if 'A' <= c && c <= 'Z' {
        ((c as u8) + 32) as char
    } else {
        c
    }
}

/// Appends one character to a string (std `String::push`).
#[verifier::external_body]
pub(crate) fn push_char(s: &mut String, c: char)
    ensures
        final(s)@ == old(s)@.push(c),
{
    s.push(c);
}

/// The characters of `s`, in order.
pub fn chars_of(s: &str) -> (r: Vec<char>)
    ensures
        r@ == s@,
{
    let mut out: Vec<char> = Vec::new();
    for c in it: s.chars()
        invariant
            out@ == it.seq().take(it.index()),
            it.seq() == s@,
    {
        out.push(c);
    }
    out
}

/// The string made of the characters `v[from..to]`.
pub fn string_from_range(v: &Vec<char>, from: usize, to: usize) -> (r: String)
    requires
        from <= to <= v.len(),
    ensures
        r@ == v@.subrange(from as int, to as int),
{
    let mut s = String::new();
    let mut i: usize = from;
    while i < to
        invariant
            from <= i <= to <= v.len(),
            s@ == v@.subrange(from as int, i as int),
        decreases to - i,
    {
        push_char(&mut s, v[i]);
        assert(v@.subrange(from as int, i + 1) == v@.subrange(from as int, i as int).push(
            v@[i as int],
        ));
        i += 1;
    }
    s
}

/// Whether two strings hold the same characters.
pub fn str_eq(a: &str, b: &str) -> (r: bool)
    ensures
        r == (a@ == b@),
{
    let va = chars_of(a);
    let vb = chars_of(b);
    if va.len() != vb.len() {
        return false;
    }
    let mut i: usize = 0;
    while i < va.len()
        invariant
            va@ == a@,
            vb@ == b@,
            va.len() == vb.len(),
            i <= va.len(),
            forall|k: int| 0 <= k < i ==> va@[k] == vb@[k],
        decreases va.len() - i,
    {
        if va[i] != vb[i] {
            return false;
        }
        i += 1;
    }
    assert(va@ =~= vb@);
    true
}

/// `s` with every ASCII upper-case letter lowered (std `str::to_ascii_lowercase`).
pub fn to_ascii_lowercase(s: &str) -> (r: String)
    ensures
        r@ == lower_seq(s@),
{
    let v = chars_of(s);
    let mut out = String::new();
    let mut i: usize = 0;
    while i < v.len()
        invariant
            v@ == s@,
            i <= v.len(),
            out@ == lower_seq(v@.take(i as int)),
        decreases v.len() - i,
    {
        let c = ascii_lower_char(v[i]);
        push_char(&mut out, c);
        assert(lower_seq(v@.take(i + 1)) == lower_seq(v@.take(i as int)).push(ascii_lower(v@[i as int])))
            by {
            assert(v@.take(i + 1) == v@.take(i as int).push(v@[i as int]));
        }
        i += 1;
    }
    assert(v@.take(v@.len() as int) == v@);
    out
}

/// Whether `a` and `b` are equal up to ASCII case (std `str::eq_ignore_ascii_case`).
pub fn eq_ignore_ascii_case(a: &str, b: &str) -> (r: bool)
    ensures
        r == (lower_seq(a@) == lower_seq(b@)),
{
    let la = to_ascii_lowercase(a);
    let lb = to_ascii_lowercase(b);
    str_eq(la.as_str(), lb.as_str())
}

/// `s` without its leading white space.
pub open spec fn trim_start_seq(s: Seq<char>) -> Seq<char>
    decreases s.len(),
{
    if s.len() > 0 && is_white_space(s[0]) {
        trim_start_seq(s.drop_first())
    } else {
        s
    }
}

/// `s` without its trailing white space.
pub open spec fn trim_end_seq(s: Seq<char>) -> Seq<char>
    decreases s.len(),
{
    if s.len() > 0 && is_white_space(s.last()) {
        trim_end_seq(s.drop_last())
    } else {
        s
    }
}

/// `s` without leading or trailing white space (std `str::trim`).
pub open spec fn trim_seq(s: Seq<char>) -> Seq<char> {
    trim_end_seq(trim_start_seq(s))
}

/// A trimmed sequence neither starts nor ends with white space, and is a
/// contiguous piece of the input.
pub proof fn lemma_trim_shape(s: Seq<char>)
    ensures
        trim_seq(s).len() > 0 ==> !is_white_space(trim_seq(s)[0]),
        trim_seq(s).len() > 0 ==> !is_white_space(trim_seq(s).last()),
        exists|a: int, b: int|
            0 <= a <= b <= s.len() && #[trigger] s.subrange(a, b) == trim_seq(s),
    decreases s.len(),
{
    lemma_trim_start_shape(s);
    let t = trim_start_seq(s);
    let a = choose|a: int| 0 <= a <= s.len() && #[trigger] s.subrange(a, s.len() as int) == t;
    lemma_trim_end_shape(t);
    let b = choose|b: int| 0 <= b <= t.len() && #[trigger] t.subrange(0, b) == trim_end_seq(t);
    assert(s.subrange(a, a + b) == trim_seq(s));
}

/// Trimming the front leaves a suffix that does not start with white space.
pub proof fn lemma_trim_start_shape(s: Seq<char>)
    ensures
        trim_start_seq(s).len() > 0 ==> !is_white_space(trim_start_seq(s)[0]),
        exists|a: int| 0 <= a <= s.len() && #[trigger] s.subrange(a, s.len() as int) == trim_start_seq(s),
    decreases s.len(),
{
    if s.len() > 0 && is_white_space(s[0]) {
        lemma_trim_start_shape(s.drop_first());
        let a = choose|a: int|
            0 <= a <= s.drop_first().len() && #[trigger] s.drop_first().subrange(
                a,
                s.drop_first().len() as int,
            ) == trim_start_seq(s.drop_first());
        assert(s.subrange(a + 1, s.len() as int) == s.drop_first().subrange(a, s.drop_first().len() as int));
    } else {
        assert(s.subrange(0, s.len() as int) == s);
    }
}

/// Trimming the back leaves a prefix that does not end with white space.
pub proof fn lemma_trim_end_shape(s: Seq<char>)
    ensures
        trim_end_seq(s).len() > 0 ==> !is_white_space(trim_end_seq(s).last()),
        trim_end_seq(s).len() > 0 && s.len() > 0 ==> trim_end_seq(s)[0] == s[0],
        exists|b: int| 0 <= b <= s.len() && #[trigger] s.subrange(0, b) == trim_end_seq(s),
    decreases s.len(),
{
    if s.len() > 0 && is_white_space(s.last()) {
        lemma_trim_end_shape(s.drop_last());
        let b = choose|b: int|
            0 <= b <= s.drop_last().len() && #[trigger] s.drop_last().subrange(0, b)
                == trim_end_seq(s.drop_last());
        assert(s.subrange(0, b) == s.drop_last().subrange(0, b));
    } else {
        assert(s.subrange(0, s.len() as int) == s);
    }
}

/// `s` with leading and trailing white space removed (std `str::trim`).
pub fn trim(s: &str) -> (r: String)
    ensures
        r@ == trim_seq(s@),
{
    let v = chars_of(s);
    let n = v.len();
    let mut a: usize = 0;
    assert(v@.subrange(0, n as int) == v@);
    while a < n && is_whitespace_char(v[a])
        invariant
            v@ == s@,
            n == v.len(),
            a <= n,
            trim_start_seq(v@) == trim_start_seq(v@.subrange(a as int, n as int)),
        decreases n - a,
    {
        assert(v@.subrange(a as int, n as int).drop_first() == v@.subrange(a + 1, n as int));
        a += 1;
    }
    assert(trim_start_seq(v@) == v@.subrange(a as int, n as int));
    let mut b: usize = n;
    while b > a && is_whitespace_char(v[b - 1])
        invariant
            v@ == s@,
            n == v.len(),
            a <= b <= n,
            trim_end_seq(v@.subrange(a as int, n as int)) == trim_end_seq(
                v@.subrange(a as int, b as int),
            ),
        decreases b - a,
    {
        assert(v@.subrange(a as int, b as int).drop_last() == v@.subrange(a as int, b - 1));
        b -= 1;
    }
    string_from_range(&v, a, b)
}

/// Whether `pat` occurs in `s` at position `i`.
pub open spec fn occurs_at(s: Seq<char>, pat: Seq<char>, i: int) -> bool {
    0 <= i && i + pat.len() <= s.len() && s.subrange(i, i + pat.len()) == pat
}

/// Whether `pat` occurs anywhere in `s` (std `str::contains` with a `&str`
/// pattern); the empty pattern occurs in every string.
pub open spec fn contains_seq(s: Seq<char>, pat: Seq<char>) -> bool {
    exists|i: int| occurs_at(s, pat, i)
}

fn occurs_at_exec(v: &Vec<char>, p: &Vec<char>, i: usize) -> (r: bool)
    requires
        i + p.len() <= v.len(),
    ensures
        r == occurs_at(v@, p@, i as int),
{
    let mut k: usize = 0;
    while k < p.len()
        invariant
            i + p.len() <= v.len(),
            k <= p.len(),
            forall|j: int| 0 <= j < k ==> v@[i + j] == p@[j],
        decreases p.len() - k,
    {
        if v[i + k] != p[k] {
            assert(v@.subrange(i as int, i + p.len())[k as int] != p@[k as int]);
            return false;
        }
        k += 1;
    }
    assert(v@.subrange(i as int, i + p.len()) =~= p@);
    true
}

/// Whether `pat` occurs in `s`.
pub fn contains(s: &str, pat: &str) -> (r: bool)
    ensures
        r == contains_seq(s@, pat@),
{
    let v = chars_of(s);
    let p = chars_of(pat);
    if p.len() > v.len() {
        assert forall|i: int| !occurs_at(s@, pat@, i) by {}
        return false;
    }
    let last = v.len() - p.len();
    let mut i: usize = 0;
    while i < last
        invariant
            v@ == s@,
            p@ == pat@,
            last == v.len() - p.len(),
            p.len() <= v.len(),
            i <= last,
            forall|j: int| 0 <= j < i ==> !occurs_at(s@, pat@, j),
        decreases last - i,
    {
        if occurs_at_exec(&v, &p, i) {
            return true;
        }
        i += 1;
    }
    if occurs_at_exec(&v, &p, last) {
        return true;
    }
    assert forall|j: int| !occurs_at(s@, pat@, j) by {
        if 0 <= j && j + pat@.len() <= s@.len() {
            assert(j <= last);
        }
    }
    false
}

/// Whether some entry of `options` equals `value`.
pub fn matches_token(value: &str, options: &[&str]) -> (r: bool)
    ensures
        r == (exists|i: int| 0 <= i < options@.len() && (#[trigger] options@[i])@ == value@),
{
    let mut i: usize = 0;
    while i < options.len()
        invariant
            i <= options@.len(),
            forall|j: int| 0 <= j < i ==> (#[trigger] options@[j])@ != value@,
        decreases options.len() - i,
    {
        if str_eq(options[i], value) {
            return true;
        }
        i += 1;
    }
    false
}

/// The pieces of `s` between occurrences of `sep` (std `str::split` with a
/// `char` pattern): one more piece than there are separators, empty pieces
/// included.
pub open spec fn split_seq(s: Seq<char>, sep: char) -> Seq<Seq<char>>
    decreases s.len(),
{
    if s.len() == 0 {
        seq![Seq::<char>::empty()]
    } else {
        let rest = split_seq(s.drop_last(), sep);
        if s.last() == sep {
            rest.push(Seq::<char>::empty())
        } else {
            rest.update(rest.len() - 1, rest.last().push(s.last()))
        }
    }
}

/// Splitting always yields at least one piece.
pub proof fn lemma_split_nonempty(s: Seq<char>, sep: char)
    ensures
        split_seq(s, sep).len() >= 1,
    decreases s.len(),
{
    if s.len() > 0 {
        lemma_split_nonempty(s.drop_last(), sep);
    }
}

/// The views of a vector of strings.
pub open spec fn views(v: Seq<String>) -> Seq<Seq<char>> {
    v.map_values(|x: String| x@)
}

/// The pieces of `s` between occurrences of `sep`.
pub fn split_char(s: &str, sep: char) -> (r: Vec<String>)
    ensures
        views(r@) == split_seq(s@, sep),
{
    let v = chars_of(s);
    let mut pieces: Vec<String> = Vec::new();
    let mut cur = String::new();
    let mut i: usize = 0;
    while i < v.len()
        invariant
            v@ == s@,
            i <= v.len(),
            views(pieces@).push(cur@) == split_seq(v@.take(i as int), sep),
        decreases v.len() - i,
    {
        let c = v[i];
        let ghost before = views(pieces@).push(cur@);
        assert(v@.take(i + 1).drop_last() == v@.take(i as int));
        assert(v@.take(i + 1).last() == c);
        if c == sep {
            let mut old_cur = String::new();
            std::mem::swap(&mut cur, &mut old_cur);
            pieces.push(old_cur);
            assert(views(pieces@).push(cur@) =~= before.push(Seq::<char>::empty()));
        } else {
            push_char(&mut cur, c);
            assert(views(pieces@).push(cur@) =~= before.update(before.len() - 1, before.last().push(c)));
        }
        i += 1;
    }
    assert(v@.take(v@.len() as int) == v@);
    pieces.push(cur);
    assert(views(pieces@) =~= split_seq(s@, sep));
    pieces
}

/// The maximal runs of non-white-space characters of `s`, in order (std
/// `str::split_whitespace`).
pub open spec fn words(s: Seq<char>) -> Seq<Seq<char>>
    decreases s.len(),
{
    if s.len() == 0 {
        Seq::<Seq<char>>::empty()
    } else {
        let w = words(s.drop_last());
        let c = s.last();
        if is_white_space(c) {
            w
        } else if s.len() >= 2 && !is_white_space(s[s.len() - 2]) {
            w.update(w.len() - 1, w.last().push(c))
        } else {
            w.push(seq![c])
        }
    }
}

/// A sequence that ends in a non-white-space character has at least one word.
pub proof fn lemma_words_nonempty(s: Seq<char>)
    requires
        s.len() > 0,
        !is_white_space(s.last()),
    ensures
        words(s).len() > 0,
    decreases s.len(),
{
    if s.len() >= 2 && !is_white_space(s[s.len() - 2]) {
        assert(s.drop_last().last() == s[s.len() - 2]);
        lemma_words_nonempty(s.drop_last());
    }
}

/// `parts` joined with `sep` between consecutive parts (std `[T]::join`).
pub open spec fn join_seq(parts: Seq<Seq<char>>, sep: Seq<char>) -> Seq<char>
    decreases parts.len(),
{
    if parts.len() == 0 {
        Seq::<char>::empty()
    } else if parts.len() == 1 {
        parts[0]
    } else {
        join_seq(parts.drop_last(), sep) + sep + parts.last()
    }
}

/// The white-space-separated words of `s`.
pub fn split_whitespace(s: &str) -> (r: Vec<String>)
    ensures
        views(r@) == words(s@),
{
    let v = chars_of(s);
    let mut out: Vec<String> = Vec::new();
    let mut cur = String::new();
    let mut in_word = false;
    let mut i: usize = 0;
    while i < v.len()
        invariant
            v@ == s@,
            i <= v.len(),
            in_word ==> i > 0 && !is_white_space(v@[i - 1]),
            !in_word ==> (i > 0 ==> is_white_space(v@[i - 1])),
            in_word ==> views(out@).push(cur@) == words(v@.take(i as int)),
            !in_word ==> views(out@) == words(v@.take(i as int)),
        decreases v.len() - i,
    {
        let c = v[i];
        let ghost t = v@.take(i + 1);
        assert(t.drop_last() == v@.take(i as int));
        assert(t.last() == c);
        if i >= 1 {
            assert(t[t.len() - 2] == v@[i - 1]);
        }
        if is_whitespace_char(c) {
            if in_word {
                let mut w = String::new();
                std::mem::swap(&mut cur, &mut w);
                out.push(w);
                assert(views(out@) =~= words(t));
            }
            in_word = false;
        } else {
            if in_word {
                let ghost before = views(out@).push(cur@);
                push_char(&mut cur, c);
                assert(views(out@).push(cur@) =~= before.update(before.len() - 1, before.last().push(c)));
            } else {
                cur = String::new();
                push_char(&mut cur, c);
                assert(cur@ =~= seq![c]);
                assert(views(out@).push(cur@) =~= words(v@.take(i as int)).push(seq![c]));
            }
            in_word = true;
        }
        i += 1;
    }
    assert(v@.take(v@.len() as int) == v@);
    if in_word {
        out.push(cur);
        assert(views(out@) =~= words(s@));
    }
    out
}

/// The parts of `parts` joined with `sep` between them.
pub fn join_strings(parts: &Vec<String>, sep: &str) -> (r: String)
    ensures
        r@ == join_seq(views(parts@), sep@),
{
    let mut out = String::new();
    let mut i: usize = 0;
    while i < parts.len()
        invariant
            i <= parts.len(),
            out@ == join_seq(views(parts@).take(i as int), sep@),
        decreases parts.len() - i,
    {
        let ghost t = views(parts@).take(i + 1);
        assert(t.drop_last() == views(parts@).take(i as int));
        assert(t.last() == parts@[i as int]@);
        if i > 0 {
            out.append(sep);
        }
        out.append(parts[i].as_str());
        if i == 0 {
            assert(out@ =~= join_seq(t, sep@));
        }
        i += 1;
    }
    assert(views(parts@).take(parts@.len() as int) == views(parts@));
    out
}

/// The words of `text` separated by single spaces.
pub open spec fn normalized_seq(text: Seq<char>) -> Seq<char> {
    join_seq(words(text), seq![' '])
}

/// A word: non-empty, with no white space in it.
pub open spec fn is_word(w: Seq<char>) -> bool {
    w.len() > 0 && forall|j: int| 0 <= j < w.len() ==> !is_white_space(#[trigger] w[j])
}

/// Every piece that `words` finds is a word.
pub proof fn lemma_words_are_words(s: Seq<char>)
    ensures
        forall|k: int| 0 <= k < words(s).len() ==> is_word(#[trigger] words(s)[k]),
    decreases s.len(),
{
    if s.len() > 0 {
        lemma_words_are_words(s.drop_last());
        let w = words(s.drop_last());
        let c = s.last();
        if !is_white_space(c) && s.len() >= 2 && !is_white_space(s[s.len() - 2]) {
            assert(s.drop_last().last() == s[s.len() - 2]);
            lemma_words_nonempty(s.drop_last());
            let nw = w.last().push(c);
            assert(is_word(w[w.len() - 1]));
            assert forall|j: int| 0 <= j < nw.len() implies !is_white_space(#[trigger] nw[j]) by {
                if j < w.last().len() {
                    assert(nw[j] == w[w.len() - 1][j]);
                }
            }
            assert forall|k: int| 0 <= k < words(s).len() implies is_word(#[trigger] words(s)[k]) by {
                if k < w.len() - 1 {
                    assert(words(s)[k] == w[k]);
                } else {
                    assert(words(s)[k] == nw);
                }
            }
        } else if !is_white_space(c) {
            assert forall|k: int| 0 <= k < words(s).len() implies is_word(#[trigger] words(s)[k]) by {
                if k < w.len() {
                    assert(words(s)[k] == w[k]);
                } else {
                    assert(words(s)[k] == seq![c]);
                }
            }
        }
    }
}

/// Appending a word after white space (or to nothing) adds it as one more
/// word.
pub proof fn lemma_words_append_word(a: Seq<char>, l: Seq<char>)
    requires
        is_word(l),
        a.len() == 0 || is_white_space(a.last()),
    ensures
        words(a + l) == words(a).push(l),
    decreases l.len(),
{
    let s = a + l;
    let c = l.last();
    assert(s.last() == c);
    assert(!is_white_space(l[l.len() - 1]));
    if l.len() == 1 {
        assert(s.drop_last() =~= a);
        if s.len() >= 2 {
            assert(s[s.len() - 2] == a.last());
        }
        assert(l =~= seq![c]);
    } else {
        let l1 = l.drop_last();
        assert(is_word(l1)) by {
            assert forall|j: int| 0 <= j < l1.len() implies !is_white_space(#[trigger] l1[j]) by {
                assert(l1[j] == l[j]);
            }
        }
        lemma_words_append_word(a, l1);
        assert(s.drop_last() =~= a + l1);
        assert(s[s.len() - 2] == l[l.len() - 2]);
        assert(!is_white_space(l[l.len() - 2]));
        let w = words(a + l1);
        assert(w.update(w.len() - 1, w.last().push(c)) =~= words(a).push(l1.push(c)));
        assert(l1.push(c) =~= l);
    }
}

/// Words joined by single spaces split back into the same words.
pub proof fn lemma_words_of_joined(parts: Seq<Seq<char>>)
    requires
        forall|k: int| 0 <= k < parts.len() ==> is_word(#[trigger] parts[k]),
    ensures
        words(join_seq(parts, seq![' '])) == parts,
    decreases parts.len(),
{
    if parts.len() == 1 {
        assert(is_word(parts[0]));
        lemma_words_append_word(Seq::<char>::empty(), parts[0]);
        assert(Seq::<char>::empty() + parts[0] =~= parts[0]);
        assert(words(Seq::<char>::empty()).push(parts[0]) =~= parts);
    } else if parts.len() >= 2 {
        let init = parts.drop_last();
        assert forall|k: int| 0 <= k < init.len() implies is_word(#[trigger] init[k]) by {
            assert(init[k] == parts[k]);
        }
        lemma_words_of_joined(init);
        let j = join_seq(init, seq![' ']);
        let a = j + seq![' '];
        assert(a.drop_last() =~= j);
        assert(words(a) == words(j));
        assert(is_word(parts[parts.len() - 1]));
        lemma_words_append_word(a, parts.last());
        assert(init.push(parts.last()) =~= parts);
    }
}

/// White space occurs in `t` only as single spaces between non-white-space
/// characters: never at either end, never twice in a row.
pub open spec fn single_spaced(t: Seq<char>) -> bool {
    forall|i: int|
        0 <= i < t.len() && is_white_space(#[trigger] t[i]) ==> t[i] == ' ' && 0 < i && i + 1
            < t.len() && !is_white_space(t[i - 1]) && !is_white_space(t[i + 1])
}

/// Words joined by single spaces are single-spaced, and end in a
/// non-white-space character when there is at least one word.
pub proof fn lemma_joined_single_spaced(parts: Seq<Seq<char>>)
    requires
        forall|k: int| 0 <= k < parts.len() ==> is_word(#[trigger] parts[k]),
    ensures
        single_spaced(join_seq(parts, seq![' '])),
        parts.len() > 0 ==> join_seq(parts, seq![' ']).len() > 0 && !is_white_space(
            join_seq(parts, seq![' ']).last(),
        ),
    decreases parts.len(),
{
    if parts.len() == 1 {
        assert(is_word(parts[0]));
        assert(!is_white_space(parts[0][parts[0].len() - 1]));
    } else if parts.len() >= 2 {
        let init = parts.drop_last();
        assert forall|k: int| 0 <= k < init.len() implies is_word(#[trigger] init[k]) by {
            assert(init[k] == parts[k]);
        }
        lemma_joined_single_spaced(init);
        let j = join_seq(init, seq![' ']);
        let l = parts.last();
        assert(is_word(parts[parts.len() - 1]));
        let t = j + seq![' '] + l;
        assert(t == join_seq(parts, seq![' ']));
        let n = j.len();
        assert(!is_white_space(l[l.len() - 1]));
        assert(t.last() == l[l.len() - 1]);
        assert forall|i: int| 0 <= i < t.len() && is_white_space(#[trigger] t[i]) implies t[i]
            == ' ' && 0 < i && i + 1 < t.len() && !is_white_space(t[i - 1]) && !is_white_space(
            t[i + 1],
        ) by {
            if i < n {
                assert(t[i] == j[i]);
                assert(is_white_space(j[i]));
                assert(t[i - 1] == j[i - 1]);
                assert(t[i + 1] == j[i + 1]);
            } else if i == n {
                assert(t[i - 1] == j[n - 1]);
                assert(t[i + 1] == l[0]);
                assert(!is_white_space(l[0]));
            } else {
                assert(t[i] == l[i - n - 1]);
                assert(!is_white_space(l[i - n - 1]));
            }
        }
    }
}

/// Normalized text is single-spaced, and normalizing it again changes
/// nothing.
pub proof fn lemma_normalized_is_stable(text: Seq<char>)
    ensures
        single_spaced(normalized_seq(text)),
        normalized_seq(normalized_seq(text)) == normalized_seq(text),
{
    lemma_words_are_words(text);
    lemma_joined_single_spaced(words(text));
    lemma_words_of_joined(words(text));
}

/// The words of `text` separated by single spaces
/// (`text.split_whitespace().collect::<Vec<_>>().join(" ")`).
pub fn normalize_whitespace(text: &str) -> (r: String)
    ensures
        r@ == normalized_seq(text@),
{
    let ws = split_whitespace(text);
    let sp = " ";
    proof {
        reveal_strlit(" ");
    }
    assert(sp@ =~= seq![' ']);
    join_strings(&ws, sp)
}

/// The decimal digit for `d < 10`.
pub open spec fn digit_char(d: nat) -> char {
    (('0' as u32) + d) as char
}

/// The decimal rendering of `n`, without leading zeros (`0` renders as `"0"`).
pub open spec fn decimal_seq(n: nat) -> Seq<char>
    decreases n,
{
    if n < 10 {
        seq![digit_char(n)]
    } else {
        decimal_seq(n / 10).push(digit_char(n % 10))
    }
}

fn push_decimal(out: &mut String, n: u64)
    ensures
        final(out)@ == old(out)@ + decimal_seq(n as nat),
    decreases n,
{
    if n >= 10 {
        push_decimal(out, n / 10);
    }
    let d = (n % 10) as u8;
    let c = (48u8 + d) as char;
    push_char(out, c);
}

/// The decimal rendering of `n` (the `Display` form of a `u64`).
pub fn u64_to_decimal(n: u64) -> (r: String)
    ensures
        r@ == decimal_seq(n as nat),
{
    let mut s = String::new();
    push_decimal(&mut s, n);
    assert(s@ =~= decimal_seq(n as nat));
    s
}

/// The UTF-16 code units of one character: one unit below U+10000, otherwise a
/// high and a low surrogate.
pub open spec fn utf16_units(c: char) -> Seq<u16> {
    let u = c as u32;
    if u < 0x10000 {
        seq![u as u16]
    } else {
        let v = (u - 0x10000) as int;
        seq![(0xD800 + v / 0x400) as u16, (0xDC00 + v % 0x400) as u16]
    }
}

/// The UTF-16 encoding of a character sequence (std `str::encode_utf16`).
pub open spec fn utf16_seq(s: Seq<char>) -> Seq<u16>
    decreases s.len(),
{
    if s.len() == 0 {
        Seq::<u16>::empty()
    } else {
        utf16_seq(s.drop_last()) + utf16_units(s.last())
    }
}

/// The UTF-16 code units of `s`, in order.
pub fn encode_utf16(s: &str) -> (r: Vec<u16>)
    ensures
        r@ == utf16_seq(s@),
{
    let v = chars_of(s);
    let mut out: Vec<u16> = Vec::new();
    let mut i: usize = 0;
    while i < v.len()
        invariant
            v@ == s@,
            i <= v.len(),
            out@ == utf16_seq(v@.take(i as int)),
        decreases v.len() - i,
    {
        let c = v[i];
        let u = c as u32;
        assert(v@.take(i + 1).drop_last() == v@.take(i as int));
        if u < 0x10000 {
            out.push(u as u16);
        } else {
            let w = u - 0x10000;
            out.push((0xD800 + w / 0x400) as u16);
            out.push((0xDC00 + w % 0x400) as u16);
        }
        assert(out@ =~= utf16_seq(v@.take(i + 1)));
        i += 1;
    }
    assert(v@.take(v@.len() as int) == v@);
    out
}

} // verus!
