use vstd::prelude::*;

verus! {

/// `char::is_whitespace`: the Unicode `White_Space` property, which holds
/// of U+0009 to U+000D, U+0020, U+0085, U+00A0, U+1680, U+2000 to U+200A,
/// U+2028, U+2029, U+202F, U+205F and U+3000.
pub open spec fn char_is_whitespace(c: char) -> bool {
    let u = c as u32;
    ||| 0x09 <= u <= 0x0d
    ||| u == 0x20
    ||| u == 0x85
    ||| u == 0xa0
    ||| u == 0x1680
    ||| 0x2000 <= u <= 0x200a
    ||| u == 0x2028
    ||| u == 0x2029
    ||| u == 0x202f
    ||| u == 0x205f
    ||| u == 0x3000
}

/// An ASCII character.
pub open spec fn is_ascii_char(c: char) -> bool {
    (c as u32) < 128
}

/// A string of ASCII characters.
pub open spec fn is_ascii_text(s: Seq<char>) -> bool {
    forall|i: int| 0 <= i < s.len() ==> is_ascii_char(#[trigger] s[i])
}

/// `A` to `Z`.
pub open spec fn is_ascii_upper(c: char) -> bool {
    65 <= (c as u32) <= 90
}

/// `0` to `9`, `A` to `Z`, `a` to `z`.
pub open spec fn is_ascii_alphanumeric(c: char) -> bool {
    ||| 48 <= (c as u32) <= 57
    ||| 65 <= (c as u32) <= 90
    ||| 97 <= (c as u32) <= 122
}

/// An ASCII upper-case letter in lower case; any other character unchanged.
pub open spec fn ascii_lower_char(c: char) -> char {
    if is_ascii_upper(c) {
        ((c as u32) + 32) as char
    } else {
        c
    }
}

/// ASCII upper-case letters of `s` in lower case.
pub open spec fn ascii_lower(s: Seq<char>) -> Seq<char> {
    Seq::new(s.len(), |i: int| ascii_lower_char(s[i]))
}

/// `char::is_alphanumeric` on a character outside ASCII: the Unicode
/// `Alphabetic` or `Numeric` properties.
pub uninterp spec fn unicode_alphanumeric(c: char) -> bool;

/// `char::is_alphanumeric`: on ASCII, the digits and the letters.
pub open spec fn char_is_alphanumeric(c: char) -> bool {
    if is_ascii_char(c) {
        is_ascii_alphanumeric(c)
    } else {
        unicode_alphanumeric(c)
    }
}

/// `str::to_lowercase` on a string that is not all ASCII: the Unicode
/// lowercase mapping.
pub uninterp spec fn unicode_lowercase(s: Seq<char>) -> Seq<char>;

/// `str::to_lowercase`: on ASCII text, ASCII lower-casing.
pub open spec fn str_lowercase(s: Seq<char>) -> Seq<char> {
    if is_ascii_text(s) {
        ascii_lower(s)
    } else {
        unicode_lowercase(s)
    }
}

/// `char::is_whitespace`: whether `c` has the Unicode `White_Space` property.
pub fn is_whitespace(c: char) -> (r: bool)
    ensures
        r == char_is_whitespace(c),
{
    let u = c as u32;
    (0x09 <= u && u <= 0x0d) || u == 0x20 || u == 0x85 || u == 0xa0 || u == 0x1680 || (0x2000 <= u
        && u <= 0x200a) || u == 0x2028 || u == 0x2029 || u == 0x202f || u == 0x205f || u == 0x3000
}

/// Calls `char::is_alphanumeric`: true of the ASCII digits and letters and
/// of no other ASCII character; outside ASCII the result is named
/// `unicode_alphanumeric`.
#[verifier::external_body]
pub fn is_alphanumeric(c: char) -> (r: bool)
    ensures
        r == char_is_alphanumeric(c),
        !is_ascii_char(c) ==> r == unicode_alphanumeric(c),
{
    c.is_alphanumeric()
}

/// Calls `str::to_lowercase`: ASCII text is lower-cased letter by letter,
/// A-Z to a-z; the lowercase form of any other text is named
/// `unicode_lowercase`.
#[verifier::external_body]
pub fn to_lowercase(s: &str) -> (r: String)
    ensures
        r@ == str_lowercase(s@),
        !is_ascii_text(s@) ==> r@ == unicode_lowercase(s@),
{
    s.to_lowercase()
}

/// Collects characters into a `String` (`FromIterator<&char> for String`),
/// which holds exactly those characters in order.
#[verifier::external_body]
pub fn string_from_chars(v: &Vec<char>) -> (r: String)
    ensures
        r@ == v@,
{
    v.iter().collect()
}

/// The characters of a string slice, in order.
pub fn chars_of(s: &str) -> (r: Vec<char>)
    ensures
        r@ == s@,
{
    let mut out: Vec<char> = Vec::new();
    for c in it: s.chars()
        invariant
            it.seq() == s@,
            out@ == it.seq().take(it.index() as int),
    {
        out.push(c);
    }
    out
}

} // verus!

verus! {

/// `s` without its leading whitespace.
pub open spec fn trim_start(s: Seq<char>) -> Seq<char>
    decreases s.len(),
{
    if s.len() > 0 && char_is_whitespace(s[0]) {
        trim_start(s.drop_first())
    } else {
        s
    }
}

/// `s` without its trailing whitespace.
pub open spec fn trim_end(s: Seq<char>) -> Seq<char>
    decreases s.len(),
{
    if s.len() > 0 && char_is_whitespace(s.last()) {
        trim_end(s.drop_last())
    } else {
        s
    }
}

/// `str::trim`: `s` without leading and trailing whitespace.
pub open spec fn trimmed(s: Seq<char>) -> Seq<char> {
    trim_end(trim_start(s))
}

/// The characters kept by the plain-text normalization.
pub open spec fn is_word_char(c: char) -> bool {
    char_is_alphanumeric(c) || char_is_whitespace(c)
}

/// The maximal runs of non-whitespace characters of `s`, in order
/// (`str::split_whitespace`).
pub open spec fn words(s: Seq<char>) -> Seq<Seq<char>>
    decreases s.len(),
{
    if s.len() == 0 {
        Seq::empty()
    } else {
        let w = words(s.drop_last());
        let c = s.last();
        if char_is_whitespace(c) {
            w
        } else if s.len() >= 2 && !char_is_whitespace(s[s.len() - 2]) {
            w.update(w.len() - 1, w.last().push(c))
        } else {
            w.push(seq![c])
        }
    }
}

/// The words of `ws` joined by single spaces (`[&str]::join(" ")`).
pub open spec fn join_words(ws: Seq<Seq<char>>) -> Seq<char>
    decreases ws.len(),
{
    if ws.len() == 0 {
        Seq::empty()
    } else if ws.len() == 1 {
        ws[0]
    } else {
        join_words(ws.drop_last()) + seq![' '] + ws.last()
    }
}

/// Whitespace runs collapsed to one space, none at either end.
pub open spec fn collapse_whitespace(s: Seq<char>) -> Seq<char> {
    join_words(words(s))
}

proof fn lemma_trim_start_skip(s: Seq<char>, i: int)
    requires
        0 <= i < s.len(),
        char_is_whitespace(s[i]),
    ensures
        trim_start(s.subrange(i, s.len() as int)) == trim_start(s.subrange(i + 1, s.len() as int)),
{
    assert(s.subrange(i, s.len() as int).drop_first() =~= s.subrange(i + 1, s.len() as int));
}

proof fn lemma_trim_end_skip(s: Seq<char>, i: int, j: int)
    requires
        0 <= i < j <= s.len(),
        char_is_whitespace(s[j - 1]),
    ensures
        trim_end(s.subrange(i, j)) == trim_end(s.subrange(i, j - 1)),
{
    assert(s.subrange(i, j).drop_last() =~= s.subrange(i, j - 1));
}

/// `str::trim` on a sequence of characters.
pub fn trim_chars(s: &Vec<char>) -> (r: Vec<char>)
    ensures
        r@ == trimmed(s@),
{
    let n = s.len();
    let mut i: usize = 0;
    assert(s@.subrange(0, n as int) =~= s@);
    while i < n && is_whitespace(s[i])
        invariant
            n == s@.len(),
            i <= n,
            trim_start(s@) == trim_start(s@.subrange(i as int, n as int)),
        decreases n - i,
    {
        proof {
            lemma_trim_start_skip(s@, i as int);
        }
        i = i + 1;
    }
    let ghost front = s@.subrange(i as int, n as int);
    assert(trim_start(front) == front);
    let mut j: usize = n;
    while j > i && is_whitespace(s[j - 1])
        invariant
            n == s@.len(),
            i <= j <= n,
            trim_end(front) == trim_end(s@.subrange(i as int, j as int)),
            front == s@.subrange(i as int, n as int),
        decreases j - i,
    {
        proof {
            lemma_trim_end_skip(s@, i as int, j as int);
        }
        j = j - 1;
    }
    let mut out: Vec<char> = Vec::new();
    let mut k: usize = i;
    while k < j
        invariant
            i <= k <= j <= n,
            n == s@.len(),
            out@ == s@.subrange(i as int, k as int),
        decreases j - k,
    {
        out.push(s[k]);
        k = k + 1;
    }
    proof {
        let mid = s@.subrange(i as int, j as int);
        assert(trim_end(mid) == mid);
        assert(out@ =~= mid);
    }
    out
}

/// Keeps the alphanumeric and whitespace characters of `s`, in order.
pub fn keep_word_chars(s: &Vec<char>) -> (r: Vec<char>)
    ensures
        r@ == s@.filter(|c: char| is_word_char(c)),
        r@ == s@.filter(|c: char| char_is_alphanumeric(c) || char_is_whitespace(c)),
{
    let ghost pred = |c: char| is_word_char(c);
    let mut out: Vec<char> = Vec::new();
    let n = s.len();
    let mut i: usize = 0;
    while i < n
        invariant
            n == s@.len(),
            i <= n,
            out@ == s@.take(i as int).filter(pred),
            pred == (|c: char| is_word_char(c)),
        decreases n - i,
    {
        let c = s[i];
        proof {
            assert(s@.take(i + 1) =~= s@.take(i as int).push(c));
            s@.take(i as int).lemma_filter_push(c, pred);
            assert(pred(c) == (char_is_alphanumeric(c) || char_is_whitespace(c)));
        }
        if is_alphanumeric(c) || is_whitespace(c) {
            out.push(c);
        }
        i = i + 1;
    }
    assert(s@.take(n as int) =~= s@);
    proof {
        lemma_word_char_filter(s@);
    }
    out
}

} // verus!

verus! {

/// The words of `s` are not empty, and there is one when `s` ends in a
/// non-whitespace character.
pub proof fn lemma_words_nonempty(s: Seq<char>)
    ensures
        forall|k: int| 0 <= k < words(s).len() ==> #[trigger] words(s)[k].len() > 0,
        s.len() > 0 && !char_is_whitespace(s.last()) ==> words(s).len() > 0,
    decreases s.len(),
{
    if s.len() > 0 {
        let w = words(s.drop_last());
        lemma_words_nonempty(s.drop_last());
        assert forall|k: int| 0 <= k < words(s).len() implies #[trigger] words(s)[k].len() > 0 by {
            if k < w.len() {
                assert(w[k].len() > 0);
            }
        }
    }
}

proof fn lemma_join_words_empty(ws: Seq<Seq<char>>)
    requires
        forall|k: int| 0 <= k < ws.len() ==> #[trigger] ws[k].len() > 0,
    ensures
        join_words(ws).len() == 0 <==> ws.len() == 0,
{
    if ws.len() >= 2 {
        assert(ws.last().len() > 0);
    } else if ws.len() == 1 {
        assert(ws[0].len() > 0);
    }
}

proof fn lemma_join_words_push(ws: Seq<Seq<char>>, w: Seq<char>)
    ensures
        join_words(ws.push(w)) == (if ws.len() == 0 {
            w
        } else {
            join_words(ws) + seq![' '] + w
        }),
{
    assert(ws.push(w).drop_last() =~= ws);
}

proof fn lemma_join_words_extend_last(ws: Seq<Seq<char>>, c: char)
    requires
        ws.len() > 0,
    ensures
        join_words(ws.update(ws.len() - 1, ws.last().push(c))) == join_words(ws).push(c),
{
    let ws2 = ws.update(ws.len() - 1, ws.last().push(c));
    if ws.len() == 1 {
        assert(ws2[0] == ws[0].push(c));
    } else {
        assert(ws2.drop_last() =~= ws.drop_last());
        assert(join_words(ws2) =~= join_words(ws).push(c));
    }
}

/// `s.split_whitespace().collect::<Vec<_>>().join(" ")` on a sequence of characters.
pub fn collapse_chars(s: &Vec<char>) -> (r: Vec<char>)
    ensures
        r@ == collapse_whitespace(s@),
{
    let mut out: Vec<char> = Vec::new();
    let n = s.len();
    let mut i: usize = 0;
    while i < n
        invariant
            n == s@.len(),
            i <= n,
            out@ == collapse_whitespace(s@.take(i as int)),
        decreases n - i,
    {
        let c = s[i];
        let ghost p = s@.take(i as int);
        let ghost w = words(p);
        proof {
            assert(s@.take(i + 1).drop_last() =~= p);
            lemma_words_nonempty(p);
            lemma_join_words_empty(w);
        }
        if !is_whitespace(c) {
            if i > 0 && !is_whitespace(s[i - 1]) {
                proof {
                    lemma_join_words_extend_last(w, c);
                }
                out.push(c);
            } else {
                proof {
                    lemma_join_words_push(w, seq![c]);
                }
                if out.len() > 0 {
                    out.push(' ');
                }
                out.push(c);
                assert(out@ =~= join_words(w.push(seq![c])));
            }
        }
        i = i + 1;
    }
    assert(s@.take(n as int) =~= s@);
    out
}

} // verus!

verus! {

/// Every character of a word of `s` is a non-whitespace character of `s`.
pub proof fn lemma_words_chars(s: Seq<char>)
    ensures
        forall|k: int, m: int|
            0 <= k < words(s).len() && 0 <= m < words(s)[k].len() ==> !char_is_whitespace(
                #[trigger] words(s)[k][m],
            ) && s.contains(words(s)[k][m]),
    decreases s.len(),
{
    if s.len() > 0 {
        let p = s.drop_last();
        let w = words(p);
        lemma_words_chars(p);
        lemma_words_nonempty(p);
        assert forall|k: int, m: int|
            0 <= k < words(s).len() && 0 <= m < words(s)[k].len() implies !char_is_whitespace(
            #[trigger] words(s)[k][m],
        ) && s.contains(words(s)[k][m]) by {
            let c = words(s)[k][m];
            if k < w.len() && m < w[k].len() {
                assert(w[k][m] == c);
                let i = choose|i: int| 0 <= i < p.len() && p[i] == c;
                assert(s[i] == c);
            } else {
                let l = s.last();
                if char_is_whitespace(l) {
                    assert(words(s) == w);
                } else if s.len() >= 2 && !char_is_whitespace(s[s.len() - 2]) {
                    assert(words(s) == w.update(w.len() - 1, w.last().push(l)));
                    assert(k == w.len() - 1);
                    assert(c == l);
                } else {
                    assert(words(s) == w.push(seq![l]));
                    assert(c == l);
                }
                assert(s[s.len() - 1] == c);
            }
        }
    }
}

} // verus!

verus! {

/// What plain normalization is made of: `0` to `9`, `a` to `z`, and the space.
pub open spec fn is_plain_char(c: char) -> bool {
    ||| c == ' '
    ||| 48 <= (c as u32) <= 57
    ||| 97 <= (c as u32) <= 122
}

proof fn lemma_trim_start_ascii(s: Seq<char>)
    requires
        is_ascii_text(s),
    ensures
        is_ascii_text(trim_start(s)),
    decreases s.len(),
{
    if s.len() > 0 && char_is_whitespace(s[0]) {
        assert forall|i: int| 0 <= i < s.drop_first().len() implies is_ascii_char(
            #[trigger] s.drop_first()[i],
        ) by {
            assert(s.drop_first()[i] == s[i + 1]);
        }
        lemma_trim_start_ascii(s.drop_first());
    }
}

proof fn lemma_trim_end_ascii(s: Seq<char>)
    requires
        is_ascii_text(s),
    ensures
        is_ascii_text(trim_end(s)),
    decreases s.len(),
{
    if s.len() > 0 && char_is_whitespace(s.last()) {
        assert forall|i: int| 0 <= i < s.drop_last().len() implies is_ascii_char(
            #[trigger] s.drop_last()[i],
        ) by {
            assert(s.drop_last()[i] == s[i]);
        }
        lemma_trim_end_ascii(s.drop_last());
    }
}

/// Trimming ASCII text leaves ASCII text.
pub proof fn lemma_trimmed_ascii(s: Seq<char>)
    requires
        is_ascii_text(s),
    ensures
        is_ascii_text(trimmed(s)),
{
    lemma_trim_start_ascii(s);
    lemma_trim_end_ascii(trim_start(s));
}

/// Appending a word after whitespace (or to nothing) adds it as a word.
proof fn lemma_words_append(x: Seq<char>, w: Seq<char>)
    requires
        w.len() > 0,
        forall|i: int| 0 <= i < w.len() ==> !char_is_whitespace(#[trigger] w[i]),
        x.len() == 0 || char_is_whitespace(x.last()),
    ensures
        words(x + w) == words(x).push(w),
    decreases w.len(),
{
    let s = x + w;
    assert(s.drop_last() =~= x + w.drop_last());
    assert(s.last() == w.last());
    if w.len() == 1 {
        assert(x + w.drop_last() =~= x);
        if s.len() >= 2 {
            assert(s[s.len() - 2] == x.last());
        }
        assert(w =~= seq![w[0]]);
    } else {
        let w1 = w.drop_last();
        assert forall|i: int| 0 <= i < w1.len() implies !char_is_whitespace(#[trigger] w1[i]) by {
            assert(w1[i] == w[i]);
        }
        lemma_words_append(x, w1);
        assert(s[s.len() - 2] == w[w.len() - 2]);
        assert(words(s) =~= words(x).push(w1).update(words(x).len() as int, w1.push(w.last())));
        assert(w1.push(w.last()) =~= w);
        assert(words(s) =~= words(x).push(w));
    }
}

/// Splitting words joined by single spaces gives the words back.
pub proof fn lemma_words_join(ws: Seq<Seq<char>>)
    requires
        forall|k: int| 0 <= k < ws.len() ==> #[trigger] ws[k].len() > 0,
        forall|k: int, m: int|
            0 <= k < ws.len() && 0 <= m < ws[k].len() ==> !char_is_whitespace(#[trigger] ws[k][m]),
    ensures
        words(join_words(ws)) == ws,
    decreases ws.len(),
{
    if ws.len() == 0 {
        assert(words(join_words(ws)) =~= ws);
    } else if ws.len() == 1 {
        let w = ws[0];
        assert forall|i: int| 0 <= i < w.len() implies !char_is_whitespace(#[trigger] w[i]) by {
            assert(ws[0][i] == w[i]);
        }
        lemma_words_append(Seq::empty(), w);
        assert(Seq::<char>::empty() + w =~= w);
        assert(words(Seq::<char>::empty()) =~= Seq::<Seq<char>>::empty());
        assert(ws =~= Seq::<Seq<char>>::empty().push(w));
    } else {
        let dl = ws.drop_last();
        let w = ws.last();
        assert forall|k: int, m: int|
            0 <= k < dl.len() && 0 <= m < dl[k].len() implies !char_is_whitespace(
            #[trigger] dl[k][m],
        ) by {
            assert(dl[k] == ws[k]);
        }
        assert forall|k: int| 0 <= k < dl.len() implies #[trigger] dl[k].len() > 0 by {
            assert(dl[k] == ws[k]);
        }
        lemma_words_join(dl);
        assert forall|i: int| 0 <= i < w.len() implies !char_is_whitespace(#[trigger] w[i]) by {
            assert(ws[ws.len() - 1][i] == w[i]);
        }
        let x = join_words(dl) + seq![' '];
        assert(char_is_whitespace(' '));
        assert(x.drop_last() =~= join_words(dl));
        assert(words(x) == words(join_words(dl)));
        lemma_words_append(x, w);
        assert(join_words(ws) == x + w);
        assert(dl.push(w) =~= ws);
    }
}

/// Every character of words joined by spaces is a character of a word or
/// the space.
pub proof fn lemma_join_words_plain(ws: Seq<Seq<char>>)
    requires
        forall|k: int, m: int|
            0 <= k < ws.len() && 0 <= m < ws[k].len() ==> is_plain_char(#[trigger] ws[k][m]),
    ensures
        forall|i: int|
            0 <= i < join_words(ws).len() ==> is_plain_char(#[trigger] join_words(ws)[i]),
    decreases ws.len(),
{
    if ws.len() == 1 {
        assert forall|i: int| 0 <= i < join_words(ws).len() implies is_plain_char(
            #[trigger] join_words(ws)[i],
        ) by {
            assert(ws[0][i] == join_words(ws)[i]);
        }
    } else if ws.len() >= 2 {
        let dl = ws.drop_last();
        assert forall|k: int, m: int|
            0 <= k < dl.len() && 0 <= m < dl[k].len() implies is_plain_char(#[trigger] dl[k][m]) by {
            assert(dl[k] == ws[k]);
        }
        lemma_join_words_plain(dl);
        let j = join_words(dl);
        let w = ws.last();
        assert forall|i: int| 0 <= i < join_words(ws).len() implies is_plain_char(
            #[trigger] join_words(ws)[i],
        ) by {
            if i < j.len() {
                assert(join_words(ws)[i] == j[i]);
            } else if i == j.len() {
                assert(join_words(ws)[i] == ' ');
            } else {
                assert(join_words(ws)[i] == w[i - j.len() - 1]);
                assert(ws[ws.len() - 1][i - j.len() - 1] == w[i - j.len() - 1]);
            }
        }
    }
}

/// Words joined by spaces begin with their first word and end with their
/// last.
proof fn lemma_join_words_ends(ws: Seq<Seq<char>>)
    requires
        ws.len() > 0,
        forall|k: int| 0 <= k < ws.len() ==> #[trigger] ws[k].len() > 0,
    ensures
        join_words(ws).len() > 0,
        join_words(ws)[0] == ws[0][0],
        join_words(ws).last() == ws.last().last(),
    decreases ws.len(),
{
    if ws.len() >= 2 {
        let dl = ws.drop_last();
        assert forall|k: int| 0 <= k < dl.len() implies #[trigger] dl[k].len() > 0 by {
            assert(dl[k] == ws[k]);
        }
        lemma_join_words_ends(dl);
        assert(ws.last().len() > 0);
        assert(dl[0] == ws[0]);
    }
}

/// Words joined by single spaces have no whitespace to trim.
pub proof fn lemma_join_words_trimmed(ws: Seq<Seq<char>>)
    requires
        forall|k: int| 0 <= k < ws.len() ==> #[trigger] ws[k].len() > 0,
        forall|k: int, m: int|
            0 <= k < ws.len() && 0 <= m < ws[k].len() ==> !char_is_whitespace(#[trigger] ws[k][m]),
    ensures
        trimmed(join_words(ws)) == join_words(ws),
{
    let j = join_words(ws);
    if ws.len() > 0 {
        lemma_join_words_ends(ws);
        assert(!char_is_whitespace(ws[0][0]));
        assert(ws.last() == ws[ws.len() - 1]);
        assert(ws.last().last() == ws[ws.len() - 1][ws[ws.len() - 1].len() - 1]);
        assert(trim_start(j) == j);
        assert(trim_end(j) == j);
    } else {
        assert(trim_start(j) == j);
        assert(trim_end(j) == j);
    }
}

/// Filtering keeps a sequence whose every element passes.
pub proof fn lemma_filter_all(s: Seq<char>, p: spec_fn(char) -> bool)
    requires
        forall|i: int| 0 <= i < s.len() ==> p(#[trigger] s[i]),
    ensures
        s.filter(p) == s,
    decreases s.len(),
{
    if s.len() > 0 {
        let dl = s.drop_last();
        assert forall|i: int| 0 <= i < dl.len() implies p(#[trigger] dl[i]) by {
            assert(dl[i] == s[i]);
        }
        lemma_filter_all(dl, p);
        dl.lemma_filter_push(s.last(), p);
        assert(dl.push(s.last()) =~= s);
        assert(p(s[s.len() - 1]));
    } else {
        reveal(Seq::filter);
    }
}

} // verus!

verus! {

/// The characters that plain normalization keeps are exactly the
/// alphanumeric and the whitespace ones, in order.
pub proof fn lemma_word_char_filter(s: Seq<char>)
    ensures
        s.filter(|c: char| is_word_char(c)) == s.filter(
            |c: char| char_is_alphanumeric(c) || char_is_whitespace(c),
        ),
        forall|i: int|
            0 <= i < s.len() && (char_is_alphanumeric(#[trigger] s[i]) || char_is_whitespace(s[i]))
                ==> s.filter(|c: char| is_word_char(c)).contains(s[i]),
{
    let p1 = |c: char| is_word_char(c);
    let p2 = |c: char| char_is_alphanumeric(c) || char_is_whitespace(c);
    assert(p1 =~= p2);
    assert forall|i: int|
        0 <= i < s.len() && (char_is_alphanumeric(#[trigger] s[i]) || char_is_whitespace(s[i]))
        implies s.filter(p1).contains(s[i]) by {
        s.lemma_filter_contains(p1, i);
    }
}

} // verus!

verus! {

/// A character that is not whitespace.
pub open spec fn is_not_whitespace(c: char) -> bool {
    !char_is_whitespace(c)
}

proof fn lemma_collapse_keeps_text(s: Seq<char>)
    ensures
        collapse_whitespace(s).filter(|c: char| is_not_whitespace(c)) == s.filter(
            |c: char| is_not_whitespace(c),
        ),
    decreases s.len(),
{
    let pred = |c: char| is_not_whitespace(c);
    if s.len() == 0 {
        assert(words(s) =~= Seq::<Seq<char>>::empty());
        reveal(Seq::filter);
    } else {
        let p = s.drop_last();
        let c = s.last();
        let w = words(p);
        lemma_collapse_keeps_text(p);
        assert(p.push(c) =~= s);
        p.lemma_filter_push(c, pred);
        lemma_words_nonempty(p);
        lemma_join_words_empty(w);
        if char_is_whitespace(c) {
        } else if s.len() >= 2 && !char_is_whitespace(s[s.len() - 2]) {
            assert(p.last() == s[s.len() - 2]);
            lemma_join_words_extend_last(w, c);
            join_words(w).lemma_filter_push(c, pred);
        } else {
            lemma_join_words_push(w, seq![c]);
            if w.len() == 0 {
                assert(join_words(w) =~= Seq::<char>::empty());
                Seq::<char>::empty().lemma_filter_push(c, pred);
                assert(Seq::<char>::empty().push(c) =~= seq![c]);
                reveal(Seq::filter);
                assert(Seq::<char>::empty().filter(pred) =~= Seq::<char>::empty());
            } else {
                let j = join_words(w);
                assert(char_is_whitespace(' '));
                j.lemma_filter_push(' ', pred);
                j.push(' ').lemma_filter_push(c, pred);
                assert(j + seq![' '] + seq![c] =~= j.push(' ').push(c));
            }
        }
    }
}

proof fn lemma_join_words_spaces(ws: Seq<Seq<char>>)
    requires
        forall|k: int| 0 <= k < ws.len() ==> #[trigger] ws[k].len() > 0,
        forall|k: int, m: int|
            0 <= k < ws.len() && 0 <= m < ws[k].len() ==> !char_is_whitespace(#[trigger] ws[k][m]),
    ensures
        forall|i: int|
            0 <= i < join_words(ws).len() && char_is_whitespace(#[trigger] join_words(ws)[i]) ==> {
                &&& join_words(ws)[i] == ' '
                &&& 0 < i < join_words(ws).len() - 1
                &&& !char_is_whitespace(join_words(ws)[i - 1])
                &&& !char_is_whitespace(join_words(ws)[i + 1])
            },
    decreases ws.len(),
{
    let j = join_words(ws);
    if ws.len() == 1 {
        assert forall|i: int| 0 <= i < j.len() implies !char_is_whitespace(#[trigger] j[i]) by {
            assert(ws[0][i] == j[i]);
        }
    } else if ws.len() >= 2 {
        let dl = ws.drop_last();
        let w = ws.last();
        assert forall|k: int, m: int|
            0 <= k < dl.len() && 0 <= m < dl[k].len() implies !char_is_whitespace(
            #[trigger] dl[k][m],
        ) by {
            assert(dl[k] == ws[k]);
        }
        assert forall|k: int| 0 <= k < dl.len() implies #[trigger] dl[k].len() > 0 by {
            assert(dl[k] == ws[k]);
        }
        lemma_join_words_spaces(dl);
        lemma_join_words_ends(dl);
        let a = join_words(dl);
        assert(w.len() > 0);
        assert(dl.last() == dl[dl.len() - 1]);
        assert(!char_is_whitespace(a.last()));
        assert(!char_is_whitespace(w[0])) by {
            assert(ws[ws.len() - 1][0] == w[0]);
        }
        assert forall|i: int|
            0 <= i < j.len() && char_is_whitespace(#[trigger] j[i]) implies {
            &&& j[i] == ' '
            &&& 0 < i < j.len() - 1
            &&& !char_is_whitespace(j[i - 1])
            &&& !char_is_whitespace(j[i + 1])
        } by {
            if i < a.len() {
                assert(j[i] == a[i]);
                assert(j[i - 1] == a[i - 1]);
                if i + 1 < a.len() {
                    assert(j[i + 1] == a[i + 1]);
                }
            } else if i == a.len() {
                assert(j[i - 1] == a.last());
                assert(j[i + 1] == w[0]);
            } else {
                assert(j[i] == w[i - a.len() - 1]);
                assert(ws[ws.len() - 1][i - a.len() - 1] == w[i - a.len() - 1]);
            }
        }
    }
}

/// Collapsing whitespace keeps every other character, in order, and leaves
/// only single spaces between them: each whitespace character of the result
/// is a space, with a non-whitespace character on either side.
pub proof fn lemma_collapse_whitespace(s: Seq<char>)
    ensures
        collapse_whitespace(s).filter(|c: char| is_not_whitespace(c)) == s.filter(
            |c: char| is_not_whitespace(c),
        ),
        forall|i: int|
            0 <= i < collapse_whitespace(s).len() && char_is_whitespace(
                #[trigger] collapse_whitespace(s)[i],
            ) ==> {
                &&& collapse_whitespace(s)[i] == ' '
                &&& 0 < i < collapse_whitespace(s).len() - 1
                &&& !char_is_whitespace(collapse_whitespace(s)[i - 1])
                &&& !char_is_whitespace(collapse_whitespace(s)[i + 1])
            },
{
    lemma_collapse_keeps_text(s);
    lemma_words_nonempty(s);
    lemma_words_chars(s);
    lemma_join_words_spaces(words(s));
}

} // verus!

verus! {

proof fn lemma_trim_start_shape(s: Seq<char>) -> (lo: int)
    ensures
        0 <= lo <= s.len(),
        trim_start(s) == s.subrange(lo, s.len() as int),
        forall|i: int| 0 <= i < lo ==> char_is_whitespace(#[trigger] s[i]),
        lo < s.len() ==> !char_is_whitespace(s[lo]),
    decreases s.len(),
{
    if s.len() > 0 && char_is_whitespace(s[0]) {
        let t = s.drop_first();
        let k = lemma_trim_start_shape(t);
        assert(t.subrange(k, t.len() as int) =~= s.subrange(k + 1, s.len() as int));
        assert forall|i: int| 0 <= i < k + 1 implies char_is_whitespace(#[trigger] s[i]) by {
            if i > 0 {
                assert(s[i] == t[i - 1]);
            }
        }
        if k + 1 < s.len() {
            assert(s[k + 1] == t[k]);
        }
        k + 1
    } else {
        assert(s.subrange(0, s.len() as int) =~= s);
        0
    }
}

proof fn lemma_trim_end_shape(s: Seq<char>) -> (hi: int)
    ensures
        0 <= hi <= s.len(),
        trim_end(s) == s.subrange(0, hi),
        forall|i: int| hi <= i < s.len() ==> char_is_whitespace(#[trigger] s[i]),
        hi > 0 ==> !char_is_whitespace(s[hi - 1]),
    decreases s.len(),
{
    if s.len() > 0 && char_is_whitespace(s.last()) {
        let t = s.drop_last();
        let k = lemma_trim_end_shape(t);
        assert(t.subrange(0, k) =~= s.subrange(0, k));
        assert forall|i: int| k <= i < s.len() implies char_is_whitespace(#[trigger] s[i]) by {
            if i < t.len() {
                assert(s[i] == t[i]);
            }
        }
        if k > 0 {
            assert(s[k - 1] == t[k - 1]);
        }
        k
    } else {
        assert(s.subrange(0, s.len() as int) =~= s);
        s.len() as int
    }
}

/// Trimming removes whitespace from both ends and nothing else: the result
/// is the part of `s` between a run of leading and a run of trailing
/// whitespace, and it neither begins nor ends with whitespace.
pub proof fn lemma_trimmed_shape(s: Seq<char>) -> (bounds: (int, int))
    ensures
        0 <= bounds.0 <= bounds.1 <= s.len(),
        trimmed(s) == s.subrange(bounds.0, bounds.1),
        forall|i: int| 0 <= i < bounds.0 ==> char_is_whitespace(#[trigger] s[i]),
        forall|i: int| bounds.1 <= i < s.len() ==> char_is_whitespace(#[trigger] s[i]),
        trimmed(s).len() > 0 ==> !char_is_whitespace(trimmed(s)[0]) && !char_is_whitespace(
            trimmed(s).last(),
        ),
{
    let lo = lemma_trim_start_shape(s);
    let f = trim_start(s);
    let hi = lemma_trim_end_shape(f);
    assert(f.subrange(0, hi) =~= s.subrange(lo, lo + hi));
    assert forall|i: int| lo + hi <= i < s.len() implies char_is_whitespace(#[trigger] s[i]) by {
        assert(s[i] == f[i - lo]);
    }
    if hi > 0 {
        assert(trimmed(s)[0] == s[lo]);
        assert(trimmed(s).last() == f[hi - 1]);
    }
    (lo, lo + hi)
}

} // verus!
