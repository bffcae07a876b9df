//! Verified text primitives: character access, searching, trimming,
//! line splitting and decimal rendering, each stated over `Seq<char>`.
use vstd::prelude::*;
use vstd::string::*;

verus! {

/// Whether `c` has the Unicode `White_Space` property (the 25 code points
/// listed in PropList.txt), as `char::is_whitespace` decides.
pub open spec fn is_whitespace(c: char) -> bool {
    let u = c as u32;
    ||| 0x09 <= u <= 0x0D
    ||| u == 0x20
    ||| u == 0x85
    ||| u == 0xA0
    ||| u == 0x1680
    ||| 0x2000 <= u <= 0x200A
    ||| u == 0x2028
    ||| u == 0x2029
    ||| u == 0x202F
    ||| u == 0x205F
    ||| u == 0x3000
}

/// `s` without its leading characters that satisfy `p`.
pub open spec fn trim_start_by(s: Seq<char>, p: spec_fn(char) -> bool) -> Seq<char>
    decreases s.len(),
{
    if s.len() > 0 && p(s[0]) {
        trim_start_by(s.drop_first(), p)
    } else {
        s
    }
}

/// `s` without its trailing characters that satisfy `p`.
pub open spec fn trim_end_by(s: Seq<char>, p: spec_fn(char) -> bool) -> Seq<char>
    decreases s.len(),
{
    if s.len() > 0 && p(s.last()) {
        trim_end_by(s.drop_last(), p)
    } else {
        s
    }
}

/// The predicate "is a whitespace character".
pub open spec fn whitespace_pred() -> spec_fn(char) -> bool {
    |c: char| is_whitespace(c)
}

/// The predicate "equals `c`".
pub open spec fn char_pred(c: char) -> spec_fn(char) -> bool {
    |x: char| x == c
}

/// `s` with leading and trailing whitespace removed (`str::trim`).
pub open spec fn trim(s: Seq<char>) -> Seq<char> {
    trim_end_by(trim_start_by(s, whitespace_pred()), whitespace_pred())
}

/// `n` occurs in `h` starting at position `i`.
pub open spec fn occurs_at(h: Seq<char>, n: Seq<char>, i: int) -> bool {
    0 <= i && i + n.len() <= h.len() && h.subrange(i, i + n.len()) == n
}

/// `n` occurs somewhere in `h` (`str::contains`).
pub open spec fn contains(h: Seq<char>, n: Seq<char>) -> bool {
    exists|i: int| occurs_at(h, n, i)
}

/// The position of the first `c` in `s`, if any (see
/// [`lemma_first_index`]).
pub closed spec fn first_index(s: Seq<char>, c: char) -> Option<int> {
    if exists|i: int| 0 <= i < s.len() && s[i] == c {
        Some(choose|i: int| 0 <= i < s.len() && s[i] == c && forall|j: int| 0 <= j < i ==> s[j] != c)
    } else {
        None
    }
}

/// The position of the last `c` in `s`, if any (see [`lemma_last_index`]).
pub closed spec fn last_index(s: Seq<char>, c: char) -> Option<int> {
    if exists|i: int| 0 <= i < s.len() && s[i] == c {
        Some(choose|i: int| 0 <= i < s.len() && s[i] == c && forall|j: int| i < j < s.len() ==> s[j] != c)
    } else {
        None
    }
}

/// What [`first_index`] is: the least position holding `c`, or `None`
/// when no position does.
pub proof fn lemma_first_index(s: Seq<char>, c: char)
    ensures
        match first_index(s, c) {
            Some(i) => 0 <= i < s.len() && s[i] == c && forall|j: int| 0 <= j < i ==> s[j] != c,
            None => forall|j: int| 0 <= j < s.len() ==> s[j] != c,
        },
{
    if exists|i: int| 0 <= i < s.len() && s[i] == c {
        let k = choose|i: int| 0 <= i < s.len() && s[i] == c;
        lemma_least_position(s, c, k);
    }
}

proof fn lemma_least_position(s: Seq<char>, c: char, k: int)
    requires
        0 <= k < s.len(),
        s[k] == c,
    ensures
        exists|i: int| 0 <= i < s.len() && s[i] == c && forall|j: int| 0 <= j < i ==> s[j] != c,
    decreases k,
{
    if exists|j: int| 0 <= j < k && s[j] == c {
        let j = choose|j: int| 0 <= j < k && s[j] == c;
        lemma_least_position(s, c, j);
    } else {
        assert(forall|j: int| 0 <= j < k ==> s[j] != c);
    }
}

proof fn lemma_greatest_position(s: Seq<char>, c: char, k: int)
    requires
        0 <= k < s.len(),
        s[k] == c,
    ensures
        exists|i: int| 0 <= i < s.len() && s[i] == c && forall|j: int| i < j < s.len() ==> s[j] != c,
    decreases s.len() - k,
{
    if exists|j: int| k < j < s.len() && s[j] == c {
        let j = choose|j: int| k < j < s.len() && s[j] == c;
        lemma_greatest_position(s, c, j);
    } else {
        assert(forall|j: int| k < j < s.len() ==> s[j] != c);
    }
}

/// What [`last_index`] is: the greatest position holding `c`, or `None`
/// when no position does.
pub proof fn lemma_last_index(s: Seq<char>, c: char)
    ensures
        match last_index(s, c) {
            Some(i) => 0 <= i < s.len() && s[i] == c && forall|j: int| i < j < s.len() ==> s[j] != c,
            None => forall|j: int| 0 <= j < s.len() ==> s[j] != c,
        },
{
    if exists|i: int| 0 <= i < s.len() && s[i] == c {
        let k = choose|i: int| 0 <= i < s.len() && s[i] == c;
        lemma_greatest_position(s, c, k);
    }
}

/// `i` is the first position of `c` when `c` is there and nowhere before.
pub proof fn lemma_first_index_is(s: Seq<char>, c: char, i: int)
    requires
        0 <= i < s.len(),
        s[i] == c,
        forall|j: int| 0 <= j < i ==> s[j] != c,
    ensures
        first_index(s, c) == Some(i),
{
    lemma_first_index(s, c);
    let k = first_index(s, c)->0;
    if k < i {
        assert(s[k] != c);
    } else if k > i {
    }
}

/// `i` is the last position of `c` when `c` is there and nowhere after.
pub proof fn lemma_last_index_is(s: Seq<char>, c: char, i: int)
    requires
        0 <= i < s.len(),
        s[i] == c,
        forall|j: int| i < j < s.len() ==> s[j] != c,
    ensures
        last_index(s, c) == Some(i),
{
    lemma_last_index(s, c);
    let k = last_index(s, c)->0;
    if k > i {
        assert(s[k] != c);
    } else if k < i {
    }
}

/// Exec form of [`is_whitespace`].
pub fn char_is_whitespace(c: char) -> (b: bool)
    ensures
        b == is_whitespace(c),
{
    let u = c as u32;
    (0x09 <= u && u <= 0x0D) || u == 0x20 || u == 0x85 || u == 0xA0 || u == 0x1680
        || (0x2000 <= u && u <= 0x200A) || u == 0x2028 || u == 0x2029 || u == 0x202F
        || u == 0x205F || u == 0x3000
}

/// The characters of `s`, in order.
pub fn chars_of(s: &str) -> (v: Vec<char>)
    ensures
        v@ == s@,
{
    let mut v: Vec<char> = Vec::new();
    for c in it: s.chars()
        invariant
            v@ == it.seq().take(it.index()),
            it.seq() == s@,
    {
        v.push(c);
    }
    v
}

/// The characters of `s` from position `from` up to (not including) `to`.
pub fn substring(s: &str, from: usize, to: usize) -> (r: String)
    requires
        from <= to <= s@.len(),
    ensures
        r@ == s@.subrange(from as int, to as int),
{
    s.substring_char(from, to).to_owned()
}

proof fn lemma_trim_start_skip(s: Seq<char>, p: spec_fn(char) -> bool, i: int)
    requires
        0 <= i <= s.len(),
        forall|j: int| 0 <= j < i ==> p(#[trigger] s[j]),
    ensures
        trim_start_by(s, p) == trim_start_by(s.subrange(i, s.len() as int), p),
    decreases i,
{
    if i > 0 {
        assert(s.drop_first().subrange(i - 1, s.drop_first().len() as int) =~= s.subrange(i, s.len() as int));
        assert forall|j: int| 0 <= j < i - 1 implies p(#[trigger] s.drop_first()[j]) by {
            assert(s.drop_first()[j] == s[j + 1]);
        }
        lemma_trim_start_skip(s.drop_first(), p, i - 1);
    } else {
        assert(s.subrange(0, s.len() as int) =~= s);
    }
}

proof fn lemma_trim_end_take(s: Seq<char>, p: spec_fn(char) -> bool, k: int)
    requires
        0 <= k <= s.len(),
        forall|j: int| k <= j < s.len() ==> p(#[trigger] s[j]),
    ensures
        trim_end_by(s, p) == trim_end_by(s.subrange(0, k), p),
    decreases s.len() - k,
{
    if k < s.len() {
        assert(s.drop_last().subrange(0, k) =~= s.subrange(0, k));
        assert forall|j: int| k <= j < s.drop_last().len() implies p(#[trigger] s.drop_last()[j]) by {
            assert(s.drop_last()[j] == s[j]);
        }
        lemma_trim_end_take(s.drop_last(), p, k);
    } else {
        assert(s.subrange(0, s.len() as int) =~= s);
    }
}

/// Index of the first character of `v` at or after which no leading
/// character satisfies the whitespace predicate.
fn leading_whitespace_len(v: &Vec<char>) -> (i: usize)
    ensures
        i <= v@.len(),
        forall|j: int| 0 <= j < i ==> is_whitespace(#[trigger] v@[j]),
        i < v@.len() ==> !is_whitespace(v@[i as int]),
{
    let mut i: usize = 0;
    while i < v.len() && char_is_whitespace(v[i])
        invariant
            i <= v@.len(),
            forall|j: int| 0 <= j < i ==> is_whitespace(#[trigger] v@[j]),
        decreases v@.len() - i,
    {
        i = i + 1;
    }
    i
}

/// `s` with leading and trailing whitespace removed (`str::trim`).
pub fn trim_str(s: &str) -> (r: String)
    ensures
        r@ == trim(s@),
{
    let v = chars_of(s);
    let a = leading_whitespace_len(&v);
    let mut b: usize = v.len();
    while b > a && char_is_whitespace(v[b - 1])
        invariant
            a <= b <= v@.len(),
            forall|j: int| b <= j < v@.len() ==> is_whitespace(#[trigger] v@[j]),
        decreases b,
    {
        b = b - 1;
    }
    proof {
        let p = whitespace_pred();
        lemma_trim_start_skip(s@, p, a as int);
        let t = s@.subrange(a as int, s@.len() as int);
        if a < v@.len() {
            assert(!p(t[0]));
            assert(trim_start_by(t, p) == t);
            let k = (b - a) as int;
            assert forall|j: int| k <= j < t.len() implies p(#[trigger] t[j]) by {
                assert(t[j] == s@[j + a]);
            }
            lemma_trim_end_take(t, p, k);
            assert(t.subrange(0, k) =~= s@.subrange(a as int, b as int));
            if b > a {
                assert(t.subrange(0, k).last() == s@[b - 1]);
                assert(!p(s@[b - 1]));
            } else {
                assert(s@.subrange(a as int, b as int).len() == 0);
            }
        } else {
            assert(t.len() == 0);
            assert(s@.subrange(a as int, b as int).len() == 0);
            assert(trim_start_by(t, p) == t);
            assert(trim_end_by(t, p) == t);
        }
    }
    substring(s, a, b)
}

/// `s` without the leading characters equal to `c` (`str::trim_start_matches`).
pub fn trim_start_char(s: &str, c: char) -> (r: String)
    ensures
        r@ == trim_start_by(s@, char_pred(c)),
{
    let v = chars_of(s);
    let mut i: usize = 0;
    while i < v.len() && v[i] == c
        invariant
            i <= v@.len(),
            v@ == s@,
            forall|j: int| 0 <= j < i ==> #[trigger] v@[j] == c,
        decreases v@.len() - i,
    {
        i = i + 1;
    }
    proof {
        let p = char_pred(c);
        assert forall|j: int| 0 <= j < i implies p(#[trigger] s@[j]) by {
            assert(v@[j] == c);
        }
        lemma_trim_start_skip(s@, p, i as int);
        let t = s@.subrange(i as int, s@.len() as int);
        if i < v.len() {
            assert(!p(t[0]));
        }
        assert(trim_start_by(t, p) == t);
    }
    substring(s, i, v.len())
}

/// `s` without the trailing characters equal to `c` (`str::trim_end_matches`).
pub fn trim_end_char(s: &str, c: char) -> (r: String)
    ensures
        r@ == trim_end_by(s@, char_pred(c)),
{
    let v = chars_of(s);
    let mut b: usize = v.len();
    while b > 0 && v[b - 1] == c
        invariant
            b <= v@.len(),
            v@ == s@,
            forall|j: int| b <= j < v@.len() ==> #[trigger] v@[j] == c,
        decreases b,
    {
        b = b - 1;
    }
    proof {
        let p = char_pred(c);
        assert forall|j: int| b <= j < s@.len() implies p(#[trigger] s@[j]) by {
            assert(v@[j] == c);
        }
        lemma_trim_end_take(s@, p, b as int);
        let t = s@.subrange(0, b as int);
        if b > 0 {
            assert(t.last() == s@[b - 1]);
            assert(!p(t.last()));
        }
        assert(trim_end_by(t, p) == t);
    }
    substring(s, 0, b)
}

/// Whether `n` occurs in `h` at position `i`.
fn occurs_at_exec(h: &Vec<char>, n: &Vec<char>, i: usize) -> (b: bool)
    requires
        i <= h@.len(),
    ensures
        b == occurs_at(h@, n@, i as int),
{
    if n.len() > h.len() - i {
        return false;
    }
    let mut k: usize = 0;
    while k < n.len()
        invariant
            k <= n@.len(),
            i <= h@.len(),
            i + n@.len() <= h.len(),
            forall|j: int| 0 <= j < k ==> h@[i + j] == n@[j],
        decreases n@.len() - k,
    {
        if h[i + k] != n[k] {
            assert(h@.subrange(i as int, i + n@.len())[k as int] != n@[k as int]);
            return false;
        }
        k = k + 1;
    }
    assert(h@.subrange(i as int, i + n@.len()) =~= n@);
    true
}

/// Whether `n` occurs in `h` (`str::contains`).
pub fn str_contains(h: &str, n: &str) -> (b: bool)
    ensures
        b == contains(h@, n@),
{
    let hv = chars_of(h);
    let nv = chars_of(n);
    let mut i: usize = 0;
    while i < hv.len()
        invariant
            i <= hv@.len(),
            hv@ == h@,
            nv@ == n@,
            forall|j: int| 0 <= j < i ==> !occurs_at(h@, n@, j),
        decreases hv@.len() - i,
    {
        if occurs_at_exec(&hv, &nv, i) {
            return true;
        }
        i = i + 1;
    }
    let last = occurs_at_exec(&hv, &nv, i);
    assert(!last ==> forall|j: int| !occurs_at(h@, n@, j));
    last
}

/// Whether `h` begins with `n` (`str::starts_with`).
pub fn str_starts_with(h: &str, n: &str) -> (b: bool)
    ensures
        b == n@.is_prefix_of(h@),
{
    let hv = chars_of(h);
    let nv = chars_of(n);
    let r = occurs_at_exec(&hv, &nv, 0);
    proof {
        if r {
            assert(h@.subrange(0, n@.len() as int) == n@);
            assert forall|j: int| 0 <= j < n@.len() implies n@[j] == h@[j] by {
                assert(h@.subrange(0, n@.len() as int)[j] == h@[j]);
            }
        } else if n@.is_prefix_of(h@) {
            assert(h@.subrange(0, n@.len() as int) =~= n@);
        }
    }
    r
}

/// Whether `h` ends with `n` (`str::ends_with`).
pub fn str_ends_with(h: &str, n: &str) -> (b: bool)
    ensures
        b == n@.is_suffix_of(h@),
{
    let hv = chars_of(h);
    let nv = chars_of(n);
    if nv.len() > hv.len() {
        return false;
    }
    let i = hv.len() - nv.len();
    let r = occurs_at_exec(&hv, &nv, i);
    proof {
        if r {
            assert forall|j: int| 0 <= j < n@.len() implies n@[j] == h@[h@.len() - n@.len() + j] by {
                assert(h@.subrange(i as int, i + n@.len())[j] == h@[i + j]);
            }
        } else if n@.is_suffix_of(h@) {
            assert(h@.subrange(i as int, i + n@.len()) =~= n@);
        }
    }
    r
}

/// `a` followed by `b`.
pub fn str_concat(a: &str, b: &str) -> (r: String)
    ensures
        r@ == a@ + b@,
{
    String::from_str(a).concat(b)
}

/// Length of the first line of `s`: the position of its first `'\n'`, or
/// `s.len()` when there is none.
pub open spec fn newline_index(s: Seq<char>) -> nat
    decreases s.len(),
{
    if s.len() == 0 {
        0
    } else if s[0] == '\n' {
        0
    } else {
        1 + newline_index(s.drop_first())
    }
}

/// `l` without one trailing carriage return.
pub open spec fn strip_cr(l: Seq<char>) -> Seq<char> {
    if l.len() > 0 && l.last() == '\r' {
        l.drop_last()
    } else {
        l
    }
}

/// The lines of `s` as `str::lines` yields them: split at `'\n'`, a
/// `'\r'` just before a `'\n'` removed, and no empty line after a final
/// line ending.
pub open spec fn lines(s: Seq<char>) -> Seq<Seq<char>>
    decreases s.len(),
{
    if s.len() == 0 {
        seq![]
    } else {
        let k = newline_index(s);
        if k >= s.len() {
            seq![s]
        } else {
            seq![strip_cr(s.subrange(0, k as int))] + lines(s.subrange(k + 1int, s.len() as int))
        }
    }
}

proof fn lemma_newline_index(s: Seq<char>)
    ensures
        newline_index(s) <= s.len(),
        newline_index(s) < s.len() ==> s[newline_index(s) as int] == '\n',
        forall|i: int| 0 <= i < newline_index(s) ==> s[i] != '\n',
    decreases s.len(),
{
    if s.len() > 0 && s[0] != '\n' {
        lemma_newline_index(s.drop_first());
        assert forall|i: int| 0 <= i < newline_index(s) implies s[i] != '\n' by {
            if i > 0 {
                assert(s[i] == s.drop_first()[i - 1]);
            }
        }
    }
}

/// The views of a sequence of strings.
pub open spec fn views(v: Seq<String>) -> Seq<Seq<char>> {
    v.map_values(|x: String| x@)
}

/// The lines of `s` (`str::lines`).
pub fn lines_of(s: &str) -> (r: Vec<String>)
    ensures
        views(r@) == lines(s@),
{
    let v = chars_of(s);
    let mut r: Vec<String> = Vec::new();
    let mut start: usize = 0;
    proof {
        assert(s@.subrange(0, s@.len() as int) =~= s@);
        assert(views(r@) =~= Seq::<Seq<char>>::empty());
        assert(views(r@) + lines(s@) =~= lines(s@));
    }
    while start < v.len()
        invariant
            start <= v@.len(),
            v@ == s@,
            lines(s@) == views(r@) + lines(s@.subrange(start as int, s@.len() as int)),
        decreases v@.len() - start,
    {
        let ghost t = s@.subrange(start as int, s@.len() as int);
        let mut e: usize = start;
        while e < v.len() && v[e] != '\n'
            invariant
                start <= e <= v@.len(),
                v@ == s@,
                forall|j: int| start <= j < e ==> v@[j] != '\n',
            decreases v@.len() - e,
        {
            e = e + 1;
        }
        proof {
            lemma_newline_index(t);
            let k = newline_index(t);
            if k < e - start {
                assert(t[k as int] == s@[start + k]);
            }
            if e < v@.len() && (e - start) < k {
                assert(t[e - start] == s@[e as int]);
            }
            assert(k == e - start);
        }
        let ghost old_r = views(r@);
        if e == v.len() {
            let line = substring(s, start, e);
            r.push(line);
            proof {
                assert(views(r@) =~= old_r.push(t));
                assert(t =~= s@.subrange(start as int, e as int));
                assert(s@.subrange(e as int, s@.len() as int).len() == 0);
                assert(lines(s@.subrange(e as int, s@.len() as int)) =~= seq![]);
                assert(lines(t) == seq![t]);
            }
            start = e;
        } else {
            let cr = e > start && v[e - 1] == '\r';
            let end = if cr { e - 1 } else { e };
            let line = substring(s, start, end);
            r.push(line);
            proof {
                let l = t.subrange(0, (e - start) as int);
                assert(l =~= s@.subrange(start as int, e as int));
                if cr {
                    assert(l.last() == s@[e - 1]);
                    assert(strip_cr(l) =~= s@.subrange(start as int, end as int));
                } else {
                    if l.len() > 0 {
                        assert(l.last() == s@[e - 1]);
                    }
                    assert(strip_cr(l) =~= s@.subrange(start as int, end as int));
                }
                assert(t.subrange((e - start) + 1, t.len() as int) =~= s@.subrange(e + 1, s@.len() as int));
                assert(lines(t) == seq![strip_cr(l)] + lines(s@.subrange(e + 1, s@.len() as int)));
                assert(views(r@) =~= old_r.push(strip_cr(l)));
                assert(views(r@) + lines(s@.subrange(e + 1, s@.len() as int)) =~= old_r + lines(t));
            }
            start = e + 1;
        }
    }
    proof {
        assert(s@.subrange(start as int, s@.len() as int).len() == 0);
        assert(views(r@) + seq![] =~= views(r@));
    }
    r
}

/// Maps an optional position to the spec integer it names.
pub open spec fn opt_int(o: Option<usize>) -> Option<int> {
    match o {
        Some(i) => Some(i as int),
        None => None,
    }
}

/// The position of the first `c` in `v` (`str::find` with a `char`).
pub fn find_char(v: &Vec<char>, c: char) -> (r: Option<usize>)
    ensures
        opt_int(r) == first_index(v@, c),
{
    let mut i: usize = 0;
    while i < v.len()
        invariant
            i <= v@.len(),
            forall|j: int| 0 <= j < i ==> v@[j] != c,
        decreases v@.len() - i,
    {
        if v[i] == c {
            proof {
                let s = v@;
                assert(exists|k: int| 0 <= k < s.len() && s[k] == c);
                let w = choose|k: int| 0 <= k < s.len() && s[k] == c && forall|j: int| 0 <= j < k ==> s[j] != c;
                assert(s[i as int] == c);
                assert(0 <= w < s.len() && s[w] == c && forall|j: int| 0 <= j < w ==> s[j] != c);
                if w < i {
                } else if w > i {
                    assert(s[i as int] != c);
                }
            }
            return Some(i);
        }
        i = i + 1;
    }
    None
}

/// The position of the last `c` in `v` (`str::rfind` with a `char`).
pub fn rfind_char(v: &Vec<char>, c: char) -> (r: Option<usize>)
    ensures
        opt_int(r) == last_index(v@, c),
{
    let mut i: usize = v.len();
    while i > 0
        invariant
            i <= v@.len(),
            forall|j: int| i <= j < v@.len() ==> v@[j] != c,
        decreases i,
    {
        if v[i - 1] == c {
            proof {
                let s = v@;
                let k = i - 1;
                assert(s[k as int] == c);
                assert(exists|k: int| 0 <= k < s.len() && s[k] == c);
                let w = choose|k: int| 0 <= k < s.len() && s[k] == c && forall|j: int| k < j < s.len() ==> s[j] != c;
                assert(0 <= w < s.len() && s[w] == c && forall|j: int| w < j < s.len() ==> s[j] != c);
                if w < k {
                    assert(s[k as int] != c);
                } else if w > k {
                }
            }
            return Some(i - 1);
        }
        i = i - 1;
    }
    None
}

/// The digit character for `d < 10`.
pub open spec fn digit_char(d: nat) -> char {
    seq!['0', '1', '2', '3', '4', '5', '6', '7', '8', '9'][d as int]
}

/// Decimal rendering of `n`, without sign or leading zeros (`Display` of an
/// unsigned integer).
pub open spec fn decimal(n: nat) -> Seq<char>
    decreases n,
{
    if n < 10 {
        seq![digit_char(n)]
    } else {
        decimal(n / 10).push(digit_char(n % 10))
    }
}

fn digit_str(d: u64) -> (r: &'static str)
    requires
        d < 10,
    ensures
        r@ == seq![digit_char(d as nat)],
{
    proof {
        reveal_strlit("0");
        reveal_strlit("1");
        reveal_strlit("2");
        reveal_strlit("3");
        reveal_strlit("4");
        reveal_strlit("5");
        reveal_strlit("6");
        reveal_strlit("7");
        reveal_strlit("8");
        reveal_strlit("9");
    }
    match d {
        0 => "0",
        1 => "1",
        2 => "2",
        3 => "3",
        4 => "4",
        5 => "5",
        6 => "6",
        7 => "7",
        8 => "8",
        _ => "9",
    }
}

/// The decimal rendering of `n` (`n.to_string()`).
pub fn decimal_string(n: u64) -> (r: String)
    ensures
        r@ == decimal(n as nat),
    decreases n,
{
    if n < 10 {
        String::from_str(digit_str(n))
    } else {
        let mut s = decimal_string(n / 10);
        s.append(digit_str(n % 10));
        s
    }
}

/// Whether `a` and `b` hold the same characters (`str` equality).
pub fn str_eq(a: &str, b: &str) -> (r: bool)
    ensures
        r == (a@ == b@),
{
    let av = chars_of(a);
    let bv = chars_of(b);
    if av.len() != bv.len() {
        return false;
    }
    let mut i: usize = 0;
    while i < av.len()
        invariant
            i <= av@.len(),
            av@.len() == bv@.len(),
            av@ == a@,
            bv@ == b@,
            forall|j: int| 0 <= j < i ==> av@[j] == bv@[j],
        decreases av@.len() - i,
    {
        if av[i] != bv[i] {
            return false;
        }
        i = i + 1;
    }
    assert(av@ =~= bv@);
    true
}

/// `c` does not occur in `s`.
pub open spec fn lacks(s: Seq<char>, c: char) -> bool {
    forall|i: int| 0 <= i < s.len() ==> s[i] != c
}

/// A character missing from two texts is missing from their concatenation.
pub proof fn lemma_lacks_concat(a: Seq<char>, b: Seq<char>, c: char)
    requires
        lacks(a, c),
        lacks(b, c),
    ensures
        lacks(a + b, c),
{
    assert forall|i: int| 0 <= i < (a + b).len() implies (a + b)[i] != c by {
        if i >= a.len() {
            assert((a + b)[i] == b[i - a.len()]);
        }
    }
}

/// A decimal rendering holds only digits.
pub proof fn lemma_decimal_lacks(n: nat, c: char)
    requires
        forall|d: nat| d < 10 ==> digit_char(d) != c,
    ensures
        lacks(decimal(n), c),
    decreases n,
{
    if n >= 10 {
        lemma_decimal_lacks(n / 10, c);
        assert(digit_char(n % 10) != c);
    } else {
        assert(digit_char(n) != c);
    }
}

/// A text that lacks the first character of `n` does not contain `n`.
pub proof fn lemma_lacks_first(h: Seq<char>, n: Seq<char>)
    requires
        n.len() > 0,
        lacks(h, n[0]),
    ensures
        !contains(h, n),
{
    assert forall|i: int| !occurs_at(h, n, i) by {
        if occurs_at(h, n, i) {
            assert(h.subrange(i, i + n.len())[0] == h[i]);
        }
    }
}

/// `n` occurs in any text that has it in the middle.
pub proof fn lemma_contains_middle(a: Seq<char>, n: Seq<char>, b: Seq<char>)
    ensures
        contains(a + n + b, n),
{
    assert((a + n + b).subrange(a.len() as int, (a.len() + n.len()) as int) =~= n);
    assert(occurs_at(a + n + b, n, a.len() as int));
}

} // verus!
