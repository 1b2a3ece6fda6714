//! Character-level helpers on strings: white space, trimming, path
//! segments and hexadecimal digits.

use vstd::prelude::*;
use vstd::std_specs::iter::IteratorSpec;

verus! {

/// The code points that carry the Unicode `White_Space` property.
pub open spec fn is_white_space(c: char) -> bool {
    let u = c as u32;
    ||| 0x09 <= u <= 0x0D
    ||| u == 0x20
    ||| u == 0x85
    ||| u == 0xA0
    ||| u == 0x1680
    ||| 0x2000 <= u <= 0x200A
    ||| u == 0x2028
    ||| u == 0x2029
    ||| u == 0x202F
    ||| u == 0x205F
    ||| u == 0x3000
}

/// Whether `c` carries the Unicode `White_Space` property, as
/// `char::is_whitespace` tells it.
pub fn is_white_space_char(c: char) -> (b: bool)
    ensures
        b == is_white_space(c),
{
    let u: u32 = c as u32;
    (0x09 <= u && u <= 0x0D) || u == 0x20 || u == 0x85 || u == 0xA0 || u == 0x1680 || (0x2000 <= u
        && u <= 0x200A) || u == 0x2028 || u == 0x2029 || u == 0x202F || u == 0x205F || u == 0x3000
}

/// `String::push` of the standard library: appends one character.
pub assume_specification[ String::push ](s: &mut String, c: char)
    ensures
        final(s)@ == old(s)@.push(c),
;

/// A string is blank when it holds nothing but white space.
pub open spec fn blank(s: Seq<char>) -> bool {
    forall|i: int| 0 <= i < s.len() ==> is_white_space(#[trigger] s[i])
}

/// `s` without its leading white space.
pub open spec fn trim_start(s: Seq<char>) -> Seq<char>
    decreases s.len(),
{
    if s.len() > 0 && is_white_space(s[0]) {
        trim_start(s.drop_first())
    } else {
        s
    }
}

/// `s` without its trailing white space.
pub open spec fn trim_end(s: Seq<char>) -> Seq<char>
    decreases s.len(),
{
    if s.len() > 0 && is_white_space(s.last()) {
        trim_end(s.drop_last())
    } else {
        s
    }
}

/// `s` without leading and trailing white space.
pub open spec fn trimmed(s: Seq<char>) -> Seq<char> {
    trim_end(trim_start(s))
}

/// `s` without the run of `c` at its end.
pub open spec fn strip_trailing(s: Seq<char>, c: char) -> Seq<char>
    decreases s.len(),
{
    if s.len() > 0 && s.last() == c {
        strip_trailing(s.drop_last(), c)
    } else {
        s
    }
}

/// The characters of `s`, in order.
pub fn to_chars(s: &str) -> (v: Vec<char>)
    ensures
        v@ == s@,
{
    let mut v: Vec<char> = Vec::new();
    let mut it = s.chars();
    loop
        invariant
            it.obeys_prophetic_iter_laws(),
            it.decrease() is Some,
            v@ + it.remaining() == s@,
        ensures
            v@ == s@,
        decreases it.decrease()->0,
    {
        match it.next() {
            Some(c) => {
                v.push(c);
            },
            None => {
                break;
            },
        }
    }
    v
}

/// The string made of `chars[from..to]`.
pub fn from_chars(chars: &Vec<char>, from: usize, to: usize) -> (s: String)
    requires
        from <= to <= chars@.len(),
    ensures
        s@ == chars@.subrange(from as int, to as int),
{
    let mut s = String::new();
    let mut i: usize = from;
    while i < to
        invariant
            from <= i <= to <= chars@.len(),
            s@ == chars@.subrange(from as int, i as int),
        decreases to - i,
    {
        s.push(chars[i]);
        i = i + 1;
    }
    s
}

/// The index of the first character of `chars` that is no white space, or
/// the length where there is none.
fn skip_white_space(chars: &Vec<char>) -> (a: usize)
    ensures
        a <= chars@.len(),
        trim_start(chars@) == chars@.skip(a as int),
        blank(chars@.take(a as int)),
        a < chars@.len() ==> !is_white_space(chars@[a as int]),
{
    let mut a: usize = 0;
    proof {
        assert(chars@.skip(0) == chars@);
    }
    while a < chars.len() && is_white_space_char(chars[a])
        invariant
            a <= chars@.len(),
            trim_start(chars@) == trim_start(chars@.skip(a as int)),
            blank(chars@.take(a as int)),
        decreases chars@.len() - a,
    {
        proof {
            let rest = chars@.skip(a as int);
            assert(rest.drop_first() == chars@.skip(a + 1));
            assert(chars@.take(a + 1)[a as int] == chars@[a as int]);
        }
        a = a + 1;
    }
    a
}

/// The end of `chars[from..]` once its trailing white space is cut.
fn cut_white_space(chars: &Vec<char>, from: usize) -> (b: usize)
    requires
        from <= chars@.len(),
    ensures
        from <= b <= chars@.len(),
        trim_end(chars@.skip(from as int)) == chars@.subrange(from as int, b as int),
{
    let mut b: usize = chars.len();
    proof {
        assert(chars@.skip(from as int) == chars@.subrange(from as int, b as int));
    }
    while b > from && is_white_space_char(chars[b - 1])
        invariant
            from <= b <= chars@.len(),
            trim_end(chars@.skip(from as int)) == trim_end(chars@.subrange(from as int, b as int)),
        decreases b,
    {
        proof {
            let part = chars@.subrange(from as int, b as int);
            assert(part.last() == chars@[b - 1]);
            assert(part.drop_last() == chars@.subrange(from as int, b - 1));
        }
        b = b - 1;
    }
    proof {
        let part = chars@.subrange(from as int, b as int);
        if part.len() > 0 {
            assert(part.last() == chars@[b - 1]);
        }
    }
    b
}

/// `s` without leading and trailing white space, as `str::trim` gives it.
pub fn trim(s: &str) -> (r: String)
    ensures
        r@ == trimmed(s@),
{
    let chars = to_chars(s);
    let a = skip_white_space(&chars);
    let b = cut_white_space(&chars, a);
    from_chars(&chars, a, b)
}

/// The number of characters of `s` between its leading and its trailing
/// white space.
pub fn trimmed_length(s: &str) -> (n: usize)
    ensures
        n == trimmed(s@).len(),
{
    let chars = to_chars(s);
    let a = skip_white_space(&chars);
    let b = cut_white_space(&chars, a);
    b - a
}

/// `s` without the slashes at its end.
pub fn strip_trailing_slashes(s: &str) -> (r: String)
    ensures
        r@ == strip_trailing(s@, '/'),
{
    let chars = to_chars(s);
    let mut b: usize = chars.len();
    proof {
        assert(chars@.take(b as int) == chars@);
    }
    while b > 0 && chars[b - 1] == '/'
        invariant
            b <= chars@.len(),
            strip_trailing(chars@, '/') == strip_trailing(chars@.take(b as int), '/'),
        decreases b,
    {
        proof {
            let part = chars@.take(b as int);
            assert(part.last() == chars@[b - 1]);
            assert(part.drop_last() == chars@.take(b - 1));
        }
        b = b - 1;
    }
    proof {
        let part = chars@.take(b as int);
        if part.len() > 0 {
            assert(part.last() == chars@[b - 1]);
        }
        assert(chars@.subrange(0, b as int) == part);
    }
    from_chars(&chars, 0, b)
}

/// The view of an optional string.
pub open spec fn opt_text(o: Option<String>) -> Option<Seq<char>> {
    match o {
        Some(s) => Some(s@),
        None => None,
    }
}

/// The view of an optional string slice.
pub open spec fn opt_str(o: Option<&str>) -> Option<Seq<char>> {
    match o {
        Some(s) => Some(s@),
        None => None,
    }
}

/// The views of a sequence of strings.
pub open spec fn texts(v: Seq<String>) -> Seq<Seq<char>> {
    Seq::new(v.len(), |i: int| v[i]@)
}

/// `cur` as a one-element list, or nothing where it is empty.
pub open spec fn piece(cur: Seq<char>) -> Seq<Seq<char>> {
    if cur.len() > 0 {
        seq![cur]
    } else {
        seq![]
    }
}

/// The non-empty pieces of `cur + s` between occurrences of `sep`, where
/// `cur` holds the piece that was begun before `s`.
pub open spec fn split_from(s: Seq<char>, sep: char, cur: Seq<char>) -> Seq<Seq<char>>
    decreases s.len(),
{
    if s.len() == 0 {
        piece(cur)
    } else if s[0] == sep {
        piece(cur) + split_from(s.drop_first(), sep, seq![])
    } else {
        split_from(s.drop_first(), sep, cur.push(s[0]))
    }
}

/// The non-empty pieces of `s` between occurrences of `sep`, in order.
pub open spec fn segments(s: Seq<char>, sep: char) -> Seq<Seq<char>> {
    split_from(s, sep, seq![])
}

/// The non-empty pieces of `s` between slashes, in order.
pub fn path_segments(s: &str) -> (out: Vec<String>)
    ensures
        texts(out@) == segments(s@, '/'),
{
    let chars = to_chars(s);
    let mut out: Vec<String> = Vec::new();
    let mut cur = String::new();
    let mut i: usize = 0;
    proof {
        assert(chars@.skip(0) == chars@);
        assert(texts(out@) + split_from(chars@, '/', cur@) == segments(s@, '/'));
    }
    while i < chars.len()
        invariant
            i <= chars@.len(),
            chars@ == s@,
            texts(out@) + split_from(chars@.skip(i as int), '/', cur@) == segments(s@, '/'),
        decreases chars@.len() - i,
    {
        let c = chars[i];
        let ghost here = chars@.skip(i as int);
        let ghost rest = chars@.skip(i + 1);
        let ghost before = texts(out@);
        let ghost open = cur@;
        proof {
            assert(here.drop_first() == rest);
            assert(here[0] == c);
        }
        if c == '/' {
            if !cur.as_str().is_empty() {
                out.push(cur);
                cur = String::new();
                proof {
                    assert(texts(out@) == before + piece(open));
                }
            }
            proof {
                assert(split_from(here, '/', open) == piece(open) + split_from(rest, '/', seq![]));
                assert(texts(out@) == before + piece(open));
                assert(cur@ == Seq::<char>::empty());
                assert(texts(out@) + split_from(rest, '/', cur@) == before + split_from(
                    here,
                    '/',
                    open,
                ));
            }
        } else {
            cur.push(c);
            proof {
                assert(split_from(here, '/', open) == split_from(rest, '/', cur@));
            }
        }
        i = i + 1;
    }
    if !cur.as_str().is_empty() {
        let ghost before = texts(out@);
        let ghost done = cur@;
        out.push(cur);
        proof {
            assert(texts(out@) == before + piece(done));
        }
    } else {
        proof {
            assert(texts(out@) + piece(cur@) == texts(out@));
        }
    }
    out
}

/// The digit of `d` in base sixteen, in lower case.
pub open spec fn hex_digit(d: int) -> char {
    "0123456789abcdef"@[d]
}

/// `n` in base sixteen, in lower case and without leading zeros.
pub open spec fn lower_hex(n: nat) -> Seq<char>
    decreases n,
{
    if n < 16 {
        seq![hex_digit(n as int)]
    } else {
        lower_hex(n / 16).push(hex_digit((n % 16) as int))
    }
}

/// The digits that stand before the last ones already written: those of
/// `m`, or none once `m` is used up.
spec fn leading_hex(m: nat) -> Seq<char> {
    if m == 0 {
        seq![]
    } else {
        lower_hex(m)
    }
}

/// `n` in base sixteen, in lower case and without leading zeros, as the
/// format `{:x}` writes it.
pub fn to_lower_hex(n: u64) -> (s: String)
    ensures
        s@ == lower_hex(n as nat),
{
    let digits = "0123456789abcdef";
    proof {
        reveal_strlit("0123456789abcdef");
    }
    let mut low: Vec<char> = Vec::new();
    low.push(digits.get_char((n % 16) as usize));
    let mut m: u64 = n / 16;
    let ghost mut tail: Seq<char> = seq![hex_digit((n % 16) as int)];
    while m > 0
        invariant
            digits@ == "0123456789abcdef"@,
            digits@.len() == 16,
            low@.len() == tail.len(),
            low@.len() >= 1,
            forall|k: int| 0 <= k < tail.len() ==> low@[k] == #[trigger] tail[tail.len() - 1 - k],
            lower_hex(n as nat) == leading_hex(m as nat) + tail,
        decreases m,
    {
        let c = digits.get_char((m % 16) as usize);
        low.push(c);
        proof {
            let ghost grown = seq![c] + tail;
            assert(leading_hex(m as nat) == leading_hex((m / 16) as nat) + seq![c]);
            assert(leading_hex(m as nat) + tail == leading_hex((m / 16) as nat) + grown);
            assert forall|k: int| 0 <= k < grown.len() implies low@[k] == #[trigger] grown[(
                grown.len() - 1 - k)] by {
                if k < tail.len() {
                    assert(grown[grown.len() - 1 - k] == tail[tail.len() - 1 - k]);
                }
            }
            tail = grown;
        }
        m = m / 16;
    }
    let mut s = String::new();
    let mut i: usize = low.len();
    while i > 0
        invariant
            i <= low@.len(),
            low@.len() == tail.len(),
            forall|k: int| 0 <= k < tail.len() ==> low@[k] == #[trigger] tail[tail.len() - 1 - k],
            s@ == tail.take(tail.len() - i),
        decreases i,
    {
        i = i - 1;
        s.push(low[i]);
        proof {
            let j = tail.len() - 1 - i;
            assert(low@[i as int] == tail[tail.len() - 1 - i]);
            assert(tail.take(j).push(tail[j]) == tail.take(j + 1));
        }
    }
    proof {
        assert(tail.take(tail.len() as int) == tail);
    }
    s
}

/// A piece is plain when it is not empty and holds no separator.
pub open spec fn plain_pieces(pieces: Seq<Seq<char>>, sep: char) -> bool {
    forall|i: int|
        0 <= i < pieces.len() ==> (#[trigger] pieces[i]).len() > 0 && !pieces[i].contains(sep)
}

/// The pieces that a split finds are plain, where the piece that was
/// begun holds no separator.
proof fn lemma_split_from_plain(s: Seq<char>, sep: char, cur: Seq<char>)
    requires
        !cur.contains(sep),
    ensures
        plain_pieces(split_from(s, sep, cur), sep),
    decreases s.len(),
{
    if s.len() == 0 {
    } else if s[0] == sep {
        let rest = split_from(s.drop_first(), sep, seq![]);
        lemma_split_from_plain(s.drop_first(), sep, seq![]);
        let all = piece(cur) + rest;
        assert forall|i: int| 0 <= i < all.len() implies (#[trigger] all[i]).len() > 0
            && !all[i].contains(sep) by {
            if i >= piece(cur).len() {
                assert(all[i] == rest[i - piece(cur).len()]);
            }
        }
    } else {
        let grown = cur.push(s[0]);
        assert forall|k: int| 0 <= k < grown.len() implies grown[k] != sep by {
            if k < cur.len() {
                assert(cur.contains(cur[k]));
            }
        }
        lemma_split_from_plain(s.drop_first(), sep, grown);
    }
}

/// Every segment is plain: none is empty, and none holds the separator.
pub proof fn lemma_segments_are_plain(s: Seq<char>, sep: char)
    ensures
        plain_pieces(segments(s, sep), sep),
{
    lemma_split_from_plain(s, sep, seq![]);
}

/// A string is blank exactly when trimming leaves nothing of it.
pub proof fn lemma_blank_iff_trimmed_empty(s: Seq<char>)
    ensures
        blank(s) <==> trimmed(s).len() == 0,
{
    lemma_trim_start(s);
    lemma_trim_end(trim_start(s));
    let a = s.len() - trim_start(s).len();
    if blank(s) {
        if trim_start(s).len() > 0 {
            assert(trim_start(s)[0] == s[a]);
        }
    } else {
        let i = choose|i: int| 0 <= i < s.len() && !is_white_space(#[trigger] s[i]);
        if i < a {
            assert(s.take(a)[i] == s[i]);
        } else {
            let t = trim_start(s);
            let b = trim_end(t).len() as int;
            assert(t[i - a] == s[i]);
            if i - a >= b {
                assert(t.skip(b)[i - a - b] == t[i - a]);
            }
        }
    }
}

/// What `trim_start` cuts is a blank prefix, and what is left does not
/// begin with white space.
pub proof fn lemma_trim_start(s: Seq<char>)
    ensures
        trim_start(s).len() <= s.len(),
        trim_start(s) == s.skip(s.len() - trim_start(s).len()),
        blank(s.take(s.len() - trim_start(s).len())),
        trim_start(s).len() > 0 ==> !is_white_space(trim_start(s)[0]),
    decreases s.len(),
{
    if s.len() > 0 && is_white_space(s[0]) {
        let rest = s.drop_first();
        lemma_trim_start(rest);
        let a = rest.len() - trim_start(rest).len();
        assert(rest.skip(a) == s.skip(a + 1));
        assert forall|i: int| 0 <= i < a + 1 implies is_white_space(
            #[trigger] s.take(a + 1)[i],
        ) by {
            if i > 0 {
                assert(rest.take(a)[i - 1] == s[i]);
            }
        }
    } else {
        assert(s.skip(0) == s);
    }
}

/// What `trim_end` cuts is a blank suffix, and what is left does not end
/// with white space.
pub proof fn lemma_trim_end(s: Seq<char>)
    ensures
        trim_end(s).len() <= s.len(),
        trim_end(s) == s.take(trim_end(s).len() as int),
        blank(s.skip(trim_end(s).len() as int)),
        trim_end(s).len() > 0 ==> !is_white_space(trim_end(s).last()),
    decreases s.len(),
{
    if s.len() > 0 && is_white_space(s.last()) {
        let rest = s.drop_last();
        lemma_trim_end(rest);
        let b = trim_end(rest).len() as int;
        assert(rest.take(b) == s.take(b));
        assert forall|i: int| 0 <= i < s.len() - b implies is_white_space(
            #[trigger] s.skip(b)[i],
        ) by {
            if i < rest.len() - b {
                assert(rest.skip(b)[i] == s[b + i]);
            }
        }
    } else {
        assert(s.take(s.len() as int) == s);
    }
}

} // verus!
