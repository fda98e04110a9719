//! Character-level string building blocks with exact specifications.

use vstd::prelude::*;

verus! {

/// The characters of a string slice, in order.
pub fn chars_of(s: &str) -> (v: Vec<char>)
    ensures
        v@ == s@,
{
    let mut v: Vec<char> = Vec::new();
    for c in it: s.chars()
        invariant
            v@ == it.history(),
    {
        v.push(c);
    }
    v
}

/// Appends one character to a string (`String::push`).
#[verifier::external_body]
pub fn push_char(s: &mut String, c: char)
    ensures
        final(s)@ == old(s)@.push(c),
{
    s.push(c);
}

/// How single characters are rewritten by the escaping functions of this crate.
#[derive(Clone, Copy)]
pub enum CharMap {
    /// HTML text and attribute escaping: `& < > "`.
    Html,
    /// Escaping for a single-quoted JavaScript string literal.
    Js,
    /// Backslash before every double quote.
    Quote,
    /// Spaces become `+` (search queries).
    Plus,
    /// The body of a JSON string: quote, backslash and control characters escaped.
    Json,
}

/// The lower-case hexadecimal digit of `d` (below 16).
pub open spec fn hex_char(d: nat) -> char {
    if d < 10 {
        (48 + d) as char
    } else {
        (87 + d) as char
    }
}

/// What one character becomes under `m`.
pub open spec fn map_char(m: CharMap, c: char) -> Seq<char> {
    match m {
        CharMap::Html => if c == '&' {
            "&amp;"@
        } else if c == '<' {
            "&lt;"@
        } else if c == '>' {
            "&gt;"@
        } else if c == '"' {
            "&quot;"@
        } else {
            seq![c]
        },
        CharMap::Js => if c == '\\' {
            "\\\\"@
        } else if c == '\'' {
            "\\'"@
        } else if c == '\n' {
            " "@
        } else if c == '\r' {
            Seq::empty()
        } else {
            seq![c]
        },
        CharMap::Quote => if c == '"' {
            "\\\""@
        } else {
            seq![c]
        },
        CharMap::Plus => if c == ' ' {
            "+"@
        } else {
            seq![c]
        },
        CharMap::Json => if c == '"' {
            "\\\""@
        } else if c == '\\' {
            "\\\\"@
        } else if c == '\u{8}' {
            "\\b"@
        } else if c == '\u{c}' {
            "\\f"@
        } else if c == '\n' {
            "\\n"@
        } else if c == '\r' {
            "\\r"@
        } else if c == '\t' {
            "\\t"@
        } else if (c as u32) < 0x20 {
            "\\u00"@ + seq![hex_char((c as u32 / 16) as nat), hex_char((c as u32 % 16) as nat)]
        } else {
            seq![c]
        },
    }
}

/// `s` with every character replaced by what `m` makes of it.
pub open spec fn mapped(s: Seq<char>, m: CharMap) -> Seq<char>
    decreases s.len(),
{
    if s.len() == 0 {
        Seq::empty()
    } else {
        mapped(s.drop_last(), m) + map_char(m, s.last())
    }
}

pub proof fn lemma_mapped_push(s: Seq<char>, c: char, m: CharMap)
    ensures
        mapped(s.push(c), m) == mapped(s, m) + map_char(m, c),
{
    assert(s.push(c).drop_last() =~= s);
}

fn push_mapped(out: &mut String, m: CharMap, c: char)
    ensures
        final(out)@ == old(out)@ + map_char(m, c),
{
    match m {
        CharMap::Html => {
            if c == '&' {
                out.append("&amp;");
            } else if c == '<' {
                out.append("&lt;");
            } else if c == '>' {
                out.append("&gt;");
            } else if c == '"' {
                out.append("&quot;");
            } else {
                push_char(out, c);
            }
        },
        CharMap::Js => {
            if c == '\\' {
                out.append("\\\\");
            } else if c == '\'' {
                out.append("\\'");
            } else if c == '\n' {
                out.append(" ");
            } else if c == '\r' {
                assert(old(out)@ + Seq::<char>::empty() =~= old(out)@);
            } else {
                push_char(out, c);
            }
        },
        CharMap::Quote => {
            if c == '"' {
                out.append("\\\"");
            } else {
                push_char(out, c);
            }
        },
        CharMap::Plus => {
            if c == ' ' {
                out.append("+");
            } else {
                push_char(out, c);
            }
        },
        CharMap::Json => {
            if c == '"' {
                out.append("\\\"");
            } else if c == '\\' {
                out.append("\\\\");
            } else if c == '\u{8}' {
                out.append("\\b");
            } else if c == '\u{c}' {
                out.append("\\f");
            } else if c == '\n' {
                out.append("\\n");
            } else if c == '\r' {
                out.append("\\r");
            } else if c == '\t' {
                out.append("\\t");
            } else if (c as u32) < 0x20 {
                out.append("\\u00");
                let u = c as u32;
                let hi: u8 = (u / 16) as u8;
                let lo: u8 = (u % 16) as u8;
                push_char(out, if hi < 10 { (48u8 + hi) as char } else { (87u8 + hi) as char });
                push_char(out, if lo < 10 { (48u8 + lo) as char } else { (87u8 + lo) as char });
                assert(final(out)@ =~= old(out)@ + map_char(m, c));
            } else {
                push_char(out, c);
            }
        },
    }
}

/// Appends the characters of `v` rewritten one by one under `m`.
pub fn append_mapped_chars(out: &mut String, v: &Vec<char>, m: CharMap)
    ensures
        final(out)@ == old(out)@ + mapped(v@, m),
{
    let n = v.len();
    let mut i: usize = 0;
    while i < n
        invariant
            n == v@.len(),
            i <= n,
            out@ == old(out)@ + mapped(v@.take(i as int), m),
        decreases n - i,
    {
        proof {
            assert(v@.take(i as int).push(v@[i as int]) =~= v@.take(i + 1));
            lemma_mapped_push(v@.take(i as int), v@[i as int], m);
        }
        push_mapped(out, m, v[i]);
        i = i + 1;
    }
    assert(v@.take(n as int) =~= v@);
}

/// Appends `s` rewritten character by character under `m`.
pub fn append_mapped(out: &mut String, s: &str, m: CharMap)
    ensures
        final(out)@ == old(out)@ + mapped(s@, m),
{
    let v = chars_of(s);
    append_mapped_chars(out, &v, m);
}

/// A string holding exactly the characters of `v`.
pub fn string_from_chars(v: &Vec<char>) -> (s: String)
    ensures
        s@ == v@,
{
    let mut s = String::new();
    let n = v.len();
    let mut i: usize = 0;
    while i < n
        invariant
            n == v@.len(),
            i <= n,
            s@ == v@.take(i as int),
        decreases n - i,
    {
        push_char(&mut s, v[i]);
        assert(v@.take(i as int).push(v@[i as int]) =~= v@.take(i + 1));
        i = i + 1;
    }
    assert(v@.take(n as int) =~= v@);
    s
}

/// Whether two string slices hold the same characters.
pub fn same_text(a: &str, b: &str) -> (r: bool)
    ensures
        r == (a@ == b@),
{
    a.to_owned() == b.to_owned()
}

/// The decimal digit character of `d`.
pub open spec fn digit_char(d: nat) -> char {
    (48 + d) as char
}

/// The decimal notation of `n`, without sign or leading zeros.
pub open spec fn decimal(n: nat) -> Seq<char>
    decreases n,
{
    if n < 10 {
        seq![digit_char(n)]
    } else {
        decimal(n / 10).push(digit_char(n % 10))
    }
}

/// Appends the decimal notation of `n`.
pub fn push_decimal(out: &mut String, n: usize)
    ensures
        final(out)@ == old(out)@ + decimal(n as nat),
    decreases n,
{
    if n >= 10 {
        push_decimal(out, n / 10);
    }
    let d: u8 = (n % 10) as u8;
    let c: char = (48u8 + d) as char;
    push_char(out, c);
    proof {
        if n >= 10 {
            assert(old(out)@ + decimal(n as nat) =~= old(out)@ + decimal((n / 10) as nat) + seq![c]);
        } else {
            assert(old(out)@ + decimal(n as nat) =~= old(out)@.push(c));
        }
    }
}

/// The Unicode `White_Space` property (the characters `char::is_whitespace` accepts).
pub open spec fn is_white_space(c: char) -> bool {
    let u = c as u32;
    ||| 0x09 <= u <= 0x0d
    ||| u == 0x20
    ||| u == 0x85
    ||| u == 0xa0
    ||| u == 0x1680
    ||| 0x2000 <= u <= 0x200a
    ||| u == 0x2028
    ||| u == 0x2029
    ||| u == 0x202f
    ||| u == 0x205f
    ||| u == 0x3000
}

pub fn white_space(c: char) -> (r: bool)
    ensures
        r == is_white_space(c),
{
    let u = c as u32;
    (0x09 <= u && u <= 0x0d) || u == 0x20 || u == 0x85 || u == 0xa0 || u == 0x1680 || (0x2000
        <= u && u <= 0x200a) || u == 0x2028 || u == 0x2029 || u == 0x202f || u == 0x205f || u
        == 0x3000
}

/// `s` without its leading white space.
pub open spec fn trim_start(s: Seq<char>) -> Seq<char>
    decreases s.len(),
{
    if s.len() > 0 && is_white_space(s[0]) {
        trim_start(s.drop_first())
    } else {
        s
    }
}

/// `s` without its trailing white space.
pub open spec fn trim_end(s: Seq<char>) -> Seq<char>
    decreases s.len(),
{
    if s.len() > 0 && is_white_space(s.last()) {
        trim_end(s.drop_last())
    } else {
        s
    }
}

/// `s` without leading and trailing white space (what `str::trim` returns).
pub open spec fn trimmed(s: Seq<char>) -> Seq<char> {
    trim_end(trim_start(s))
}

/// The characters of `v` from `lo` up to `hi`.
pub fn sub_chars(v: &Vec<char>, lo: usize, hi: usize) -> (r: Vec<char>)
    requires
        lo <= hi <= v@.len(),
    ensures
        r@ == v@.subrange(lo as int, hi as int),
{
    let mut r: Vec<char> = Vec::new();
    let mut i = lo;
    while i < hi
        invariant
            lo <= i <= hi <= v@.len(),
            r@ == v@.subrange(lo as int, i as int),
        decreases hi - i,
    {
        r.push(v[i]);
        assert(v@.subrange(lo as int, i as int).push(v@[i as int]) =~= v@.subrange(
            lo as int,
            i + 1,
        ));
        i = i + 1;
    }
    r
}

/// `v` without leading and trailing white space.
pub fn trim_chars(v: &Vec<char>) -> (r: Vec<char>)
    ensures
        r@ == trimmed(v@),
{
    let n = v.len();
    let mut lo: usize = 0;
    assert(v@.subrange(0, n as int) =~= v@);
    while lo < n && white_space(v[lo])
        invariant
            n == v@.len(),
            lo <= n,
            trim_start(v@) == trim_start(v@.subrange(lo as int, n as int)),
        decreases n - lo,
    {
        assert(v@.subrange(lo as int, n as int).drop_first() =~= v@.subrange(lo + 1, n as int));
        lo = lo + 1;
    }
    let mut hi: usize = n;
    assert(trim_start(v@) == v@.subrange(lo as int, n as int));
    while hi > lo && white_space(v[hi - 1])
        invariant
            n == v@.len(),
            lo <= hi <= n,
            trimmed(v@) == trim_end(v@.subrange(lo as int, hi as int)),
        decreases hi,
    {
        assert(v@.subrange(lo as int, hi as int).drop_last() =~= v@.subrange(
            lo as int,
            hi - 1,
        ));
        hi = hi - 1;
    }
    sub_chars(v, lo, hi)
}

/// `p` is a prefix of `s`.
pub open spec fn has_prefix(s: Seq<char>, p: Seq<char>) -> bool {
    p.len() <= s.len() && s.subrange(0, p.len() as int) == p
}

/// Whether `p` is a prefix of `s`.
pub fn starts_with_chars(s: &Vec<char>, p: &Vec<char>) -> (r: bool)
    ensures
        r == has_prefix(s@, p@),
{
    if p.len() > s.len() {
        return false;
    }
    let mut i: usize = 0;
    while i < p.len()
        invariant
            p@.len() <= s@.len(),
            i <= p@.len(),
            forall|k: int| 0 <= k < i ==> s@[k] == p@[k],
        decreases p@.len() - i,
    {
        if s[i] != p[i] {
            assert(s@.subrange(0, p@.len() as int)[i as int] != p@[i as int]);
            return false;
        }
        i = i + 1;
    }
    assert(s@.subrange(0, p@.len() as int) =~= p@);
    true
}

/// Whether the text of `s` starts with the text of `p`.
pub fn starts_with_str(s: &str, p: &str) -> (r: bool)
    ensures
        r == has_prefix(s@, p@),
{
    let sv = chars_of(s);
    let pv = chars_of(p);
    starts_with_chars(&sv, &pv)
}

/// `p` occurs in `s` at position `i`.
pub open spec fn occurs_at(s: Seq<char>, p: Seq<char>, i: int) -> bool {
    0 <= i && i + p.len() <= s.len() && s.subrange(i, i + p.len()) == p
}

/// `p` occurs somewhere in `s` (what `str::contains` answers for a string pattern).
pub open spec fn has_infix(s: Seq<char>, p: Seq<char>) -> bool {
    exists|i: int| occurs_at(s, p, i)
}

fn occurs_at_exec(s: &Vec<char>, p: &Vec<char>, i: usize) -> (r: bool)
    requires
        i + p@.len() <= s@.len(),
    ensures
        r == occurs_at(s@, p@, i as int),
{
    let mut k: usize = 0;
    while k < p.len()
        invariant
            i + p.len() <= s.len(),
            k <= p@.len(),
            forall|j: int| 0 <= j < k ==> s@[i + j] == p@[j],
        decreases p@.len() - k,
    {
        if s[i + k] != p[k] {
            assert(s@.subrange(i as int, i + p@.len())[k as int] != p@[k as int]);
            return false;
        }
        k = k + 1;
    }
    assert(s@.subrange(i as int, i + p@.len()) =~= p@);
    true
}

/// Whether `p` occurs somewhere in `s`.
pub fn contains_chars(s: &Vec<char>, p: &Vec<char>) -> (r: bool)
    ensures
        r == has_infix(s@, p@),
{
    if p.len() > s.len() {
        assert(forall|i: int| !occurs_at(s@, p@, i));
        return false;
    }
    let last = s.len() - p.len();
    let mut i: usize = 0;
    loop
        invariant
            last + p@.len() == s@.len(),
            i <= last,
            forall|j: int| 0 <= j < i ==> !occurs_at(s@, p@, j),
        decreases last - i,
    {
        if occurs_at_exec(s, p, i) {
            return true;
        }
        if i == last {
            assert(forall|j: int| !occurs_at(s@, p@, j));
            return false;
        }
        i = i + 1;
    }
}

/// Whether the character `c` occurs in `v`.
pub fn contains_char(v: &Vec<char>, c: char) -> (r: bool)
    ensures
        r == v@.contains(c),
{
    let mut i: usize = 0;
    while i < v.len()
        invariant
            i <= v@.len(),
            forall|j: int| 0 <= j < i ==> v@[j] != c,
        decreases v@.len() - i,
    {
        if v[i] == c {
            return true;
        }
        i = i + 1;
    }
    false
}

/// What `str::to_lowercase` makes of a text: the Unicode `Lowercase` mapping of every character,
/// with the final-sigma rule.
pub uninterp spec fn lowercase(s: Seq<char>) -> Seq<char>;

/// `c` is an ASCII character.
pub open spec fn is_ascii_char(c: char) -> bool {
    (c as u32) < 128
}

/// Every character of `s` is ASCII.
pub open spec fn is_ascii_text(s: Seq<char>) -> bool {
    forall|i: int| 0 <= i < s.len() ==> is_ascii_char(#[trigger] s[i])
}

/// The ASCII lower-case form of `c`: `A` to `Z` become `a` to `z`, every other character stays.
pub open spec fn ascii_lower(c: char) -> char {
    if 'A' <= c && c <= 'Z' {
        ((c as u32) + 32) as char
    } else {
        c
    }
}

/// The ASCII upper-case form of `c`: `a` to `z` become `A` to `Z`, every other character stays.
pub open spec fn ascii_upper(c: char) -> char {
    if 'a' <= c && c <= 'z' {
        ((c as u32) - 32) as char
    } else {
        c
    }
}

/// `s` with every character in its ASCII lower-case form.
pub open spec fn ascii_lowercase(s: Seq<char>) -> Seq<char> {
    s.map_values(|c: char| ascii_lower(c))
}

/// `s` with every character in its ASCII upper-case form.
pub open spec fn ascii_uppercase(s: Seq<char>) -> Seq<char> {
    s.map_values(|c: char| ascii_upper(c))
}

/// `str::to_lowercase`: the result is the Unicode lowercase form of `s`; it depends on the text
/// of `s` alone. The mapping tables themselves are not restated here; what is stated is what
/// std's documentation says of ASCII text (`to_lowercase` lower-cases ASCII characters as
/// `to_ascii_lowercase` does, and leaves the other ASCII characters as they are).
#[verifier::external_body]
pub fn to_lowercase(s: &str) -> (r: String)
    ensures
        r@ == lowercase(s@),
        is_ascii_text(s@) ==> r@ == ascii_lowercase(s@),
{
    s.to_lowercase()
}

/// `items` joined with `sep` between neighbours.
pub open spec fn joined(items: Seq<Seq<char>>, sep: Seq<char>) -> Seq<char>
    decreases items.len(),
{
    if items.len() == 0 {
        Seq::empty()
    } else if items.len() == 1 {
        items[0]
    } else {
        joined(items.drop_last(), sep) + sep + items.last()
    }
}

pub proof fn lemma_joined_push(items: Seq<Seq<char>>, sep: Seq<char>, x: Seq<char>)
    ensures
        joined(items.push(x), sep) == if items.len() == 0 {
            x
        } else {
            joined(items, sep) + sep + x
        },
{
    assert(items.push(x).drop_last() =~= items);
}

/// Distinct characters have distinct code points.
pub proof fn lemma_code_point_injective(x: char, y: char)
    requires
        x != y,
    ensures
        (x as u32) != (y as u32),
{
    vstd::utf8::char_u32_cast(x, x as u32);
    vstd::utf8::char_u32_cast(y, y as u32);
}

/// `a` sorts strictly before `b`: code point by code point, a proper prefix first. This is the
/// order of `str` and `String` (UTF-8 byte order equals code point order).
pub open spec fn text_less(a: Seq<char>, b: Seq<char>) -> bool
    decreases a.len(),
{
    if a.len() == 0 {
        b.len() > 0
    } else if b.len() == 0 {
        false
    } else if a[0] == b[0] {
        text_less(a.drop_first(), b.drop_first())
    } else {
        (a[0] as u32) < (b[0] as u32)
    }
}

pub proof fn lemma_text_less_irreflexive(a: Seq<char>)
    ensures
        !text_less(a, a),
    decreases a.len(),
{
    if a.len() > 0 {
        lemma_text_less_irreflexive(a.drop_first());
    }
}

pub proof fn lemma_text_less_transitive(a: Seq<char>, b: Seq<char>, c: Seq<char>)
    requires
        text_less(a, b),
        text_less(b, c),
    ensures
        text_less(a, c),
    decreases a.len(),
{
    if a.len() > 0 && b.len() > 0 && c.len() > 0 {
        if a[0] == b[0] && b[0] == c[0] {
            lemma_text_less_transitive(a.drop_first(), b.drop_first(), c.drop_first());
        }
    }
}

pub proof fn lemma_text_less_total(a: Seq<char>, b: Seq<char>)
    ensures
        a == b || text_less(a, b) || text_less(b, a),
    decreases a.len(),
{
    if a.len() > 0 && b.len() > 0 {
        if a[0] == b[0] {
            lemma_text_less_total(a.drop_first(), b.drop_first());
            if a.drop_first() == b.drop_first() {
                assert(a =~= seq![a[0]] + a.drop_first());
                assert(b =~= seq![b[0]] + b.drop_first());
            }
        } else {
            lemma_code_point_injective(a[0], b[0]);
        }
    } else if a.len() == 0 && b.len() == 0 {
        assert(a =~= b);
    }
}

pub proof fn lemma_text_less_asymmetric(a: Seq<char>, b: Seq<char>)
    requires
        text_less(a, b),
    ensures
        !text_less(b, a),
        a != b,
{
    lemma_text_less_irreflexive(a);
    if text_less(b, a) {
        lemma_text_less_transitive(a, b, a);
    }
}

/// The outcome of comparing two texts.
#[derive(Debug, Clone, PartialEq, Eq)]
pub enum TextOrder {
    Before,
    Same,
    After,
}

/// Compares two texts in `text_less` order.
pub fn compare_text(a: &Vec<char>, b: &Vec<char>) -> (o: TextOrder)
    ensures
        o is Before <==> text_less(a@, b@),
        o is Same <==> a@ == b@,
        o is After <==> text_less(b@, a@),
{
    proof {
        lemma_text_less_total(a@, b@);
        if text_less(a@, b@) {
            lemma_text_less_asymmetric(a@, b@);
        }
        if text_less(b@, a@) {
            lemma_text_less_asymmetric(b@, a@);
        }
    }
    let mut i: usize = 0;
    assert(a@.skip(0) =~= a@);
    assert(b@.skip(0) =~= b@);
    while i < a.len() && i < b.len()
        invariant
            i <= a@.len(),
            i <= b@.len(),
            a@.take(i as int) == b@.take(i as int),
            text_less(a@, b@) == text_less(a@.skip(i as int), b@.skip(i as int)),
            text_less(b@, a@) == text_less(b@.skip(i as int), a@.skip(i as int)),
        decreases a@.len() - i,
    {
        if a[i] != b[i] {
            proof {
                lemma_code_point_injective(a@[i as int], b@[i as int]);
            }
            if (a[i] as u32) < (b[i] as u32) {
                return TextOrder::Before;
            } else {
                return TextOrder::After;
            }
        }
        assert(a@.skip(i as int).drop_first() =~= a@.skip(i + 1));
        assert(b@.skip(i as int).drop_first() =~= b@.skip(i + 1));
        assert(a@.take(i + 1) =~= a@.take(i as int).push(a@[i as int]));
        assert(b@.take(i + 1) =~= b@.take(i as int).push(b@[i as int]));
        i = i + 1;
    }
    if i < b.len() {
        TextOrder::Before
    } else if i < a.len() {
        TextOrder::After
    } else {
        assert(a@ =~= a@.take(i as int));
        assert(b@ =~= b@.take(i as int));
        TextOrder::Same
    }
}

} // verus!

verus! {

pub proof fn lemma_mapped_index(s: Seq<char>, m: CharMap, c: char)
    requires
        mapped(s, m).contains(c),
    ensures
        exists|i: int| 0 <= i < s.len() && #[trigger] map_char(m, s[i]).contains(c),
    decreases s.len(),
{
    if s.len() > 0 {
        let r = mapped(s.drop_last(), m);
        let last = map_char(m, s.last());
        let k = choose|k: int| 0 <= k < (r + last).len() && (r + last)[k] == c;
        if k < r.len() {
            assert(r[k] == c);
            lemma_mapped_index(s.drop_last(), m, c);
            let i = choose|i: int| 0 <= i < s.drop_last().len() && #[trigger] map_char(m, s.drop_last()[i]).contains(c);
            assert(s[i] == s.drop_last()[i]);
        } else {
            assert(last[k - r.len()] == c);
            assert(map_char(m, s[s.len() - 1]).contains(c));
        }
    }
}

/// HTML-escaped text holds no `<`, `>` or `"`, so it cannot open a tag or end an attribute.
pub proof fn law_html_escaped_has_no_markup(s: Seq<char>)
    ensures
        !mapped(s, CharMap::Html).contains('<'),
        !mapped(s, CharMap::Html).contains('>'),
        !mapped(s, CharMap::Html).contains('"'),
{
    reveal_strlit("&amp;");
    reveal_strlit("&lt;");
    reveal_strlit("&gt;");
    reveal_strlit("&quot;");
    if mapped(s, CharMap::Html).contains('<') {
        lemma_mapped_index(s, CharMap::Html, '<');
    }
    if mapped(s, CharMap::Html).contains('>') {
        lemma_mapped_index(s, CharMap::Html, '>');
    }
    if mapped(s, CharMap::Html).contains('"') {
        lemma_mapped_index(s, CharMap::Html, '"');
    }
}

/// Text escaped for a JavaScript string holds no line break, so the one-line scripts stay one
/// line.
pub proof fn law_js_escaped_is_one_line(s: Seq<char>)
    ensures
        !mapped(s, CharMap::Js).contains('\n'),
        !mapped(s, CharMap::Js).contains('\r'),
{
    reveal_strlit("\\\\");
    reveal_strlit("\\'");
    reveal_strlit(" ");
    if mapped(s, CharMap::Js).contains('\n') {
        lemma_mapped_index(s, CharMap::Js, '\n');
    }
    if mapped(s, CharMap::Js).contains('\r') {
        lemma_mapped_index(s, CharMap::Js, '\r');
    }
}

} // verus!
