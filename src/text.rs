use vstd::prelude::*;

verus! {

/// Longest text, in bytes, that a message may have.
pub const MAX_TEXT_BYTES: usize = 1000;

/// Unicode white space, as `char::is_whitespace` defines it.
pub open spec fn is_space(c: char) -> bool {
    let v = c as u32;
    (0x09 <= v <= 0x0d) || v == 0x20 || v == 0x85 || v == 0xa0 || v == 0x1680 || (0x2000 <= v
        <= 0x200a) || v == 0x2028 || v == 0x2029 || v == 0x202f || v == 0x205f || v == 0x3000
}

/// Whether `char::is_alphanumeric` holds of a character (Unicode letters and
/// numbers).
pub uninterp spec fn alphanumeric_of(c: char) -> bool;

/// The result of `str::to_lowercase` on a text.
pub uninterp spec fn lower_of(s: Seq<char>) -> Seq<char>;

/// Relies on char::is_whitespace, the Unicode White_Space property.
#[verifier::external_body]
pub(crate) fn is_whitespace(c: char) -> (r: bool)
    ensures
        r == is_space(c),
{
    c.is_whitespace()
}

/// Relies on char::is_alphanumeric: depends on the character alone.
#[verifier::external_body]
fn is_alphanumeric(c: char) -> (r: bool)
    ensures
        r == alphanumeric_of(c),
{
    c.is_alphanumeric()
}

/// Relies on str::to_lowercase: the result depends on the characters alone.
#[verifier::external_body]
pub(crate) fn lowercase(s: &str) -> (r: String)
    ensures
        r@ == lower_of(s@),
{
    s.to_lowercase()
}

/// Relies on String::push: appends one character.
#[verifier::external_body]
pub(crate) fn push_char(s: &mut String, c: char)
    ensures
        final(s)@ == old(s)@.push(c),
{
    s.push(c)
}

/// The text without its leading white space.
pub open spec fn trim_start(s: Seq<char>) -> Seq<char>
    decreases s.len(),
{
    if s.len() > 0 && is_space(s[0]) {
        trim_start(s.drop_first())
    } else {
        s
    }
}

/// The text without its trailing white space.
pub open spec fn trim_end(s: Seq<char>) -> Seq<char>
    decreases s.len(),
{
    if s.len() > 0 && is_space(s.last()) {
        trim_end(s.drop_last())
    } else {
        s
    }
}

/// The text without white space at either end.
pub open spec fn trimmed(s: Seq<char>) -> Seq<char> {
    trim_end(trim_start(s))
}

/// The characters of a string, in order.
pub(crate) fn chars_of(s: &str) -> (r: Vec<char>)
    ensures
        r@ == s@,
{
    let n = s.unicode_len();
    let mut out: Vec<char> = Vec::with_capacity(n);
    let mut i: usize = 0;
    while i < n
        invariant
            n == s@.len(),
            i <= n,
            out@ == s@.subrange(0, i as int),
        decreases n - i,
    {
        out.push(s.get_char(i));
        i = i + 1;
        assert(out@ =~= s@.subrange(0, i as int));
    }
    assert(out@ =~= s@);
    out
}

/// The bounds of the text that is left once white space is cut from both ends.
fn trim_bounds(v: &Vec<char>) -> (r: (usize, usize))
    ensures
        r.0 <= r.1 <= v@.len(),
        v@.subrange(r.0 as int, r.1 as int) == trimmed(v@),
{
    let n = v.len();
    let mut a: usize = 0;
    assert(v@.subrange(0, n as int) =~= v@);
    while a < n && is_whitespace(v[a])
        invariant
            a <= n,
            n == v@.len(),
            trim_start(v@) == trim_start(v@.subrange(a as int, n as int)),
        decreases n - a,
    {
        assert(v@.subrange(a as int, n as int).drop_first() =~= v@.subrange(a + 1, n as int));
        a = a + 1;
    }
    let ghost start = v@.subrange(a as int, n as int);
    assert(trim_start(start) == start);
    let mut b: usize = n;
    while b > a && is_whitespace(v[b - 1])
        invariant
            a <= b <= n,
            n == v@.len(),
            start == v@.subrange(a as int, n as int),
            trim_end(start) == trim_end(v@.subrange(a as int, b as int)),
        decreases b - a,
    {
        assert(v@.subrange(a as int, b as int).drop_last() =~= v@.subrange(a as int, b - 1));
        b = b - 1;
    }
    (a, b)
}

/// The characters `v[from..to]` as a string.
fn string_of(v: &Vec<char>, from: usize, to: usize) -> (r: String)
    requires
        from <= to <= v@.len(),
    ensures
        r@ == v@.subrange(from as int, to as int),
{
    let mut out = String::new();
    let mut i: usize = from;
    while i < to
        invariant
            from <= i <= to,
            to <= v@.len(),
            out@ == v@.subrange(from as int, i as int),
        decreases to - i,
    {
        push_char(&mut out, v[i]);
        i = i + 1;
        assert(out@ =~= v@.subrange(from as int, i as int));
    }
    out
}

/// Whether a text is a valid message: something besides white space, and at
/// most a thousand bytes.
pub open spec fn valid_text(s: &str) -> bool {
    trimmed(s@).len() > 0 && s.len() <= MAX_TEXT_BYTES
}

/// Checks that a message is not blank and not too long.
pub fn validate_text(text: &str) -> (r: bool)
    ensures
        r == valid_text(text),
{
    let chars = chars_of(text);
    let (a, b) = trim_bounds(&chars);
    a < b && text.len() <= MAX_TEXT_BYTES
}

/// Punctuation that survives sanitising.
pub open spec fn is_kept_punctuation(c: char) -> bool {
    c == '.' || c == ',' || c == '!' || c == '?' || c == ';' || c == ':' || c == '-' || c == '_'
}

/// Whether sanitising keeps a character.
pub open spec fn is_kept(c: char) -> bool {
    alphanumeric_of(c) || is_space(c) || is_kept_punctuation(c)
}

/// The text with every character dropped that is neither alphanumeric, white
/// space nor kept punctuation, then trimmed.
pub open spec fn sanitized(s: Seq<char>) -> Seq<char> {
    trimmed(kept_chars(s))
}

/// The characters that sanitising keeps, in order.
pub open spec fn kept_chars(s: Seq<char>) -> Seq<char> {
    s.filter(|c: char| is_kept(c))
}

/// The characters that sanitising keeps, each character's alphanumeric
/// property given by the flag at the same position.
pub open spec fn kept_with(s: Seq<char>, alnum: Seq<bool>) -> Seq<char>
    decreases s.len(),
{
    if s.len() == 0 || alnum.len() != s.len() {
        Seq::empty()
    } else {
        let rest = kept_with(s.drop_last(), alnum.drop_last());
        let c = s.last();
        if alnum.last() || is_space(c) || is_kept_punctuation(c) {
            rest.push(c)
        } else {
            rest
        }
    }
}

/// With the true alphanumeric flags, the flagged filter is the filter.
proof fn lemma_kept_with_flags(s: Seq<char>)
    ensures
        kept_with(s, s.map_values(|c: char| alphanumeric_of(c))) == kept_chars(s),
    decreases s.len(),
{
    reveal_with_fuel(Seq::filter, 1);
    if s.len() > 0 {
        let flags = s.map_values(|c: char| alphanumeric_of(c));
        assert(flags.drop_last() =~= s.drop_last().map_values(|c: char| alphanumeric_of(c)));
        lemma_kept_with_flags(s.drop_last());
    } else {
        assert(kept_chars(s) =~= Seq::<char>::empty());
    }
}

/// Sanitises a text whose characters' alphanumeric property is already
/// known, one flag per character: drops every character that is neither
/// flagged, white space nor kept punctuation, then trims.
pub fn sanitize_classified(text: &str, alnum: &Vec<bool>) -> (r: String)
    requires
        alnum@.len() == text@.len(),
    ensures
        r@ == trimmed(kept_with(text@, alnum@)),
{
    let chars = chars_of(text);
    let ghost s = chars@;
    let mut kept: Vec<char> = Vec::new();
    let mut i: usize = 0;
    assert(kept@ =~= kept_with(s.subrange(0, 0), alnum@.subrange(0, 0)));
    while i < chars.len()
        invariant
            i <= chars@.len(),
            s == chars@,
            s == text@,
            alnum@.len() == s.len(),
            kept@ == kept_with(s.subrange(0, i as int), alnum@.subrange(0, i as int)),
        decreases chars@.len() - i,
    {
        let c = chars[i];
        let keep = alnum[i] || is_whitespace(c) || c == '.' || c == ',' || c == '!' || c == '?'
            || c == ';' || c == ':' || c == '-' || c == '_';
        assert(s.subrange(0, i + 1).drop_last() =~= s.subrange(0, i as int));
        assert(alnum@.subrange(0, i + 1).drop_last() =~= alnum@.subrange(0, i as int));
        if keep {
            kept.push(c);
        }
        i = i + 1;
    }
    assert(s.subrange(0, s.len() as int) =~= s);
    assert(alnum@.subrange(0, s.len() as int) =~= alnum@);
    let (a, b) = trim_bounds(&kept);
    string_of(&kept, a, b)
}

/// Removes unexpected characters from a text and trims it.
pub fn sanitize_text(text: &str) -> (r: String)
    ensures
        r@ == sanitized(text@),
{
    let chars = chars_of(text);
    let mut flags: Vec<bool> = Vec::new();
    let mut i: usize = 0;
    while i < chars.len()
        invariant
            i <= chars@.len(),
            chars@ == text@,
            flags@ == chars@.subrange(0, i as int).map_values(|c: char| alphanumeric_of(c)),
        decreases chars@.len() - i,
    {
        flags.push(is_alphanumeric(chars[i]));
        i = i + 1;
        assert(flags@ =~= chars@.subrange(0, i as int).map_values(|c: char| alphanumeric_of(c)));
    }
    assert(chars@.subrange(0, chars@.len() as int) =~= chars@);
    proof {
        lemma_kept_with_flags(text@);
    }
    sanitize_classified(text, &flags)
}

/// The decimal digits of a number, most significant first.
pub open spec fn decimal(n: nat) -> Seq<char>
    decreases n,
{
    if n < 10 {
        seq![digit_char(n)]
    } else {
        decimal(n / 10).push(digit_char(n % 10))
    }
}

/// The character of a decimal digit.
pub open spec fn digit_char(d: nat) -> char {
    if d == 0 {
        '0'
    } else if d == 1 {
        '1'
    } else if d == 2 {
        '2'
    } else if d == 3 {
        '3'
    } else if d == 4 {
        '4'
    } else if d == 5 {
        '5'
    } else if d == 6 {
        '6'
    } else if d == 7 {
        '7'
    } else if d == 8 {
        '8'
    } else {
        '9'
    }
}

/// The character of a decimal digit.
fn digit(d: u64) -> (r: char)
    requires
        d < 10,
    ensures
        r == digit_char(d as nat),
{
    if d == 0 {
        '0'
    } else if d == 1 {
        '1'
    } else if d == 2 {
        '2'
    } else if d == 3 {
        '3'
    } else if d == 4 {
        '4'
    } else if d == 5 {
        '5'
    } else if d == 6 {
        '6'
    } else if d == 7 {
        '7'
    } else if d == 8 {
        '8'
    } else {
        '9'
    }
}

/// Appends the decimal digits of `n`.
pub(crate) fn push_decimal(out: &mut String, n: u64)
    ensures
        final(out)@ == old(out)@ + decimal(n as nat),
    decreases n,
{
    if n < 10 {
        push_char(out, digit(n));
        assert(old(out)@.push(digit_char(n as nat)) =~= old(out)@ + decimal(n as nat));
    } else {
        push_decimal(out, n / 10);
        push_char(out, digit(n % 10));
        assert((old(out)@ + decimal((n / 10) as nat)).push(digit_char((n % 10) as nat))
            =~= old(out)@ + decimal(n as nat));
    }
}

/// A duration given in milliseconds, written in whole hours, minutes and
/// seconds, leaving out leading units that are zero.
pub open spec fn duration_text(milliseconds: nat) -> Seq<char> {
    let seconds = milliseconds / 1000;
    let minutes = seconds / 60;
    let hours = minutes / 60;
    if hours > 0 {
        decimal(hours) + "ч "@ + decimal(minutes % 60) + "м "@ + decimal(seconds % 60) + "с"@
    } else if minutes > 0 {
        decimal(minutes) + "м "@ + decimal(seconds % 60) + "с"@
    } else {
        decimal(seconds) + "с"@
    }
}

/// Formats a duration given in milliseconds, such as `1ч 1м 5с`.
pub fn format_duration(milliseconds: u64) -> (r: String)
    ensures
        r@ == duration_text(milliseconds as nat),
{
    let seconds = milliseconds / 1000;
    let minutes = seconds / 60;
    let hours = minutes / 60;
    let mut out = String::new();
    if hours > 0 {
        push_decimal(&mut out, hours);
        out.append("ч ");
        push_decimal(&mut out, minutes % 60);
        out.append("м ");
        push_decimal(&mut out, seconds % 60);
        out.append("с");
    } else if minutes > 0 {
        push_decimal(&mut out, minutes);
        out.append("м ");
        push_decimal(&mut out, seconds % 60);
        out.append("с");
    } else {
        push_decimal(&mut out, seconds);
        out.append("с");
    }
    assert(out@ =~= duration_text(milliseconds as nat));
    out
}

/// Whether `needle` occurs in `haystack` as a run of consecutive characters.
pub open spec fn occurs_in(haystack: Seq<char>, needle: Seq<char>) -> bool {
    exists|i: int|
        0 <= i && i + needle.len() <= haystack.len() && #[trigger] haystack.subrange(
            i,
            i + needle.len(),
        ) == needle
}

/// Whether `needle` occurs at position `at` of `haystack`.
fn occurs_at(haystack: &Vec<char>, needle: &Vec<char>, at: usize) -> (r: bool)
    requires
        at + needle@.len() <= haystack@.len(),
    ensures
        r == (haystack@.subrange(at as int, at + needle@.len()) == needle@),
{
    let hl = haystack.len();
    let mut j: usize = 0;
    while j < needle.len()
        invariant
            hl == haystack@.len(),
            j <= needle@.len(),
            at + needle@.len() <= haystack@.len(),
            forall|k: int| 0 <= k < j ==> haystack@[at + k] == needle@[k],
        decreases needle@.len() - j,
    {
        if haystack[at + j] != needle[j] {
            assert(haystack@.subrange(at as int, at + needle@.len())[j as int] != needle@[j as int]);
            return false;
        }
        j = j + 1;
    }
    assert(haystack@.subrange(at as int, at + needle@.len()) =~= needle@);
    true
}

/// Whether `needle` occurs in `haystack`; an empty needle occurs everywhere.
pub fn contains_text(haystack: &str, needle: &str) -> (r: bool)
    ensures
        r == occurs_in(haystack@, needle@),
{
    let h = chars_of(haystack);
    let n = chars_of(needle);
    if n.len() > h.len() {
        return false;
    }
    let last = h.len() - n.len();
    let mut i: usize = 0;
    loop
        invariant
            i <= last,
            last == h@.len() - n@.len(),
            n@.len() <= h@.len(),
            h@ == haystack@,
            n@ == needle@,
            forall|k: int| 0 <= k < i ==> #[trigger] h@.subrange(k, k + n@.len()) != n@,
        decreases last - i,
    {
        if occurs_at(&h, &n, i) {
            return true;
        }
        if i == last {
            return false;
        }
        i = i + 1;
    }
}

/// Lexicographic order of texts, character by character, a proper prefix
/// coming first; this is the byte order of their UTF-8 encodings.
pub open spec fn text_less(a: Seq<char>, b: Seq<char>) -> bool
    decreases a.len(),
{
    if a.len() == 0 {
        b.len() > 0
    } else if b.len() == 0 {
        false
    } else if a[0] != b[0] {
        (a[0] as u32) < (b[0] as u32)
    } else {
        text_less(a.drop_first(), b.drop_first())
    }
}

/// Whether `a` sorts before `b`.
pub fn is_text_less(a: &str, b: &str) -> (r: bool)
    ensures
        r == text_less(a@, b@),
{
    let x = chars_of(a);
    let y = chars_of(b);
    let mut i: usize = 0;
    assert(x@.subrange(0, x@.len() as int) =~= x@);
    assert(y@.subrange(0, y@.len() as int) =~= y@);
    while i < x.len() && i < y.len() && x[i] == y[i]
        invariant
            i <= x@.len(),
            i <= y@.len(),
            x@ == a@,
            y@ == b@,
            text_less(a@, b@) == text_less(x@.subrange(i as int, x@.len() as int), y@.subrange(
                i as int,
                y@.len() as int,
            )),
        decreases x@.len() - i,
    {
        assert(x@.subrange(i as int, x@.len() as int).drop_first() =~= x@.subrange(
            i + 1,
            x@.len() as int,
        ));
        assert(y@.subrange(i as int, y@.len() as int).drop_first() =~= y@.subrange(
            i + 1,
            y@.len() as int,
        ));
        i = i + 1;
    }
    if i == x.len() {
        i < y.len()
    } else if i == y.len() {
        false
    } else {
        (x[i] as u32) < (y[i] as u32)
    }
}

/// Text order is transitive.
pub proof fn lemma_text_less_transitive(a: Seq<char>, b: Seq<char>, c: Seq<char>)
    requires
        text_less(a, b),
        text_less(b, c),
    ensures
        text_less(a, c),
    decreases a.len(),
{
    if a.len() > 0 && b.len() > 0 && c.len() > 0 && a[0] == b[0] && b[0] == c[0] {
        lemma_text_less_transitive(a.drop_first(), b.drop_first(), c.drop_first());
    }
}

/// Text order is irreflexive and asymmetric.
pub proof fn lemma_text_less_asymmetric(a: Seq<char>, b: Seq<char>)
    ensures
        !(text_less(a, b) && text_less(b, a)),
    decreases a.len(),
{
    if a.len() > 0 && b.len() > 0 && a[0] == b[0] {
        lemma_text_less_asymmetric(a.drop_first(), b.drop_first());
    }
}

} // verus!
