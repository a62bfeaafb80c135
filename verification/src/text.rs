//! Text operations on the messages that the thermostat reads and writes.
use vstd::prelude::*;

verus! {

// ---------------------------------------------------------------------------
// Models
// ---------------------------------------------------------------------------

/// `needle` stands somewhere in `hay`.
pub open spec fn occurs_in(needle: Seq<char>, hay: Seq<char>) -> bool {
    exists|at: int| occurs_at(needle, hay, at)
}

/// `needle` stands in `hay` from position `at` on.
pub open spec fn occurs_at(needle: Seq<char>, hay: Seq<char>, at: int) -> bool {
    &&& 0 <= at
    &&& at + needle.len() <= hay.len()
    &&& hay.subrange(at, at + needle.len()) == needle
}

/// The stretches of `s` between the occurrences of `sep`: one more than there
/// are occurrences.
pub open spec fn split_on(s: Seq<char>, sep: char) -> Seq<Seq<char>>
    decreases s.len(),
{
    if s.len() == 0 {
        seq![Seq::<char>::empty()]
    } else {
        let front = split_on(s.drop_last(), sep);
        if s.last() == sep {
            front.push(Seq::<char>::empty())
        } else {
            front.drop_last().push(front.last().push(s.last()))
        }
    }
}

/// `parts` one after the other, with `sep` between neighbours.
pub open spec fn join_with(parts: Seq<Seq<char>>, sep: char) -> Seq<char>
    decreases parts.len(),
{
    if parts.len() == 0 {
        Seq::empty()
    } else if parts.len() == 1 {
        parts[0]
    } else {
        join_with(parts.drop_last(), sep).push(sep) + parts.last()
    }
}

/// The Unicode property White_Space.
pub open spec fn white_space(c: char) -> bool {
    ||| '\u{9}' <= c <= '\u{d}'
    ||| c == ' '
    ||| c == '\u{85}'
    ||| c == '\u{a0}'
    ||| c == '\u{1680}'
    ||| '\u{2000}' <= c <= '\u{200a}'
    ||| c == '\u{2028}'
    ||| c == '\u{2029}'
    ||| c == '\u{202f}'
    ||| c == '\u{205f}'
    ||| c == '\u{3000}'
}

/// `s` without the white space that it begins with.
pub open spec fn without_leading(s: Seq<char>) -> Seq<char>
    decreases s.len(),
{
    if s.len() > 0 && white_space(s[0]) {
        without_leading(s.drop_first())
    } else {
        s
    }
}

/// `s` without the white space that it ends in.
pub open spec fn without_trailing(s: Seq<char>) -> Seq<char>
    decreases s.len(),
{
    if s.len() > 0 && white_space(s.last()) {
        without_trailing(s.drop_last())
    } else {
        s
    }
}

/// `s` without the white space at its two ends.
pub open spec fn trimmed(s: Seq<char>) -> Seq<char> {
    without_trailing(without_leading(s))
}

/// The decimal digit `d`.
pub open spec fn digit(d: nat) -> char {
    (d + '0' as nat) as char
}

/// The decimal notation of `n`, without leading zeros.
pub open spec fn decimal(n: nat) -> Seq<char>
    decreases n,
{
    if n < 10 {
        seq![digit(n)]
    } else {
        decimal(n / 10).push(digit(n % 10))
    }
}

/// `c`, or a double quote where `c` is a single quote.
pub open spec fn double_quoted(c: char) -> char {
    if c == '\'' {
        '"'
    } else {
        c
    }
}

/// `s` with a double quote in the place of each single quote.
pub open spec fn with_double_quotes(s: Seq<char>) -> Seq<char> {
    Seq::new(s.len(), |i: int| double_quoted(s[i]))
}

/// The texts that the character vectors of `parts` hold.
pub open spec fn texts(parts: Seq<Vec<char>>) -> Seq<Seq<char>> {
    Seq::new(parts.len(), |i: int| parts[i]@)
}

/// `c`, or its small letter where `c` is one of the capitals A to Z.
pub open spec fn ascii_small(c: char) -> char {
    if 'A' <= c <= 'Z' {
        (c as nat + 32) as char
    } else {
        c
    }
}

// ---------------------------------------------------------------------------
// What std computes
// ---------------------------------------------------------------------------

/// What `str::to_lowercase` makes of a text.
pub uninterp spec fn lowercase(s: Seq<char>) -> Seq<char>;

/// What `{:?}` prints for a text.
pub uninterp spec fn debug_form(s: Seq<char>) -> Seq<char>;

/// What the error that `String::from_utf8` returns for some bytes prints.
pub uninterp spec fn utf8_error_text(bytes: Seq<u8>) -> Seq<char>;

/// `String::push` puts one character behind the text.
pub assume_specification[ String::push ](s: &mut String, c: char)
    ensures
        final(s)@ == old(s)@.push(c),
;

/// Calls `str::to_lowercase`, which maps a text by the Unicode rules for small
/// letters. A text of ASCII characters comes back with A to Z made small and
/// all else unchanged; what becomes of other characters is left to the name.
#[verifier::external_body]
pub(crate) fn to_lowercase(s: &str) -> (lower: String)
    ensures
        lower@ == lowercase(s@),
        vstd::utf8::is_ascii_chars(s@) ==> lower@ == Seq::new(
            s@.len(),
            |i: int| ascii_small(s@[i]),
        ),
{
    s.to_lowercase()
}

/// Formats a text with `{:?}`: in double quotes, with escapes. How each
/// character is escaped is left to the name.
#[verifier::external_body]
pub(crate) fn debug_text(s: &str) -> (shown: String)
    ensures
        shown@ == debug_form(s@),
{
    format!("{:?}", s)
}

/// Calls `String::from_utf8`: the text that the bytes encode, or, where they
/// are no UTF-8, what the error prints.
#[verifier::external_body]
pub(crate) fn utf8_text(bytes: Vec<u8>) -> (text: Result<String, String>)
    ensures
        text is Ok <==> vstd::utf8::valid_utf8(bytes@),
        text matches Ok(t) ==> t@ == vstd::utf8::decode_utf8(bytes@),
        text matches Err(e) ==> e@ == utf8_error_text(bytes@),
{
    match String::from_utf8(bytes) {
        Ok(text) => Ok(text),
        Err(error) => Err(error.to_string()),
    }
}

// ---------------------------------------------------------------------------
// Operations
// ---------------------------------------------------------------------------

/// The characters of `s`, in order.
pub fn chars_of(s: &str) -> (chars: Vec<char>)
    ensures
        chars@ == s@,
{
    let mut chars: Vec<char> = Vec::new();
    for c in iter: s.chars()
        invariant
            iter.seq() == s@,
            chars@ == s@.take(iter.index() as int),
    {
        chars.push(c);
        assert(s@.take(iter.index() + 1) == s@.take(iter.index() as int).push(c));
    }
    assert(s@.take(s@.len() as int) == s@);
    chars
}

/// The two texts are the same.
pub fn same_text(a: &str, b: &str) -> (same: bool)
    ensures
        same == (a@ == b@),
{
    a.to_string() == b.to_string()
}

/// `chars` are the characters of `s`.
pub fn spells(chars: &Vec<char>, s: &str) -> (same: bool)
    ensures
        same == (chars@ == s@),
{
    let wanted = chars_of(s);
    if chars.len() != wanted.len() {
        return false;
    }
    for i in 0..wanted.len()
        invariant
            wanted@ == s@,
            chars.len() == wanted.len(),
            forall|j: int| 0 <= j < i ==> chars@[j] == wanted@[j],
    {
        if chars[i] != wanted[i] {
            assert(chars@[i as int] != s@[i as int]);
            return false;
        }
    }
    assert(chars@ =~= s@);
    true
}

/// `c` stands somewhere in `s`.
pub fn holds_char(s: &str, c: char) -> (found: bool)
    ensures
        found == s@.contains(c),
{
    let chars = chars_of(s);
    for i in 0..chars.len()
        invariant
            chars@ == s@,
            forall|j: int| 0 <= j < i ==> s@[j] != c,
    {
        if chars[i] == c {
            assert(s@[i as int] == c);
            return true;
        }
    }
    false
}

/// `needle` stands somewhere in `hay`.
pub fn contains(hay: &str, needle: &str) -> (found: bool)
    ensures
        found == occurs_in(needle@, hay@),
{
    let hay_chars = chars_of(hay);
    let needle_chars = chars_of(needle);
    if needle_chars.len() > hay_chars.len() {
        return false;
    }
    let last: usize = hay_chars.len() - needle_chars.len();
    let mut at: usize = 0;
    loop
        invariant
            hay_chars@ == hay@,
            needle_chars@ == needle@,
            last == hay_chars.len() - needle_chars.len(),
            at <= last,
            forall|a: int| 0 <= a < at ==> !occurs_at(needle@, hay@, a),
        decreases last - at,
    {
        if matches_at(&hay_chars, &needle_chars, at) {
            assert(occurs_at(needle@, hay@, at as int));
            return true;
        }
        if at == last {
            assert forall|a: int| !occurs_at(needle@, hay@, a) by {
                if 0 <= a <= last {
                    assert(a < at || a == at);
                }
            }
            return false;
        }
        at = at + 1;
    }
}

/// `needle` stands in `hay` from position `at` on.
fn matches_at(hay: &Vec<char>, needle: &Vec<char>, at: usize) -> (found: bool)
    requires
        at + needle.len() <= hay.len(),
    ensures
        found == occurs_at(needle@, hay@, at as int),
{
    for i in 0..needle.len()
        invariant
            at + needle.len() <= hay.len(),
            forall|j: int| 0 <= j < i ==> hay@[at + j] == needle@[j],
    {
        if hay[at + i] != needle[i] {
            assert(hay@.subrange(at as int, at + needle.len())[i as int] != needle@[i as int]);
            return false;
        }
    }
    assert(hay@.subrange(at as int, at + needle.len()) =~= needle@);
    true
}

/// What follows `prefix` in `s`, if `s` begins with it.
pub fn after_prefix(s: &str, prefix: &str) -> (rest: Option<String>)
    ensures
        match rest {
            Some(r) => occurs_at(prefix@, s@, 0) && r@ == s@.skip(prefix@.len() as int),
            None => !occurs_at(prefix@, s@, 0),
        },
{
    let chars = chars_of(s);
    let prefix_chars = chars_of(prefix);
    if prefix_chars.len() > chars.len() || !matches_at(&chars, &prefix_chars, 0) {
        return None;
    }
    assert(s@.subrange(prefix@.len() as int, s@.len() as int) =~= s@.skip(prefix@.len() as int));
    Some(s.substring_char(prefix_chars.len(), chars.len()).to_string())
}

/// The stretches of `s` between the occurrences of `sep`.
pub fn split(s: &str, sep: char) -> (parts: Vec<Vec<char>>)
    ensures
        texts(parts@) == split_on(s@, sep),
        parts.len() >= 1,
{
    let chars = chars_of(s);
    let mut parts: Vec<Vec<char>> = Vec::new();
    let mut current: Vec<char> = Vec::new();
    assert(s@.take(0) =~= Seq::<char>::empty());
    assert(texts(parts@).push(current@) =~= split_on(s@.take(0), sep));
    for i in 0..chars.len()
        invariant
            chars@ == s@,
            texts(parts@).push(current@) == split_on(s@.take(i as int), sep),
    {
        let c = chars[i];
        let ghost before = texts(parts@);
        let ghost stretch = current@;
        proof {
            let upto = s@.take(i + 1);
            assert(upto.drop_last() =~= s@.take(i as int));
            assert(upto.last() == c);
            assert(before.push(stretch).drop_last() =~= before);
        }
        if c == sep {
            parts.push(current);
            current = Vec::new();
            assert(texts(parts@) =~= before.push(stretch));
            assert(current@ =~= Seq::<char>::empty());
        } else {
            current.push(c);
        }
    }
    assert(s@.take(s@.len() as int) =~= s@);
    let ghost before = texts(parts@);
    let ghost stretch = current@;
    parts.push(current);
    assert(texts(parts@) =~= before.push(stretch));
    parts
}

/// `c` is white space.
pub fn is_white_space(c: char) -> (white: bool)
    ensures
        white == white_space(c),
{
    ('\u{9}' <= c && c <= '\u{d}') || c == ' ' || c == '\u{85}' || c == '\u{a0}' || c == '\u{1680}'
        || ('\u{2000}' <= c && c <= '\u{200a}') || c == '\u{2028}' || c == '\u{2029}'
        || c == '\u{202f}' || c == '\u{205f}' || c == '\u{3000}'
}

/// `s` without the white space at its two ends.
pub fn trim(s: &str) -> (inner: String)
    ensures
        inner@ == trimmed(s@),
{
    let chars = chars_of(s);
    let mut from: usize = 0;
    assert(s@.skip(0) =~= s@);
    while from < chars.len() && is_white_space(chars[from])
        invariant
            chars@ == s@,
            from <= chars.len(),
            without_leading(s@.skip(from as int)) == without_leading(s@),
        decreases chars.len() - from,
    {
        assert(s@.skip(from as int).drop_first() =~= s@.skip(from + 1));
        from = from + 1;
    }
    let ghost rest = s@.skip(from as int);
    assert(without_leading(s@) == rest);
    let mut to: usize = chars.len();
    assert(s@.subrange(from as int, to as int) =~= rest);
    while to > from && is_white_space(chars[to - 1])
        invariant
            chars@ == s@,
            from <= to <= chars.len(),
            without_trailing(s@.subrange(from as int, to as int)) == without_trailing(rest),
        decreases to - from,
    {
        assert(s@.subrange(from as int, to as int).drop_last() =~= s@.subrange(
            from as int,
            to - 1,
        ));
        to = to - 1;
    }
    s.substring_char(from, to).to_string()
}

/// `s` with a double quote in the place of each single quote.
pub fn to_double_quotes(s: &str) -> (quoted: String)
    ensures
        quoted@ == with_double_quotes(s@),
{
    let mut quoted = String::new();
    for c in iter: s.chars()
        invariant
            iter.seq() == s@,
            quoted@ == with_double_quotes(s@).take(iter.index() as int),
    {
        if c == '\'' {
            quoted.push('"');
        } else {
            quoted.push(c);
        }
        assert(with_double_quotes(s@).take(iter.index() + 1) =~= with_double_quotes(s@).take(
            iter.index() as int,
        ).push(double_quoted(c)));
    }
    assert(with_double_quotes(s@).take(s@.len() as int) =~= with_double_quotes(s@));
    quoted
}

/// The decimal notation of `n`.
pub fn decimal_text(n: u8) -> (text: String)
    ensures
        text@ == decimal(n as nat),
{
    let mut text = String::new();
    reveal_with_fuel(decimal, 3);
    if n >= 100 {
        text.push(digit_char(n / 100));
    }
    if n >= 10 {
        text.push(digit_char((n / 10) % 10));
    }
    text.push(digit_char(n % 10));
    assert(text@ =~= decimal(n as nat));
    text
}

/// The decimal digit `d`.
fn digit_char(d: u8) -> (c: char)
    requires
        d < 10,
    ensures
        c == digit(d as nat),
{
    (48 + d) as char
}

/// `parts` one after the other, with `sep` between neighbours.
pub fn join(parts: &Vec<String>, sep: char) -> (joined: String)
    ensures
        joined@ == join_with(Seq::new(parts@.len(), |i: int| parts@[i]@), sep),
{
    let ghost views = Seq::new(parts@.len(), |i: int| parts@[i]@);
    let mut joined = String::new();
    for i in 0..parts.len()
        invariant
            views == Seq::new(parts@.len(), |i: int| parts@[i]@),
            joined@ == join_with(views.take(i as int), sep),
    {
        assert(views.take(i + 1).drop_last() =~= views.take(i as int));
        if i > 0 {
            joined.push(sep);
        }
        joined.append(parts[i].as_str());
        assert(joined@ =~= join_with(views.take(i + 1), sep));
    }
    assert(views.take(parts@.len() as int) =~= views);
    joined
}

// ---------------------------------------------------------------------------
// Lemmas and laws
// ---------------------------------------------------------------------------

/// A split has at least one part.
pub proof fn lemma_split_not_empty(s: Seq<char>, sep: char)
    ensures
        split_on(s, sep).len() >= 1,
    decreases s.len(),
{
    if s.len() > 0 {
        lemma_split_not_empty(s.drop_last(), sep);
    }
}

/// A text without the separator is its own only part.
pub proof fn lemma_split_plain(s: Seq<char>, sep: char)
    requires
        !s.contains(sep),
    ensures
        split_on(s, sep) == seq![s],
    decreases s.len(),
{
    if s.len() == 0 {
        assert(s =~= Seq::<char>::empty());
    } else {
        let front = s.drop_last();
        assert forall|i: int| 0 <= i < front.len() implies front[i] != sep by {
            assert(s[i] == front[i]);
        }
        lemma_split_plain(front, sep);
        assert(s.contains(s.last())) by {
            assert(s[s.len() - 1] == s.last());
        }
        assert(front.push(s.last()) =~= s);
        assert(split_on(s, sep) =~= seq![s]);
    }
}

/// The parts of two texts with the separator between them are the parts of
/// the one followed by the parts of the other.
pub proof fn lemma_split_concat(a: Seq<char>, b: Seq<char>, sep: char)
    ensures
        split_on(a.push(sep) + b, sep) == split_on(a, sep) + split_on(b, sep),
    decreases b.len(),
{
    let whole = a.push(sep) + b;
    if b.len() == 0 {
        assert(whole =~= a.push(sep));
        assert(whole.drop_last() =~= a);
        assert(split_on(whole, sep) =~= split_on(a, sep) + split_on(b, sep));
    } else {
        let front = b.drop_last();
        lemma_split_concat(a, front, sep);
        lemma_split_not_empty(front, sep);
        assert(whole.drop_last() =~= a.push(sep) + front);
        assert(whole.last() == b.last());
        assert(split_on(whole, sep) =~= split_on(a, sep) + split_on(b, sep));
    }
}

/// Splitting undoes joining: parts that hold no separator come back as they
/// were.
pub proof fn lemma_split_join(parts: Seq<Seq<char>>, sep: char)
    requires
        parts.len() >= 1,
        forall|i: int| 0 <= i < parts.len() ==> !(#[trigger] parts[i]).contains(sep),
    ensures
        split_on(join_with(parts, sep), sep) == parts,
    decreases parts.len(),
{
    if parts.len() == 1 {
        lemma_split_plain(parts[0], sep);
        assert(seq![parts[0]] =~= parts);
    } else {
        let front = parts.drop_last();
        assert forall|i: int| 0 <= i < front.len() implies !(#[trigger] front[i]).contains(
            sep,
        ) by {
            assert(front[i] == parts[i]);
        }
        lemma_split_join(front, sep);
        lemma_split_plain(parts.last(), sep);
        lemma_split_concat(join_with(front, sep), parts.last(), sep);
        assert(front + seq![parts.last()] =~= parts);
    }
}

/// A decimal notation is made of digits.
pub proof fn lemma_decimal_digits(n: nat)
    ensures
        forall|i: int|
            0 <= i < decimal(n).len() ==> '0' <= #[trigger] decimal(n)[i] <= '9',
    decreases n,
{
    if n >= 10 {
        lemma_decimal_digits(n / 10);
    }
    assert forall|i: int| 0 <= i < decimal(n).len() implies '0' <= #[trigger] decimal(n)[i]
        <= '9' by {
        if n >= 10 && i < decimal(n / 10).len() {
            assert(decimal(n)[i] == decimal(n / 10)[i]);
        } else {
            assert(decimal(n)[i] == digit(n % 10));
        }
    }
}

/// A decimal notation has a digit at least, and two or more from ten on.
proof fn lemma_decimal_length(n: nat)
    ensures
        decimal(n).len() >= 1,
        n >= 10 ==> decimal(n).len() >= 2,
    decreases n,
{
    if n >= 10 {
        lemma_decimal_length(n / 10);
    }
}

/// A decimal notation is that of one number only.
pub proof fn law_decimal_tells_number(a: nat, b: nat)
    requires
        decimal(a) == decimal(b),
    ensures
        a == b,
    decreases a,
{
    lemma_decimal_length(a);
    lemma_decimal_length(b);
    assert(decimal(a).last() == digit(a % 10));
    assert(decimal(b).last() == digit(b % 10));
    assert(digit(a % 10) as nat == a % 10 + 48);
    assert(digit(b % 10) as nat == b % 10 + 48);
    if a >= 10 {
        assert(decimal(a).drop_last() =~= decimal(a / 10));
        assert(decimal(b).drop_last() =~= decimal(b / 10));
        law_decimal_tells_number(a / 10, b / 10);
    }
}

/// Mending the quotes keeps the length, puts a double quote where a single one
/// stood, leaves no single quote, keeps every other character in its place, and
/// is done once and for all.
pub proof fn law_double_quotes(s: Seq<char>)
    ensures
        with_double_quotes(s).len() == s.len(),
        !with_double_quotes(s).contains('\''),
        forall|i: int|
            0 <= i < s.len() && s[i] == '\'' ==> #[trigger] with_double_quotes(s)[i] == '"',
        forall|i: int|
            0 <= i < s.len() && s[i] != '\'' ==> #[trigger] with_double_quotes(s)[i] == s[i],
        with_double_quotes(with_double_quotes(s)) == with_double_quotes(s),
{
    assert(with_double_quotes(with_double_quotes(s)) =~= with_double_quotes(s));
}

/// What is left after trimming neither begins nor ends with white space.
pub proof fn law_trimmed_ends(s: Seq<char>)
    ensures
        trimmed(s).len() > 0 ==> !white_space(trimmed(s)[0]) && !white_space(trimmed(s).last()),
{
    lemma_without_leading(s);
    lemma_without_trailing(without_leading(s));
}

proof fn lemma_without_leading(s: Seq<char>)
    ensures
        without_leading(s).len() > 0 ==> !white_space(without_leading(s)[0]),
    decreases s.len(),
{
    if s.len() > 0 && white_space(s[0]) {
        lemma_without_leading(s.drop_first());
    }
}

proof fn lemma_without_trailing(s: Seq<char>)
    ensures
        without_trailing(s).len() > 0 ==> {
            &&& !white_space(without_trailing(s).last())
            &&& s.len() > 0
            &&& without_trailing(s)[0] == s[0]
        },
    decreases s.len(),
{
    if s.len() > 0 && white_space(s.last()) {
        lemma_without_trailing(s.drop_last());
    }
}

/// A text holds another exactly if it is that text with something before and
/// something behind it.
pub proof fn law_occurs(needle: Seq<char>, hay: Seq<char>)
    ensures
        occurs_in(needle, hay) <==> exists|a: Seq<char>, b: Seq<char>|
            hay == #[trigger] (a + needle + b),
{
    if occurs_in(needle, hay) {
        let at = choose|at: int| occurs_at(needle, hay, at);
        let a = hay.take(at);
        let b = hay.skip(at + needle.len());
        assert(hay =~= a + needle + b);
    }
    if exists|a: Seq<char>, b: Seq<char>| hay == #[trigger] (a + needle + b) {
        let (a, b) = choose|a: Seq<char>, b: Seq<char>| hay == #[trigger] (a + needle + b);
        assert(hay.subrange(a.len() as int, (a.len() + needle.len()) as int) =~= needle);
        assert(occurs_at(needle, hay, a.len() as int));
    }
}

/// A text begins with another exactly if it is that text with something behind
/// it.
pub proof fn law_begins(prefix: Seq<char>, s: Seq<char>)
    ensures
        occurs_at(prefix, s, 0) <==> exists|rest: Seq<char>| s == #[trigger] (prefix + rest),
{
    if occurs_at(prefix, s, 0) {
        assert(s =~= prefix + s.skip(prefix.len() as int));
    }
    if exists|rest: Seq<char>| s == #[trigger] (prefix + rest) {
        assert(s.subrange(0, prefix.len() as int) =~= prefix);
    }
}

/// The parts of a text hold no separator, and joined again they are the text.
pub proof fn law_split(s: Seq<char>, sep: char)
    ensures
        split_on(s, sep).len() >= 1,
        forall|i: int|
            0 <= i < split_on(s, sep).len() ==> !(#[trigger] split_on(s, sep)[i]).contains(sep),
        join_with(split_on(s, sep), sep) == s,
    decreases s.len(),
{
    let parts = split_on(s, sep);
    if s.len() == 0 {
        assert(parts[0] =~= s);
    } else {
        let front = split_on(s.drop_last(), sep);
        let c = s.last();
        law_split(s.drop_last(), sep);
        assert(s =~= s.drop_last().push(c));
        if c == sep {
            assert(parts.drop_last() =~= front);
            assert(join_with(parts, sep) =~= s);
        } else {
            let last = front.last().push(c);
            assert(!front[front.len() - 1].contains(sep));
            assert(!last.contains(sep)) by {
                if last.contains(sep) {
                    let i = choose|i: int| 0 <= i < last.len() && last[i] == sep;
                    assert(i < front.last().len());
                    assert(front.last()[i] == sep);
                }
            }
            assert(parts.drop_last() =~= front.drop_last());
            assert(join_with(parts, sep) =~= s);
            assert forall|i: int| 0 <= i < parts.len() implies !(#[trigger] parts[i]).contains(
                sep,
            ) by {
                if i < front.len() - 1 {
                    assert(parts[i] == front[i]);
                }
            }
        }
    }
}

/// Joining puts the separator between neighbours, and nothing else.
pub proof fn law_join(parts: Seq<Seq<char>>, part: Seq<char>, sep: char)
    ensures
        join_with(Seq::empty(), sep) == Seq::<char>::empty(),
        join_with(seq![part], sep) == part,
        parts.len() >= 1 ==> join_with(parts.push(part), sep) == join_with(parts, sep) + seq![sep]
            + part,
{
    assert(parts.push(part).drop_last() =~= parts);
    assert(join_with(parts, sep).push(sep) =~= join_with(parts, sep) + seq![sep]);
}

/// The notation of a number below ten is one digit; any other is the notation of
/// its tens with one digit behind it.
pub proof fn law_decimal(tens: nat, d: nat)
    requires
        d < 10,
    ensures
        decimal(d) == seq![(48 + d) as char],
        tens > 0 ==> decimal(10 * tens + d) == decimal(tens) + seq![(48 + d) as char],
{
    let n = 10 * tens + d;
    assert(n / 10 == tens && n % 10 == d);
    assert(decimal(tens).push(digit(d)) =~= decimal(tens) + seq![(48 + d) as char]);
}

/// White space are the tabulator and the four line ends after it, the blank,
/// and sixteen characters beyond ASCII.
pub proof fn law_white_space(c: char)
    ensures
        c as u32 <= 0x7f ==> (white_space(c) <==> 9 <= c as u32 <= 13 || c as u32 == 32),
        c as u32 > 0x7f ==> (white_space(c) <==> {
            ||| c as u32 == 0x85 || c as u32 == 0xa0 || c as u32 == 0x1680
            ||| 0x2000 <= c as u32 <= 0x200a
            ||| c as u32 == 0x2028 || c as u32 == 0x2029 || c as u32 == 0x202f
            ||| c as u32 == 0x205f || c as u32 == 0x3000
        }),
{
}

/// All characters of `s` are white space.
pub open spec fn blank(s: Seq<char>) -> bool {
    forall|i: int| 0 <= i < s.len() ==> white_space(#[trigger] s[i])
}

/// Trimming takes off white space alone.
pub proof fn law_trimmed(s: Seq<char>) -> (ends: (Seq<char>, Seq<char>))
    ensures
        s == ends.0 + trimmed(s) + ends.1,
        blank(ends.0),
        blank(ends.1),
{
    let a = lemma_leading(s);
    let b = lemma_trailing(without_leading(s));
    assert(s =~= a + trimmed(s) + b);
    (a, b)
}

proof fn lemma_leading(s: Seq<char>) -> (a: Seq<char>)
    ensures
        s == a + without_leading(s),
        blank(a),
    decreases s.len(),
{
    if s.len() > 0 && white_space(s[0]) {
        let rest = lemma_leading(s.drop_first());
        let a = seq![s[0]] + rest;
        assert(s =~= seq![s[0]] + s.drop_first());
        assert(s =~= a + without_leading(s));
        a
    } else {
        assert(s =~= Seq::<char>::empty() + s);
        Seq::empty()
    }
}

proof fn lemma_trailing(s: Seq<char>) -> (b: Seq<char>)
    ensures
        s == without_trailing(s) + b,
        blank(b),
    decreases s.len(),
{
    if s.len() > 0 && white_space(s.last()) {
        let rest = lemma_trailing(s.drop_last());
        let b = rest + seq![s.last()];
        assert(s =~= s.drop_last() + seq![s.last()]);
        assert(s =~= without_trailing(s) + b);
        b
    } else {
        assert(s =~= s + Seq::<char>::empty());
        Seq::empty()
    }
}

/// A text whose characters are no white space stands in a trimmed text exactly
/// if it stood in the text before.
pub proof fn law_trimmed_holds(needle: Seq<char>, s: Seq<char>)
    requires
        needle.len() > 0,
        forall|i: int| 0 <= i < needle.len() ==> !white_space(#[trigger] needle[i]),
    ensures
        occurs_in(needle, trimmed(s)) <==> occurs_in(needle, s),
{
    let (a, b) = law_trimmed(s);
    let inner = trimmed(s);
    if occurs_in(needle, inner) {
        let at = choose|at: int| occurs_at(needle, inner, at);
        let there = a.len() + at;
        assert(s.subrange(there, there + needle.len()) =~= inner.subrange(
            at,
            at + needle.len(),
        ));
        assert(occurs_at(needle, s, there));
    }
    if occurs_in(needle, s) {
        let at = choose|at: int| occurs_at(needle, s, at);
        let found = s.subrange(at, at + needle.len());
        assert(found[0] == needle[0] && found[0] == s[at]);
        assert(found[needle.len() - 1] == needle[needle.len() - 1]);
        assert(found[needle.len() - 1] == s[at + needle.len() - 1]);
        if at < a.len() {
            assert(s[at] == a[at]);
        }
        let end = at + needle.len() - 1;
        if end >= a.len() + inner.len() {
            assert(s[end] == b[end - a.len() - inner.len()]);
        }
        let there = at - a.len();
        assert(inner.subrange(there, there + needle.len()) =~= found);
        assert(occurs_at(needle, inner, there));
    }
}

} // verus!
