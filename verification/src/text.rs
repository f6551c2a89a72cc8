use vstd::prelude::*;
use vstd::string::StringExecFns;

verus! {

/// The characters of an optional text.
pub open spec fn text_of(s: Option<String>) -> Option<Seq<char>> {
    match s {
        Some(t) => Some(t@),
        None => None,
    }
}

/// An optional text, with the empty text in place of none.
pub open spec fn text_or_empty(s: Option<Seq<char>>) -> Seq<char> {
    match s {
        Some(t) => t,
        None => Seq::empty(),
    }
}

/// The ASCII lower-case form of one character: `'A'..='Z'` move to
/// `'a'..='z'`, every other character stays as it is.
pub open spec fn ascii_lower_char(c: char) -> char {
    if 'A' <= c && c <= 'Z' {
        ((c as u32) + 32) as char
    } else {
        c
    }
}

/// The ASCII lower-case form of a text, character by character.
pub open spec fn ascii_lower(s: Seq<char>) -> Seq<char> {
    Seq::new(s.len(), |i: int| ascii_lower_char(s[i]))
}

/// `needle` occurs in `hay` at position `at`.
pub open spec fn occurs_at(hay: Seq<char>, needle: Seq<char>, at: int) -> bool {
    0 <= at && at + needle.len() <= hay.len() && hay.subrange(at, at + needle.len()) == needle
}

/// `needle` occurs somewhere in `hay` as a contiguous run of characters.
/// The empty text occurs in every text.
pub open spec fn has_substring(hay: Seq<char>, needle: Seq<char>) -> bool {
    exists|at: int| occurs_at(hay, needle, at)
}

/// `needle` occurs in `hay` when letter case is ignored for ASCII letters.
pub open spec fn has_substring_ignoring_case(hay: Seq<char>, needle: Seq<char>) -> bool {
    has_substring(ascii_lower(hay), ascii_lower(needle))
}

/// The index of the first pattern, counted from `from`, that occurs in `hay`.
pub open spec fn first_hit_from(hay: Seq<char>, patterns: Seq<Seq<char>>, from: int) -> Option<int>
    decreases patterns.len() - from,
{
    if from < 0 || from >= patterns.len() {
        None
    } else if has_substring(hay, patterns[from]) {
        Some(from)
    } else {
        first_hit_from(hay, patterns, from + 1)
    }
}

/// The index of the first pattern of the list that occurs in `hay`.
pub open spec fn first_hit(hay: Seq<char>, patterns: Seq<Seq<char>>) -> Option<int> {
    first_hit_from(hay, patterns, 0)
}

/// `first_hit_from` names the least index at or after `from` whose pattern
/// occurs, and `None` exactly when no pattern from there on occurs.
pub proof fn lemma_first_hit_from(hay: Seq<char>, patterns: Seq<Seq<char>>, from: int)
    requires
        0 <= from,
    ensures
        match first_hit_from(hay, patterns, from) {
            Some(k) => from <= k < patterns.len() && has_substring(hay, patterns[k])
                && forall|j: int| from <= j < k ==> !has_substring(hay, #[trigger] patterns[j]),
            None => forall|j: int|
                from <= j < patterns.len() ==> !has_substring(hay, #[trigger] patterns[j]),
        },
    decreases patterns.len() - from,
{
    if from < patterns.len() && !has_substring(hay, patterns[from]) {
        lemma_first_hit_from(hay, patterns, from + 1);
    }
}

/// The index of the first part, counted from `from`, that does not occur in
/// `hay`.
pub open spec fn first_miss_from(hay: Seq<char>, parts: Seq<Seq<char>>, from: int) -> Option<int>
    decreases parts.len() - from,
{
    if from < 0 || from >= parts.len() {
        None
    } else if !has_substring(hay, parts[from]) {
        Some(from)
    } else {
        first_miss_from(hay, parts, from + 1)
    }
}

/// The index of the first part of the list that does not occur in `hay`.
pub open spec fn first_miss(hay: Seq<char>, parts: Seq<Seq<char>>) -> Option<int> {
    first_miss_from(hay, parts, 0)
}

/// `first_miss_from` names the least index at or after `from` whose part
/// does not occur, and `None` exactly when every part from there on occurs.
pub proof fn lemma_first_miss_from(hay: Seq<char>, parts: Seq<Seq<char>>, from: int)
    requires
        0 <= from,
    ensures
        match first_miss_from(hay, parts, from) {
            Some(k) => from <= k < parts.len() && !has_substring(hay, parts[k])
                && forall|j: int| from <= j < k ==> has_substring(hay, #[trigger] parts[j]),
            None => forall|j: int|
                from <= j < parts.len() ==> has_substring(hay, #[trigger] parts[j]),
        },
    decreases parts.len() - from,
{
    if from < parts.len() && has_substring(hay, parts[from]) {
        lemma_first_miss_from(hay, parts, from + 1);
    }
}

/// Whether `a` stands before `b`, or is `b`, in the order of texts: the
/// first character in which they differ decides, by its code point, and a
/// text stands before every text that it begins.
pub open spec fn text_le(a: Seq<char>, b: Seq<char>) -> bool
    decreases a.len(),
{
    if a.len() == 0 {
        true
    } else if b.len() == 0 {
        false
    } else if a[0] != b[0] {
        a[0] < b[0]
    } else {
        text_le(a.drop_first(), b.drop_first())
    }
}

/// Of two texts, one stands before the other or is the other.
pub proof fn lemma_text_le_total(a: Seq<char>, b: Seq<char>)
    ensures
        text_le(a, b) || text_le(b, a),
    decreases a.len(),
{
    if a.len() > 0 && b.len() > 0 {
        if a[0] == b[0] {
            lemma_text_le_total(a.drop_first(), b.drop_first());
        }
    }
}

/// The order of texts is transitive.
pub proof fn lemma_text_le_transitive(a: Seq<char>, b: Seq<char>, c: Seq<char>)
    requires
        text_le(a, b),
        text_le(b, c),
    ensures
        text_le(a, c),
    decreases a.len(),
{
    if a.len() > 0 && b.len() > 0 && c.len() > 0 && a[0] == b[0] && b[0] == c[0] {
        lemma_text_le_transitive(a.drop_first(), b.drop_first(), c.drop_first());
    }
}

/// Lower-casing goes through concatenation.
pub proof fn lemma_ascii_lower_concat(a: Seq<char>, b: Seq<char>)
    ensures
        ascii_lower(a + b) == ascii_lower(a) + ascii_lower(b),
{
    assert(ascii_lower(a + b) =~= ascii_lower(a) + ascii_lower(b));
}

/// A text that holds `a + b` holds `a` and holds `b`.
pub proof fn lemma_substring_parts(hay: Seq<char>, a: Seq<char>, b: Seq<char>)
    requires
        has_substring(hay, a + b),
    ensures
        has_substring(hay, a),
        has_substring(hay, b),
{
    let at = choose|at: int| occurs_at(hay, a + b, at);
    let whole = a + b;
    assert(hay.subrange(at, at + a.len()) =~= whole.subrange(0, a.len() as int));
    assert(whole.subrange(0, a.len() as int) =~= a);
    assert(occurs_at(hay, a, at));
    assert(hay.subrange(at + a.len(), at + a.len() + b.len()) =~= whole.subrange(
        a.len() as int,
        whole.len() as int,
    ));
    assert(whole.subrange(a.len() as int, whole.len() as int) =~= b);
    assert(occurs_at(hay, b, at + a.len()));
}

/// The empty text occurs in every text.
pub proof fn lemma_empty_substring(hay: Seq<char>)
    ensures
        has_substring(hay, Seq::<char>::empty()),
{
    assert(hay.subrange(0, 0) =~= Seq::<char>::empty());
    assert(occurs_at(hay, Seq::<char>::empty(), 0));
}

/// `str::to_ascii_lowercase`: the result has the characters of `s`, each
/// mapped to its ASCII lower-case form.
#[verifier::external_body]
pub(crate) fn to_ascii_lowercase(s: &str) -> (r: String)
    ensures
        r@ == ascii_lower(s@),
{
    s.to_ascii_lowercase()
}

/// `str::contains` with a string pattern: whether `needle` matches a
/// sub-slice of `hay`.
#[verifier::external_body]
pub(crate) fn contains(hay: &str, needle: &str) -> (r: bool)
    ensures
        r == has_substring(hay@, needle@),
{
    hay.contains(needle)
}

/// `==` on string slices: whether the two hold the same characters.
#[verifier::external_body]
pub(crate) fn same_text(a: &str, b: &str) -> (r: bool)
    ensures
        r == (a@ == b@),
{
    a == b
}

/// `<=` on string slices: whether `a` stands before `b`, or is `b`, in the
/// order of texts, which goes by the code points of their characters.
#[verifier::external_body]
pub(crate) fn text_at_most(a: &str, b: &str) -> (r: bool)
    ensures
        r == text_le(a@, b@),
{
    a <= b
}

/// The character of a decimal digit.
pub open spec fn digit_char(d: nat) -> char {
    if d == 0 {
        '0'
    } else if d == 1 {
        '1'
    } else if d == 2 {
        '2'
    } else if d == 3 {
        '3'
    } else if d == 4 {
        '4'
    } else if d == 5 {
        '5'
    } else if d == 6 {
        '6'
    } else if d == 7 {
        '7'
    } else if d == 8 {
        '8'
    } else {
        '9'
    }
}

/// A number written in decimal digits, without sign or leading zeros.
pub open spec fn decimal(n: nat) -> Seq<char>
    decreases n,
{
    if n < 10 {
        seq![digit_char(n)]
    } else {
        decimal(n / 10).push(digit_char(n % 10))
    }
}

fn digit_text(d: u64) -> (r: &'static str)
    requires
        d < 10,
    ensures
        r@ == seq![digit_char(d as nat)],
{
    proof {
        reveal_strlit("0");
        reveal_strlit("1");
        reveal_strlit("2");
        reveal_strlit("3");
        reveal_strlit("4");
        reveal_strlit("5");
        reveal_strlit("6");
        reveal_strlit("7");
        reveal_strlit("8");
        reveal_strlit("9");
    }
    let r = if d == 0 {
        "0"
    } else if d == 1 {
        "1"
    } else if d == 2 {
        "2"
    } else if d == 3 {
        "3"
    } else if d == 4 {
        "4"
    } else if d == 5 {
        "5"
    } else if d == 6 {
        "6"
    } else if d == 7 {
        "7"
    } else if d == 8 {
        "8"
    } else {
        "9"
    };
    assert(r@ =~= seq![digit_char(d as nat)]);
    r
}

/// Writes a number in decimal digits.
pub fn decimal_text(n: u64) -> (r: String)
    ensures
        r@ == decimal(n as nat),
    decreases n,
{
    if n < 10 {
        String::from_str(digit_text(n))
    } else {
        let mut r = decimal_text(n / 10);
        r.append(digit_text(n % 10));
        assert(r@ =~= decimal((n / 10) as nat).push(digit_char((n % 10) as nat)));
        r
    }
}

/// A copy of a list of texts.
pub fn clone_texts(texts: &Vec<String>) -> (r: Vec<String>)
    ensures
        r@ == texts@,
{
    let mut r: Vec<String> = Vec::new();
    let mut i: usize = 0;
    while i < texts.len()
        invariant
            i <= texts.len(),
            r@ == texts@.subrange(0, i as int),
        decreases texts.len() - i,
    {
        r.push(texts[i].clone());
        assert(r@ =~= texts@.subrange(0, i + 1));
        i += 1;
    }
    assert(texts@.subrange(0, texts.len() as int) =~= texts@);
    r
}

} // verus!
