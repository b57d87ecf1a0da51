//! Text as sequences of characters: the few operations on strings that the
//! renderers and the walker need, each with its meaning stated over `Seq<char>`.

use vstd::prelude::*;
use vstd::string::StringExecFns;

verus! {

/// `String::push`: the character is appended to the string.
pub assume_specification[ String::push ](s: &mut String, ch: char)
    ensures
        final(s)@ == old(s)@.push(ch),
;

/// The text of an optional string.
pub open spec fn option_text(s: Option<String>) -> Option<Seq<char>> {
    match s {
        Some(s) => Some(s@),
        None => None,
    }
}

/// The texts of a sequence of strings.
pub open spec fn texts(s: Seq<String>) -> Seq<Seq<char>> {
    s.map_values(|t: String| t@)
}

/// The characters of a string, in a vector.
pub fn to_chars(s: &str) -> (v: Vec<char>)
    ensures
        v@ == s@,
{
    let mut v: Vec<char> = Vec::new();
    for c in it: s.chars()
        invariant
            it.seq() == s@,
            v@ == s@.take(it.index() as int),
    {
        v.push(c);
    }
    v
}

/// The decimal digit that stands for `d`, for `d` below ten.
pub open spec fn digit_char(d: nat) -> char {
    if d == 0 {
        '0'
    } else if d == 1 {
        '1'
    } else if d == 2 {
        '2'
    } else if d == 3 {
        '3'
    } else if d == 4 {
        '4'
    } else if d == 5 {
        '5'
    } else if d == 6 {
        '6'
    } else if d == 7 {
        '7'
    } else if d == 8 {
        '8'
    } else {
        '9'
    }
}

/// A number in decimal notation, without sign or leading zeros.
pub open spec fn decimal(n: nat) -> Seq<char>
    decreases n,
{
    if n < 10 {
        seq![digit_char(n)]
    } else {
        decimal(n / 10).push(digit_char(n % 10))
    }
}

fn digit(d: u64) -> (c: char)
    requires
        d < 10,
    ensures
        c == digit_char(d as nat),
{
    if d == 0 {
        '0'
    } else if d == 1 {
        '1'
    } else if d == 2 {
        '2'
    } else if d == 3 {
        '3'
    } else if d == 4 {
        '4'
    } else if d == 5 {
        '5'
    } else if d == 6 {
        '6'
    } else if d == 7 {
        '7'
    } else if d == 8 {
        '8'
    } else {
        '9'
    }
}

/// Appends `n` in decimal notation.
pub fn push_decimal(s: &mut String, n: u64)
    ensures
        final(s)@ == old(s)@ + decimal(n as nat),
    decreases n,
{
    if n >= 10 {
        push_decimal(s, n / 10);
    }
    s.push(digit(n % 10));
}

/// Appends a line number in decimal notation.
pub fn push_line(s: &mut String, line: u32)
    ensures
        final(s)@ == old(s)@ + decimal(line as nat),
{
    push_decimal(s, line as u64);
}

/// Whether `a` comes strictly before `b` in the order of a dictionary, the
/// characters compared by their code points.
pub open spec fn text_lt(a: Seq<char>, b: Seq<char>) -> bool
    decreases a.len(),
{
    if b.len() == 0 {
        false
    } else if a.len() == 0 {
        true
    } else if a[0] != b[0] {
        (a[0] as int) < (b[0] as int)
    } else {
        text_lt(a.drop_first(), b.drop_first())
    }
}

/// The dictionary order is irreflexive.
pub proof fn lemma_text_lt_irreflexive(a: Seq<char>)
    ensures
        !text_lt(a, a),
    decreases a.len(),
{
    if a.len() > 0 {
        lemma_text_lt_irreflexive(a.drop_first());
    }
}

/// The dictionary order is asymmetric.
pub proof fn lemma_text_lt_asymmetric(a: Seq<char>, b: Seq<char>)
    requires
        text_lt(a, b),
    ensures
        !text_lt(b, a),
    decreases a.len(),
{
    if a.len() > 0 && b.len() > 0 && a[0] == b[0] {
        lemma_text_lt_asymmetric(a.drop_first(), b.drop_first());
    }
}

/// Of two different texts one comes before the other.
pub proof fn lemma_text_lt_total(a: Seq<char>, b: Seq<char>)
    ensures
        a == b || text_lt(a, b) || text_lt(b, a),
    decreases a.len(),
{
    if a.len() > 0 && b.len() > 0 {
        if a[0] == b[0] {
            lemma_text_lt_total(a.drop_first(), b.drop_first());
            if a.drop_first() == b.drop_first() {
                assert(a =~= seq![a[0]] + a.drop_first());
                assert(b =~= seq![b[0]] + b.drop_first());
            }
        }
    }
}

/// The dictionary order is transitive.
pub proof fn lemma_text_lt_transitive(a: Seq<char>, b: Seq<char>, c: Seq<char>)
    requires
        text_lt(a, b),
        text_lt(b, c),
    ensures
        text_lt(a, c),
    decreases a.len(),
{
    if a.len() > 0 && b.len() > 0 && c.len() > 0 && a[0] == b[0] && b[0] == c[0] {
        lemma_text_lt_transitive(a.drop_first(), b.drop_first(), c.drop_first());
    }
}

proof fn lemma_text_lt_skip(a: Seq<char>, b: Seq<char>, i: int)
    requires
        0 <= i <= a.len(),
        i <= b.len(),
        a.take(i) == b.take(i),
    ensures
        text_lt(a, b) == text_lt(a.skip(i), b.skip(i)),
    decreases i,
{
    if i > 0 {
        assert(b[0] == b.take(i)[0]);
        assert(a.drop_first().take(i - 1) =~= a.take(i).drop_first());
        assert(b.drop_first().take(i - 1) =~= b.take(i).drop_first());
        lemma_text_lt_skip(a.drop_first(), b.drop_first(), i - 1);
        assert(a.drop_first().skip(i - 1) =~= a.skip(i));
        assert(b.drop_first().skip(i - 1) =~= b.skip(i));
    } else {
        assert(a.skip(0) =~= a);
        assert(b.skip(0) =~= b);
    }
}

/// The first `n` of `parts`, with `sep` between each two of them.
pub open spec fn join_first(parts: Seq<Seq<char>>, sep: Seq<char>, n: int) -> Seq<char>
    decreases n,
{
    if n <= 0 {
        Seq::empty()
    } else if n == 1 {
        parts[0]
    } else {
        join_first(parts, sep, n - 1) + sep + parts[n - 1]
    }
}

/// All of `parts`, with `sep` between each two of them.
pub open spec fn join(parts: Seq<Seq<char>>, sep: Seq<char>) -> Seq<char> {
    join_first(parts, sep, parts.len() as int)
}

/// Where part `k` begins in the joined text.
pub open spec fn part_start(parts: Seq<Seq<char>>, sep: Seq<char>, k: int) -> int {
    if k <= 0 {
        0
    } else {
        (join_first(parts, sep, k).len() + sep.len()) as int
    }
}

/// Where part `k` ends in the joined text.
pub open spec fn part_end(parts: Seq<Seq<char>>, sep: Seq<char>, k: int) -> int {
    part_start(parts, sep, k) + parts[k].len()
}

/// The join of the first parts is the beginning of the join of more parts,
/// and part `k` ends where the join of the first `k + 1` parts ends.
pub proof fn lemma_join_first_grows(parts: Seq<Seq<char>>, sep: Seq<char>, k: int, n: int)
    requires
        0 <= k <= n,
    ensures
        join_first(parts, sep, k).is_prefix_of(join_first(parts, sep, n)),
        k < n ==> part_end(parts, sep, k) == join_first(parts, sep, k + 1).len(),
        k < n ==> join_first(parts, sep, k + 1).subrange(
            part_start(parts, sep, k),
            part_end(parts, sep, k),
        ) == parts[k],
    decreases n - k,
{
    if k < n {
        lemma_join_first_grows(parts, sep, k + 1, n);
    }
}

/// Joining keeps the parts and their order: each part stands in the joined
/// text as it is, and an earlier part ends before a later one begins.
pub proof fn lemma_join_keeps_order(parts: Seq<Seq<char>>, sep: Seq<char>, i: int, k: int)
    requires
        0 <= i <= k < parts.len(),
    ensures
        part_end(parts, sep, k) <= join(parts, sep).len(),
        join(parts, sep).subrange(part_start(parts, sep, k), part_end(parts, sep, k)) == parts[k],
        i < k ==> part_end(parts, sep, i) <= part_start(parts, sep, k),
{
    let n = parts.len() as int;
    lemma_join_first_grows(parts, sep, k, n);
    lemma_join_first_grows(parts, sep, k + 1, n);
    if i < k {
        lemma_join_first_grows(parts, sep, i, n);
        lemma_join_first_grows(parts, sep, i + 1, k);
    }
}

/// Joins strings, with `sep` between each two of them.
pub fn join_strings(parts: &Vec<String>, sep: &str) -> (s: String)
    ensures
        s@ == join(texts(parts@), sep@),
{
    let mut s = String::new();
    let mut i: usize = 0;
    while i < parts.len()
        invariant
            i <= parts.len(),
            s@ == join_first(texts(parts@), sep@, i as int),
        decreases parts.len() - i,
    {
        if i > 0 {
            s.append(sep);
        }
        s.append(parts[i].as_str());
        i += 1;
    }
    s
}

/// What the character at position `i` of `text` becomes when `text` is
/// turned into comment lines: a line feed that is not the last character
/// opens the next comment line, a carriage return before a line feed and a
/// final line feed are dropped, and any other character stays.
pub open spec fn commented_char(text: Seq<char>, i: int) -> Seq<char> {
    if text[i] == '\n' {
        if i == text.len() - 1 {
            Seq::empty()
        } else {
            "\n-- "@
        }
    } else if text[i] == '\r' && i + 1 < text.len() && text[i + 1] == '\n' {
        Seq::empty()
    } else {
        seq![text[i]]
    }
}

/// What the first `n` characters of `text` become in comment lines.
pub open spec fn commented_first(text: Seq<char>, n: int) -> Seq<char>
    decreases n,
{
    if n <= 0 {
        Seq::empty()
    } else {
        commented_first(text, n - 1) + commented_char(text, n - 1)
    }
}

/// `text` with each of its lines made an SQL comment. A line ends at a line
/// feed or at a carriage return followed by a line feed; the end of the last
/// line need not be marked. The comment lines are separated by line feeds.
pub open spec fn comment_out(text: Seq<char>) -> Seq<char> {
    if text.len() == 0 {
        Seq::empty()
    } else {
        "-- "@ + commented_first(text, text.len() as int)
    }
}

/// Makes each line of `text` an SQL comment.
pub fn comment_out_lines(text: &str) -> (s: String)
    ensures
        s@ == comment_out(text@),
{
    let chars = to_chars(text);
    let mut s = String::new();
    if chars.len() == 0 {
        return s;
    }
    s.append("-- ");
    let mut i: usize = 0;
    while i < chars.len()
        invariant
            i <= chars.len(),
            chars@ == text@,
            s@ == "-- "@ + commented_first(text@, i as int),
        decreases chars.len() - i,
    {
        let c = chars[i];
        if c == '\n' {
            if i + 1 < chars.len() {
                s.append("\n-- ");
            }
        } else if c == '\r' && i + 1 < chars.len() && chars[i + 1] == '\n' {
        } else {
            s.push(c);
        }
        i += 1;
    }
    s
}

/// How two texts stand to each other in the dictionary order.
#[derive(Debug, Clone, Copy, PartialEq, Eq, Structural)]
pub enum TextOrder {
    Before,
    Same,
    After,
}

/// Compares two texts in the dictionary order.
pub fn text_order(a: &Vec<char>, b: &Vec<char>) -> (r: TextOrder)
    ensures
        r == TextOrder::Before <==> text_lt(a@, b@),
        r == TextOrder::Same <==> a@ == b@,
        r == TextOrder::After <==> text_lt(b@, a@),
{
    let mut i: usize = 0;
    while i < a.len() && i < b.len()
        invariant
            i <= a.len(),
            i <= b.len(),
            a@.take(i as int) == b@.take(i as int),
        decreases a.len() - i,
    {
        let x: char = a[i];
        let y: char = b[i];
        proof {
            lemma_text_lt_skip(a@, b@, i as int);
            lemma_text_lt_skip(b@, a@, i as int);
        }
        if x < y {
            return TextOrder::Before;
        }
        if y < x {
            return TextOrder::After;
        }
        i += 1;
    }
    proof {
        lemma_text_lt_skip(a@, b@, i as int);
        lemma_text_lt_skip(b@, a@, i as int);
    }
    if i < b.len() {
        TextOrder::Before
    } else if i < a.len() {
        TextOrder::After
    } else {
        assert(a@ =~= a@.take(i as int));
        assert(b@ =~= b@.take(i as int));
        proof {
            lemma_text_lt_irreflexive(a@);
        }
        TextOrder::Same
    }
}

/// Whether `text` begins with `prefix`.
pub fn starts_with(text: &Vec<char>, prefix: &Vec<char>) -> (b: bool)
    ensures
        b == prefix@.is_prefix_of(text@),
{
    if prefix.len() > text.len() {
        return false;
    }
    let mut i: usize = 0;
    while i < prefix.len()
        invariant
            i <= prefix.len() <= text.len(),
            forall|k: int| 0 <= k < i ==> prefix@[k] == text@[k],
        decreases prefix.len() - i,
    {
        if prefix[i] != text[i] {
            return false;
        }
        i += 1;
    }
    true
}

} // verus!
