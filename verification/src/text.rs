use vstd::prelude::*;
use vstd::string::*;

verus! {

/// An owned copy of a string slice.
pub fn owned(s: &str) -> (r: String)
    ensures
        r@ == s@,
{
    String::from_str(s)
}

/// Concatenation of two string slices into an owned string.
pub fn concat(a: &str, b: &str) -> (r: String)
    ensures
        r@ == a@ + b@,
{
    let mut r = String::from_str(a);
    r.append(b);
    r
}

/// Whether two string slices hold the same characters.
pub fn same(a: &str, b: &str) -> (r: bool)
    ensures
        r == (a@ == b@),
{
    let x = String::from_str(a);
    let y = String::from_str(b);
    x == y
}

/// A copy of a list of strings.
pub fn clone_strings(items: &Vec<String>) -> (r: Vec<String>)
    ensures
        r.deep_view() == items.deep_view(),
{
    let mut r: Vec<String> = Vec::new();
    let mut i: usize = 0;
    while i < items.len()
        invariant
            i <= items.len(),
            r.len() == i,
            forall|k: int| 0 <= k < i ==> r[k]@ == items[k]@,
        decreases items.len() - i,
    {
        r.push(items[i].clone());
        i += 1;
    }
    assert(r.deep_view() =~= items.deep_view());
    r
}

/// Whether a list of strings holds the given string.
pub fn contains(items: &Vec<String>, s: &str) -> (r: bool)
    ensures
        r == items.deep_view().contains(s@),
{
    let mut i: usize = 0;
    while i < items.len()
        invariant
            i <= items.len(),
            forall|k: int| 0 <= k < i ==> items.deep_view()[k] != s@,
        decreases items.len() - i,
    {
        if same(items[i].as_str(), s) {
            assert(items.deep_view()[i as int] == s@);
            return true;
        }
        i += 1;
    }
    false
}

/// Whether two lists of strings hold the same strings in the same order.
pub fn same_strings(a: &Vec<String>, b: &Vec<String>) -> (r: bool)
    ensures
        r == (a.deep_view() == b.deep_view()),
{
    if a.len() != b.len() {
        assert(a.deep_view().len() != b.deep_view().len());
        return false;
    }
    let mut i: usize = 0;
    while i < a.len()
        invariant
            i <= a.len(),
            a.len() == b.len(),
            forall|k: int| 0 <= k < i ==> a[k]@ == b[k]@,
        decreases a.len() - i,
    {
        if !same(a[i].as_str(), b[i].as_str()) {
            assert(a.deep_view()[i as int] != b.deep_view()[i as int]);
            return false;
        }
        i += 1;
    }
    assert(a.deep_view() =~= b.deep_view());
    true
}

/// Whether two optional strings are both absent or hold the same characters.
pub fn same_optional(a: &Option<String>, b: &Option<String>) -> (r: bool)
    ensures
        r == (a.deep_view() == b.deep_view()),
{
    match (a, b) {
        (Some(x), Some(y)) => same(x.as_str(), y.as_str()),
        (None, None) => true,
        _ => false,
    }
}

/// Whether two optional lists of strings are both absent or hold the same strings.
pub fn same_optional_strings(a: &Option<Vec<String>>, b: &Option<Vec<String>>) -> (r: bool)
    ensures
        r == (a.deep_view() == b.deep_view()),
{
    match (a, b) {
        (Some(x), Some(y)) => same_strings(x, y),
        (None, None) => true,
        _ => false,
    }
}

/// The characters of a string slice.
pub fn chars_of(s: &str) -> (r: Vec<char>)
    ensures
        r@ == s@,
{
    let mut v: Vec<char> = Vec::new();
    for c in it: s.chars()
        invariant
            it.seq() == s@,
            v@ == it.seq().take(it.index() as int),
    {
        v.push(c);
    }
    v
}

/// The index of the first line feed of `s`, or the length of `s` where it has none.
pub open spec fn first_newline(s: Seq<char>) -> int
    decreases s.len(),
{
    if s.len() == 0 {
        0
    } else if s[0] == '\n' {
        0
    } else {
        1 + first_newline(s.drop_first())
    }
}

/// `s` without the carriage return that it ends with, if it ends with one.
pub open spec fn without_carriage_return(s: Seq<char>) -> Seq<char> {
    if s.len() > 0 && s.last() == '\r' {
        s.drop_last()
    } else {
        s
    }
}

/// The lines of a text. A line ends with a line feed, or with a carriage
/// return and a line feed, neither of which belongs to the line; what follows
/// the last line feed is a line of its own where it is not empty.
pub open spec fn lines_of(s: Seq<char>) -> Seq<Seq<char>>
    decreases s.len(),
{
    if s.len() == 0 {
        Seq::empty()
    } else {
        let n = first_newline(s);
        if n < 0 || n >= s.len() {
            seq![s]
        } else {
            seq![without_carriage_return(s.subrange(0, n))] + lines_of(
                s.subrange(n + 1, s.len() as int),
            )
        }
    }
}

/// The first line feed lies within the text, and nothing before it is one.
pub proof fn lemma_first_newline(s: Seq<char>)
    ensures
        0 <= first_newline(s) <= s.len(),
        forall|k: int| 0 <= k < first_newline(s) ==> s[k] != '\n',
        first_newline(s) < s.len() ==> s[first_newline(s)] == '\n',
    decreases s.len(),
{
    if s.len() > 0 && s[0] != '\n' {
        let rest = s.drop_first();
        lemma_first_newline(rest);
        assert forall|k: int| 0 <= k < first_newline(s) implies s[k] != '\n' by {
            if k > 0 {
                assert(s[k] == rest[k - 1]);
            }
        }
    }
}

/// The first position at or after nothing but other characters that holds a
/// line feed is the first line feed.
pub proof fn lemma_first_newline_is(s: Seq<char>, n: int)
    requires
        0 <= n <= s.len(),
        forall|k: int| 0 <= k < n ==> s[k] != '\n',
        n < s.len() ==> s[n] == '\n',
    ensures
        first_newline(s) == n,
{
    lemma_first_newline(s);
    let m = first_newline(s);
    if m < n {
        assert(s[m] == '\n');
    } else if m > n {
        assert(s[n] != '\n');
    }
}

/// The lines of a text.
pub fn lines(s: &str) -> (r: Vec<String>)
    ensures
        r.deep_view() == lines_of(s@),
{
    let text = chars_of(s);
    let mut r: Vec<String> = Vec::new();
    let mut start: usize = 0;
    let mut i: usize = 0;
    proof {
        assert(s@.subrange(0, s@.len() as int) =~= s@);
        assert(r.deep_view() + lines_of(s@) =~= lines_of(s@));
    }
    while i < text.len()
        invariant
            text@ == s@,
            start <= i <= text.len(),
            forall|k: int| start <= k < i ==> text[k] != '\n',
            r.deep_view() + lines_of(s@.subrange(start as int, s@.len() as int)) == lines_of(s@),
        decreases text.len() - i,
    {
        if text[i] == '\n' {
            let ghost rest = s@.subrange(start as int, s@.len() as int);
            let end = if i > start && text[i - 1] == '\r' {
                i - 1
            } else {
                i
            };
            let line = owned(s.substring_char(start, end));
            proof {
                lemma_first_newline_is(rest, i - start);
                assert(rest.subrange(0, i - start) =~= s@.subrange(start as int, i as int));
                assert(line@ =~= without_carriage_return(rest.subrange(0, i - start)));
                assert(rest.subrange(i - start + 1, rest.len() as int) =~= s@.subrange(
                    i + 1,
                    s@.len() as int,
                ));
                assert(r.deep_view().push(line@) + lines_of(
                    s@.subrange(i + 1, s@.len() as int),
                ) =~= r.deep_view() + lines_of(rest));
            }
            let ghost before = r.deep_view();
            r.push(line);
            assert(r.deep_view() =~= before.push(line@));
            start = i + 1;
        }
        i += 1;
    }
    if start < text.len() {
        let ghost rest = s@.subrange(start as int, s@.len() as int);
        let line = owned(s.substring_char(start, text.len()));
        proof {
            lemma_first_newline_is(rest, rest.len() as int);
            assert(line@ =~= rest);
            assert(lines_of(rest) =~= seq![rest]);
        }
        let ghost before = r.deep_view();
        r.push(line);
        assert(r.deep_view() =~= before.push(line@));
        assert(before.push(line@) =~= before + seq![rest]);
    } else {
        assert(s@.subrange(start as int, s@.len() as int).len() == 0);
        assert(r.deep_view() + Seq::<Seq<char>>::empty() =~= r.deep_view());
    }
    r
}

/// The items of a list, one after the other, with `separator` between each two.
pub open spec fn joined(items: Seq<Seq<char>>, separator: Seq<char>) -> Seq<char>
    decreases items.len(),
{
    if items.len() == 0 {
        Seq::empty()
    } else if items.len() == 1 {
        items[0]
    } else {
        joined(items.drop_last(), separator) + separator + items.last()
    }
}

/// The items of a list, one after the other, with `separator` between each two.
pub fn join(items: &Vec<String>, separator: &str) -> (r: String)
    ensures
        r@ == joined(items.deep_view(), separator@),
{
    let mut r = String::new();
    let mut i: usize = 0;
    while i < items.len()
        invariant
            i <= items.len(),
            r@ == joined(items.deep_view().take(i as int), separator@),
        decreases items.len() - i,
    {
        proof {
            let next = items.deep_view().take(i + 1);
            assert(next.drop_last() =~= items.deep_view().take(i as int));
            assert(next.last() == items[i as int]@);
        }
        if i > 0 {
            r.append(separator);
        } else {
            assert(Seq::<char>::empty() + items[i as int]@ =~= items[i as int]@);
        }
        r.append(items[i].as_str());
        i += 1;
    }
    assert(items.deep_view().take(items.len() as int) =~= items.deep_view());
    r
}

/// Each line behind `indent` and before a line feed, one after the other.
pub open spec fn indented(lines: Seq<Seq<char>>, indent: Seq<char>) -> Seq<char>
    decreases lines.len(),
{
    if lines.len() == 0 {
        Seq::empty()
    } else {
        indented(lines.drop_last(), indent) + indent + lines.last() + seq!['\n']
    }
}

/// Each line of a list behind `indent` and before a line feed, one after the other.
pub fn indent_all(lines: &Vec<String>, indent: &str) -> (r: String)
    ensures
        r@ == indented(lines.deep_view(), indent@),
{
    let mut r = String::new();
    let mut i: usize = 0;
    while i < lines.len()
        invariant
            i <= lines.len(),
            r@ == indented(lines.deep_view().take(i as int), indent@),
        decreases lines.len() - i,
    {
        proof {
            let next = lines.deep_view().take(i + 1);
            assert(next.drop_last() =~= lines.deep_view().take(i as int));
            assert(next.last() == lines[i as int]@);
            reveal_strlit("\n");
            assert("\n"@ =~= seq!['\n']);
        }
        r.append(indent);
        r.append(lines[i].as_str());
        r.append("\n");
        i += 1;
    }
    assert(lines.deep_view().take(lines.len() as int) =~= lines.deep_view());
    r
}

/// The path of `name` below the directory `base`: `name` itself where it
/// starts at the root or `base` is empty, else `base`, a slash unless `base`
/// ends with one, and `name`.
pub open spec fn path_join(base: Seq<char>, name: Seq<char>) -> Seq<char> {
    if name.len() > 0 && name[0] == '/' {
        name
    } else if base.len() == 0 {
        name
    } else if base.last() == '/' {
        base + name
    } else {
        base + seq!['/'] + name
    }
}

/// The path of `name` below the directory `base`.
pub fn join_path(base: &str, name: &str) -> (r: String)
    ensures
        r@ == path_join(base@, name@),
{
    let base_len = base.unicode_len();
    let name_len = name.unicode_len();
    if name_len > 0 && name.get_char(0) == '/' {
        owned(name)
    } else if base_len == 0 {
        owned(name)
    } else if base.get_char(base_len - 1) == '/' {
        concat(base, name)
    } else {
        proof {
            reveal_strlit("/");
            assert("/"@ =~= seq!['/']);
        }
        let mut r = concat(base, "/");
        r.append(name);
        r
    }
}

/// The decimal digit of a number below ten.
pub open spec fn digit(d: nat) -> char {
    if d == 0 {
        '0'
    } else if d == 1 {
        '1'
    } else if d == 2 {
        '2'
    } else if d == 3 {
        '3'
    } else if d == 4 {
        '4'
    } else if d == 5 {
        '5'
    } else if d == 6 {
        '6'
    } else if d == 7 {
        '7'
    } else if d == 8 {
        '8'
    } else {
        '9'
    }
}

/// The decimal numeral of a natural number, without leading zeros.
pub open spec fn decimal(n: nat) -> Seq<char>
    decreases n,
{
    if n < 10 {
        seq![digit(n)]
    } else {
        decimal(n / 10) + seq![digit(n % 10)]
    }
}

/// The decimal numeral of an integer, with a minus sign where it is negative.
pub open spec fn signed_decimal(n: int) -> Seq<char> {
    if n < 0 {
        seq!['-'] + decimal((-n) as nat)
    } else {
        decimal(n as nat)
    }
}

fn digit_text(d: u64) -> (r: &'static str)
    requires
        d < 10,
    ensures
        r@ == seq![digit(d as nat)],
{
    proof {
        reveal_strlit("0");
        reveal_strlit("1");
        reveal_strlit("2");
        reveal_strlit("3");
        reveal_strlit("4");
        reveal_strlit("5");
        reveal_strlit("6");
        reveal_strlit("7");
        reveal_strlit("8");
        reveal_strlit("9");
    }
    let r = if d == 0 {
        "0"
    } else if d == 1 {
        "1"
    } else if d == 2 {
        "2"
    } else if d == 3 {
        "3"
    } else if d == 4 {
        "4"
    } else if d == 5 {
        "5"
    } else if d == 6 {
        "6"
    } else if d == 7 {
        "7"
    } else if d == 8 {
        "8"
    } else {
        "9"
    };
    assert(r@ =~= seq![digit(d as nat)]);
    r
}

/// The decimal numeral of a number.
pub fn number(n: u64) -> (r: String)
    ensures
        r@ == decimal(n as nat),
    decreases n,
{
    if n < 10 {
        owned(digit_text(n))
    } else {
        let mut r = number(n / 10);
        r.append(digit_text(n % 10));
        r
    }
}

/// The decimal numeral of an integer.
pub fn signed_number(n: i64) -> (r: String)
    ensures
        r@ == signed_decimal(n as int),
{
    if n < 0 {
        let magnitude: u64 = if n == i64::MIN {
            9223372036854775808u64
        } else {
            (-n) as u64
        };
        proof {
            reveal_strlit("-");
            assert("-"@ =~= seq!['-']);
        }
        let digits = number(magnitude);
        concat("-", digits.as_str())
    } else {
        number(n as u64)
    }
}

/// The number of characters of `s` up to and with its last slash; zero where it has none.
pub open spec fn after_last_slash(s: Seq<char>) -> int
    decreases s.len(),
{
    if s.len() == 0 {
        0
    } else if s.last() == '/' {
        s.len() as int
    } else {
        after_last_slash(s.drop_last())
    }
}

/// What follows the last slash of `s`; `s` itself where it has no slash.
pub open spec fn last_part_of(s: Seq<char>) -> Seq<char> {
    s.subrange(after_last_slash(s), s.len() as int)
}

/// What follows the last slash lies within the text.
pub proof fn lemma_after_last_slash(s: Seq<char>)
    ensures
        0 <= after_last_slash(s) <= s.len(),
        forall|k: int| after_last_slash(s) <= k < s.len() ==> s[k] != '/',
        after_last_slash(s) > 0 ==> s[after_last_slash(s) - 1] == '/',
    decreases s.len(),
{
    if s.len() > 0 && s.last() != '/' {
        let init = s.drop_last();
        lemma_after_last_slash(init);
        assert forall|k: int| after_last_slash(s) <= k < s.len() implies s[k] != '/' by {
            if k < init.len() {
                assert(s[k] == init[k]);
            }
        }
        if after_last_slash(s) > 0 {
            assert(s[after_last_slash(s) - 1] == init[after_last_slash(s) - 1]);
        }
    }
}

/// The position behind a slash that no slash follows is the one behind the last slash.
pub proof fn lemma_after_last_slash_is(s: Seq<char>, n: int)
    requires
        0 <= n <= s.len(),
        forall|k: int| n <= k < s.len() ==> s[k] != '/',
        n > 0 ==> s[n - 1] == '/',
    ensures
        after_last_slash(s) == n,
{
    lemma_after_last_slash(s);
    let m = after_last_slash(s);
    if m < n {
        assert(s[n - 1] == '/');
    } else if m > n {
        assert(s[m - 1] == '/');
    }
}

/// What follows the last slash of a text; the text itself where it has no slash.
pub fn last_part(s: &str) -> (r: String)
    ensures
        r@ == last_part_of(s@),
{
    let text = chars_of(s);
    let mut i: usize = text.len();
    while i > 0 && text[i - 1] != '/'
        invariant
            i <= text.len(),
            text@ == s@,
            forall|k: int| i <= k < text.len() ==> text[k] != '/',
        decreases i,
    {
        i -= 1;
    }
    proof {
        lemma_after_last_slash_is(s@, i as int);
    }
    owned(s.substring_char(i, text.len()))
}

/// Whether `base` leads to `path`: it is `path`, or `path` goes on behind it
/// at a slash. The empty base leads to every path.
pub open spec fn below(path: Seq<char>, base: Seq<char>) -> bool {
    &&& base.len() <= path.len()
    &&& path.subrange(0, base.len() as int) == base
    &&& (base.len() == path.len() || base.len() == 0 || base.last() == '/' || path[base.len() as int]
        == '/')
}

/// What is left of `path` behind `base` and the slash that follows it, where
/// `base` leads to `path`.
pub open spec fn stripped(path: Seq<char>, base: Seq<char>) -> Option<Seq<char>> {
    if below(path, base) {
        if base.len() < path.len() && base.len() > 0 && base.last() != '/' {
            Some(path.subrange(base.len() as int + 1, path.len() as int))
        } else {
            Some(path.subrange(base.len() as int, path.len() as int))
        }
    } else {
        None
    }
}

/// What is left of `path` behind `base`, where `base` leads to `path`.
pub fn strip_base(path: &str, base: &str) -> (r: Option<String>)
    ensures
        r.deep_view() == stripped(path@, base@),
{
    let p = chars_of(path);
    let b = chars_of(base);
    if b.len() > p.len() {
        return None;
    }
    let mut i: usize = 0;
    while i < b.len()
        invariant
            i <= b.len(),
            b.len() <= p.len(),
            p@ == path@,
            b@ == base@,
            forall|k: int| 0 <= k < i ==> p[k] == b[k],
        decreases b.len() - i,
    {
        if p[i] != b[i] {
            assert(path@.subrange(0, base@.len() as int)[i as int] != base@[i as int]);
            return None;
        }
        i += 1;
    }
    assert(path@.subrange(0, base@.len() as int) =~= base@);
    if b.len() == p.len() || b.len() == 0 || b[b.len() - 1] == '/' {
        Some(owned(path.substring_char(b.len(), p.len())))
    } else if p[b.len()] == '/' {
        Some(owned(path.substring_char(b.len() + 1, p.len())))
    } else {
        None
    }
}

/// Whether a character is white space: one of the characters that Unicode
/// gives the property White_Space.
pub open spec fn is_blank(c: char) -> bool {
    let code = c as u32;
    ||| 0x0009 <= code <= 0x000D
    ||| code == 0x0020
    ||| code == 0x0085
    ||| code == 0x00A0
    ||| code == 0x1680
    ||| 0x2000 <= code <= 0x200A
    ||| code == 0x2028
    ||| code == 0x2029
    ||| code == 0x202F
    ||| code == 0x205F
    ||| code == 0x3000
}

/// How many characters of white space a text begins with.
pub open spec fn leading_blanks(s: Seq<char>) -> int
    decreases s.len(),
{
    if s.len() > 0 && is_blank(s[0]) {
        1 + leading_blanks(s.drop_first())
    } else {
        0
    }
}

/// How many characters of white space a text ends with.
pub open spec fn trailing_blanks(s: Seq<char>) -> int
    decreases s.len(),
{
    if s.len() > 0 && is_blank(s.last()) {
        1 + trailing_blanks(s.drop_last())
    } else {
        0
    }
}

/// A text without the white space that it begins and ends with.
pub open spec fn trimmed(s: Seq<char>) -> Seq<char> {
    let from = leading_blanks(s);
    let rest = s.subrange(from, s.len() as int);
    rest.subrange(0, rest.len() - trailing_blanks(rest))
}

proof fn lemma_leading_blanks(s: Seq<char>, n: int)
    requires
        0 <= n <= s.len(),
        forall|k: int| 0 <= k < n ==> is_blank(s[k]),
        n < s.len() ==> !is_blank(s[n]),
    ensures
        leading_blanks(s) == n,
    decreases n,
{
    if n > 0 {
        let rest = s.drop_first();
        assert forall|k: int| 0 <= k < n - 1 implies is_blank(rest[k]) by {
            assert(rest[k] == s[k + 1]);
        }
        if n - 1 < rest.len() {
            assert(rest[n - 1] == s[n]);
        }
        lemma_leading_blanks(rest, n - 1);
    }
}

proof fn lemma_trailing_blanks(s: Seq<char>, n: int)
    requires
        0 <= n <= s.len(),
        forall|k: int| s.len() - n <= k < s.len() ==> is_blank(s[k]),
        n < s.len() ==> !is_blank(s[s.len() - n - 1]),
    ensures
        trailing_blanks(s) == n,
    decreases n,
{
    if n > 0 {
        let init = s.drop_last();
        assert(is_blank(s[s.len() - 1]));
        assert forall|k: int| init.len() - (n - 1) <= k < init.len() implies is_blank(init[k]) by {
            assert(init[k] == s[k]);
        }
        if n - 1 < init.len() {
            assert(init[init.len() - (n - 1) - 1] == s[s.len() - n - 1]);
        }
        lemma_trailing_blanks(init, n - 1);
    }
}

fn blank(c: char) -> (r: bool)
    ensures
        r == is_blank(c),
{
    let code = c as u32;
    (0x0009 <= code && code <= 0x000D) || code == 0x0020 || code == 0x0085 || code == 0x00A0
        || code == 0x1680 || (0x2000 <= code && code <= 0x200A) || code == 0x2028 || code == 0x2029
        || code == 0x202F || code == 0x205F || code == 0x3000
}

/// A text without the white space that it begins and ends with.
pub fn trim(s: &str) -> (r: String)
    ensures
        r@ == trimmed(s@),
{
    let text = chars_of(s);
    let mut from: usize = 0;
    while from < text.len() && blank(text[from])
        invariant
            from <= text.len(),
            forall|k: int| 0 <= k < from ==> is_blank(text[k]),
        decreases text.len() - from,
    {
        from += 1;
    }
    let mut to: usize = text.len();
    while to > from && blank(text[to - 1])
        invariant
            from <= to <= text.len(),
            forall|k: int| to <= k < text.len() ==> is_blank(text[k]),
        decreases to,
    {
        to -= 1;
    }
    proof {
        lemma_leading_blanks(s@, from as int);
        let rest = s@.subrange(from as int, s@.len() as int);
        assert forall|k: int| rest.len() - (text.len() - to) <= k < rest.len() implies is_blank(
            rest[k],
        ) by {
            assert(rest[k] == text[k + from]);
        }
        if text.len() - to < rest.len() {
            assert(rest[rest.len() - (text.len() - to) - 1] == text[to - 1]);
        }
        lemma_trailing_blanks(rest, text.len() - to);
        assert(rest.subrange(0, rest.len() - (text.len() - to)) =~= s@.subrange(
            from as int,
            to as int,
        ));
    }
    owned(s.substring_char(from, to))
}

/// The number of characters of `s` up to and with its first tab; zero where it has none.
pub open spec fn after_first_tab(s: Seq<char>) -> int
    decreases s.len(),
{
    if s.len() == 0 {
        0
    } else if s[0] == '\t' {
        1
    } else {
        let rest = after_first_tab(s.drop_first());
        if rest == 0 {
            0
        } else {
            rest + 1
        }
    }
}

/// What follows the first tab of `s`; `s` itself where it has no tab.
pub open spec fn behind_tab(s: Seq<char>) -> Seq<char> {
    s.subrange(after_first_tab(s), s.len() as int)
}

/// The position behind a tab that no tab precedes is the one behind the
/// first tab, and it is zero where there is no tab at all.
pub proof fn lemma_after_first_tab_is(s: Seq<char>, n: int)
    requires
        0 <= n <= s.len(),
        n > 0 ==> s[n - 1] == '\t' && forall|k: int| 0 <= k < n - 1 ==> s[k] != '\t',
        n == 0 ==> forall|k: int| 0 <= k < s.len() ==> s[k] != '\t',
    ensures
        after_first_tab(s) == n,
    decreases s.len(),
{
    if s.len() > 0 && s[0] != '\t' {
        let rest = s.drop_first();
        if n > 0 {
            assert(n >= 2) by {
                if n == 1 {
                    assert(s[0] == '\t');
                }
            }
            assert(rest[n - 2] == s[n - 1]);
            assert forall|k: int| 0 <= k < n - 2 implies rest[k] != '\t' by {
                assert(rest[k] == s[k + 1]);
            }
            lemma_after_first_tab_is(rest, n - 1);
        } else {
            assert forall|k: int| 0 <= k < rest.len() implies rest[k] != '\t' by {
                assert(rest[k] == s[k + 1]);
            }
            lemma_after_first_tab_is(rest, 0);
        }
    } else if s.len() > 0 {
        if n != 1 {
            if n == 0 {
                assert(s[0] != '\t');
            } else {
                assert(s[0] != '\t');
            }
        }
    }
}

/// What follows the first tab of a text; the text itself where it has no tab.
pub fn after_tab(s: &str) -> (r: String)
    ensures
        r@ == behind_tab(s@),
{
    let text = chars_of(s);
    let mut i: usize = 0;
    while i < text.len() && text[i] != '\t'
        invariant
            i <= text.len(),
            text@ == s@,
            forall|k: int| 0 <= k < i ==> text[k] != '\t',
        decreases text.len() - i,
    {
        i += 1;
    }
    if i < text.len() {
        proof {
            lemma_after_first_tab_is(s@, i + 1);
        }
        owned(s.substring_char(i + 1, text.len()))
    } else {
        proof {
            lemma_after_first_tab_is(s@, 0);
            assert(s@.subrange(0, s@.len() as int) =~= s@);
        }
        owned(s)
    }
}

} // verus!
