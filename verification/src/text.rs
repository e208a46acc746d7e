//! Character-level string operations used throughout the report.
use vstd::prelude::*;

verus! {

broadcast use vstd::string::group_string_axioms;

/// `String::push` appends one character.
pub assume_specification[ String::push ](s: &mut String, ch: char)
    ensures
        final(s)@ == old(s)@.push(ch),
;

/// The characters of `s`, in order.
pub fn chars_of(s: &str) -> (r: Vec<char>)
    ensures
        r@ == s@,
{
    let mut out: Vec<char> = Vec::new();
    for c in it: s.chars()
        invariant
            out@ == it.seq().take(it.index()),
            it.seq() == s@,
    {
        out.push(c);
    }
    out
}

/// Appends the characters `chars[from..to]` to `out`.
pub fn push_chars(out: &mut String, chars: &Vec<char>, from: usize, to: usize)
    requires
        from <= to <= chars@.len(),
    ensures
        final(out)@ == old(out)@ + chars@.subrange(from as int, to as int),
{
    let mut i = from;
    while i < to
        invariant
            from <= i <= to <= chars@.len(),
            out@ == old(out)@ + chars@.subrange(from as int, i as int),
        decreases to - i,
    {
        out.push(chars[i]);
        i = i + 1;
        assert(chars@.subrange(from as int, i as int) =~= chars@.subrange(from as int, i - 1).push(
            chars@[i - 1],
        ));
    }
}

/// A string made of the given characters.
pub fn string_of(chars: &Vec<char>) -> (r: String)
    ensures
        r@ == chars@,
{
    let mut out = String::new();
    push_chars(&mut out, chars, 0, chars.len());
    assert(chars@.subrange(0, chars@.len() as int) =~= chars@);
    out
}

/// `a` followed by `b`.
pub fn concat_strs(a: &str, b: &str) -> (r: String)
    ensures
        r@ == a@ + b@,
{
    let mut out = String::from_str(a);
    out.append(b);
    out
}

/// `s` with every occurrence of `ch` taken out.
pub open spec fn without_char(s: Seq<char>, ch: char) -> Seq<char> {
    s.filter(other_than(ch))
}

/// Holds of every character but `ch`.
pub open spec fn other_than(ch: char) -> spec_fn(char) -> bool {
    |c: char| c != ch
}

/// Removing a character leaves none of it behind.
pub proof fn lemma_without_char_absent(s: Seq<char>, ch: char)
    ensures
        !without_char(s, ch).contains(ch),
{
    let f = without_char(s, ch);
    if f.contains(ch) {
        let i = choose|i: int| 0 <= i < f.len() && f[i] == ch;
        s.lemma_filter_pred(other_than(ch), i);
    }
}

/// Removing a character from a sequence that lacks it changes nothing.
pub proof fn lemma_without_char_noop(s: Seq<char>, ch: char)
    requires
        !s.contains(ch),
    ensures
        without_char(s, ch) == s,
    decreases s.len(),
{
    reveal_with_fuel(Seq::filter, 1);
    if s.len() > 0 {
        assert(!s.drop_last().contains(ch)) by {
            if s.drop_last().contains(ch) {
                let i = choose|i: int| 0 <= i < s.drop_last().len() && s.drop_last()[i] == ch;
                assert(s[i] == ch);
            }
        }
        lemma_without_char_noop(s.drop_last(), ch);
        assert(s[s.len() - 1] != ch);
        assert(s.drop_last().push(s.last()) =~= s);
    }
}

/// Removing one character keeps another one absent.
pub proof fn lemma_without_char_keeps_absent(s: Seq<char>, ch: char, other: char)
    requires
        !s.contains(other),
    ensures
        !without_char(s, ch).contains(other),
{
    if without_char(s, ch).contains(other) {
        s.lemma_filter_contains_rev(other_than(ch), other);
    }
}

/// Removes every occurrence of `ch`, as `s.replace(ch, "")` does.
pub fn remove_char(s: &str, ch: char) -> (r: String)
    ensures
        r@ == without_char(s@, ch),
{
    let chars = chars_of(s);
    let mut out = String::new();
    let mut i: usize = 0;
    while i < chars.len()
        invariant
            i <= chars@.len(),
            chars@ == s@,
            out@ == without_char(chars@.take(i as int), ch),
        decreases chars@.len() - i,
    {
        let c = chars[i];
        proof {
            assert(chars@.take(i + 1).drop_last() =~= chars@.take(i as int));
            reveal_with_fuel(Seq::filter, 1);
        }
        if c != ch {
            out.push(c);
        }
        i = i + 1;
    }
    assert(chars@.take(chars@.len() as int) =~= chars@);
    out
}

/// `s` with each non-overlapping occurrence of `pat`, found from the left,
/// replaced by `with` (for a nonempty `pat`).
pub open spec fn replace_all(s: Seq<char>, pat: Seq<char>, with: Seq<char>) -> Seq<char>
    decreases s.len(),
{
    if pat.len() == 0 || s.len() < pat.len() {
        s
    } else if s.take(pat.len() as int) == pat {
        with + replace_all(s.skip(pat.len() as int), pat, with)
    } else {
        seq![s[0]] + replace_all(s.skip(1), pat, with)
    }
}

/// Whether `pat` occurs somewhere in `s`.
pub open spec fn occurs_in(s: Seq<char>, pat: Seq<char>) -> bool {
    exists|i: int| 0 <= i && i + pat.len() <= s.len() && #[trigger] s.subrange(i, i + pat.len()) == pat
}

/// Replacing a pattern that does not occur changes nothing.
pub proof fn lemma_replace_absent(s: Seq<char>, pat: Seq<char>, with: Seq<char>)
    requires
        pat.len() > 0,
        !occurs_in(s, pat),
    ensures
        replace_all(s, pat, with) == s,
    decreases s.len(),
{
    if s.len() >= pat.len() {
        assert(s.take(pat.len() as int) != pat) by {
            if s.take(pat.len() as int) == pat {
                let z: int = 0;
                assert(s.subrange(z, z + pat.len()) =~= s.take(pat.len() as int));
                assert(occurs_in(s, pat));
            }
        }
        let rest = s.skip(1);
        assert(!occurs_in(rest, pat)) by {
            if occurs_in(rest, pat) {
                let i = choose|i: int| 0 <= i && i + pat.len() <= rest.len() && #[trigger] rest.subrange(
                    i,
                    i + pat.len(),
                ) == pat;
                assert(s.subrange(i + 1, i + 1 + pat.len()) =~= rest.subrange(i, i + pat.len()));
            }
        }
        lemma_replace_absent(rest, pat, with);
        assert(seq![s[0]] + rest =~= s);
    }
}

/// Whether `pat` occurs in `chars` at position `at`.
fn occurs_at(chars: &Vec<char>, pat: &Vec<char>, at: usize) -> (r: bool)
    requires
        at <= chars@.len(),
    ensures
        r == (at + pat@.len() <= chars@.len() && chars@.subrange(
            at as int,
            at + pat@.len(),
        ) == pat@),
{
    if pat.len() > chars.len() - at {
        return false;
    }
    let n = chars.len();
    let mut k: usize = 0;
    while k < pat.len()
        invariant
            n == chars@.len(),
            at + pat@.len() <= chars@.len(),
            k <= pat@.len(),
            forall|j: int| 0 <= j < k ==> chars@[at + j] == pat@[j],
        decreases pat@.len() - k,
    {
        if chars[at + k] != pat[k] {
            assert(chars@.subrange(at as int, at + pat@.len())[k as int] != pat@[k as int]);
            return false;
        }
        k = k + 1;
    }
    assert(chars@.subrange(at as int, at + pat@.len()) =~= pat@);
    true
}

/// Replaces every occurrence of `pat` by `with`, as `s.replace(pat, with)`
/// does for a nonempty pattern.
pub fn replace_str(s: &str, pat: &str, with: &str) -> (r: String)
    requires
        pat@.len() > 0,
    ensures
        r@ == replace_all(s@, pat@, with@),
{
    let chars = chars_of(s);
    let pat_chars = chars_of(pat);
    let mut out = String::new();
    let mut i: usize = 0;
    assert(chars@.skip(0) =~= chars@);
    assert(out@ + replace_all(chars@.skip(0), pat@, with@) =~= replace_all(s@, pat@, with@));
    while i < chars.len()
        invariant
            i <= chars@.len(),
            chars@ == s@,
            pat_chars@ == pat@,
            pat@.len() > 0,
            out@ + replace_all(chars@.skip(i as int), pat@, with@) == replace_all(
                s@,
                pat@,
                with@,
            ),
        decreases chars@.len() - i,
    {
        let ghost rest = chars@.skip(i as int);
        if occurs_at(&chars, &pat_chars, i) {
            assert(rest.take(pat@.len() as int) =~= chars@.subrange(i as int, i + pat@.len()));
            assert(rest.skip(pat@.len() as int) =~= chars@.skip(i + pat@.len()));
            out.append(with);
            i = i + pat_chars.len();
        } else {
            proof {
                if rest.len() >= pat@.len() {
                    assert(rest.take(pat@.len() as int) =~= chars@.subrange(i as int, i + pat@.len()));
                }
            }
            assert(rest.skip(1) =~= chars@.skip(i + 1));
            assert(rest[0] == chars@[i as int]);
            out.push(chars[i]);
            i = i + 1;
        }
    }
    assert(chars@.skip(i as int) =~= Seq::<char>::empty());
    out
}


/// `s` without its first character (empty stays empty), as
/// `s.chars().skip(1).collect()` gives.
pub open spec fn after_first_char(s: Seq<char>) -> Seq<char> {
    if s.len() == 0 {
        s
    } else {
        s.drop_first()
    }
}

/// Drops the first character of `s`.
pub fn skip_first_char(s: &str) -> (r: String)
    ensures
        r@ == after_first_char(s@),
{
    let chars = chars_of(s);
    let mut out = String::new();
    if chars.len() > 0 {
        push_chars(&mut out, &chars, 1, chars.len());
        assert(chars@.subrange(1, chars@.len() as int) =~= chars@.drop_first());
    }
    out
}

/// The fields of `s` between occurrences of `sep`, as `s.split(sep)` yields
/// them: always at least one field, empty fields kept.
pub open spec fn split_on(s: Seq<char>, sep: char) -> Seq<Seq<char>>
    decreases s.len(),
{
    if s.len() == 0 {
        seq![Seq::<char>::empty()]
    } else {
        let init = split_on(s.drop_last(), sep);
        if s.last() == sep {
            init.push(Seq::<char>::empty())
        } else {
            init.update(init.len() - 1, init.last().push(s.last()))
        }
    }
}

/// `split_on` never yields an empty list, and yields more than one field
/// exactly when the separator occurs.
pub proof fn lemma_split_on_len(s: Seq<char>, sep: char)
    ensures
        split_on(s, sep).len() >= 1,
        split_on(s, sep).len() >= 2 <==> s.contains(sep),
    decreases s.len(),
{
    if s.len() > 0 {
        lemma_split_on_len(s.drop_last(), sep);
        if s.drop_last().contains(sep) {
            let k = choose|k: int| 0 <= k < s.drop_last().len() && s.drop_last()[k] == sep;
            assert(s[k] == sep);
        }
        if s.contains(sep) && s.last() != sep {
            let k = choose|k: int| 0 <= k < s.len() && s[k] == sep;
            assert(s.drop_last()[k] == sep);
        }
        if s.last() == sep {
            assert(s[s.len() - 1] == sep);
        }
    }
}

/// Splits `s` at every `sep`, as `s.split(sep)` does.
pub fn split_fields(s: &str, sep: char) -> (r: Vec<String>)
    ensures
        r.deep_view() == split_on(s@, sep),
{
    let chars = chars_of(s);
    let mut fields: Vec<String> = Vec::new();
    let mut current = String::new();
    let mut i: usize = 0;
    assert(chars@.take(0) =~= Seq::<char>::empty());
    while i < chars.len()
        invariant
            i <= chars@.len(),
            chars@ == s@,
            fields.deep_view().push(current@) == split_on(chars@.take(i as int), sep),
        decreases chars@.len() - i,
    {
        let c = chars[i];
        proof {
            assert(chars@.take(i + 1).drop_last() =~= chars@.take(i as int));
            assert(chars@.take(i + 1).last() == c);
        }
        let ghost before = fields.deep_view().push(current@);
        if c == sep {
            let done = current;
            fields.push(done);
            current = String::new();
            assert(fields.deep_view().push(current@) =~= before.push(Seq::<char>::empty()));
        } else {
            current.push(c);
            assert(fields.deep_view().push(current@) =~= before.update(
                before.len() - 1,
                before.last().push(c),
            ));
        }
        i = i + 1;
    }
    assert(chars@.take(chars@.len() as int) =~= chars@);
    fields.push(current);
    fields
}

/// The second field of `s` split at `sep`, as `s.split(sep).nth(1).unwrap()`
/// gives; the separator must occur.
pub fn second_field(s: &str, sep: char) -> (r: String)
    requires
        s@.contains(sep),
    ensures
        split_on(s@, sep).len() >= 2,
        r@ == split_on(s@, sep)[1],
{
    proof {
        lemma_split_on_len(s@, sep);
    }
    let mut fields = split_fields(s, sep);
    assert(fields.deep_view()[1] == fields@[1]@);
    fields.swap_remove(1)
}

/// The strings of `parts` joined with `sep` between neighbours.
pub open spec fn join_seq(parts: Seq<Seq<char>>, sep: Seq<char>) -> Seq<char>
    decreases parts.len(),
{
    if parts.len() == 0 {
        Seq::<char>::empty()
    } else if parts.len() == 1 {
        parts[0]
    } else {
        join_seq(parts.drop_last(), sep) + sep + parts.last()
    }
}

/// Joins `parts` with `sep`, as `parts.join(sep)` does.
pub fn join(parts: &Vec<String>, sep: &str) -> (r: String)
    ensures
        r@ == join_seq(parts.deep_view(), sep@),
{
    let mut out = String::new();
    let mut i: usize = 0;
    while i < parts.len()
        invariant
            i <= parts@.len(),
            out@ == join_seq(parts.deep_view().take(i as int), sep@),
        decreases parts@.len() - i,
    {
        let ghost before = parts.deep_view().take(i as int);
        assert(parts.deep_view().take(i + 1).drop_last() =~= before);
        assert(parts.deep_view().take(i + 1).last() == parts@[i as int]@);
        if i > 0 {
            out.append(sep);
        } else {
            assert(parts.deep_view().take(1) =~= seq![parts@[0]@]);
        }
        out.append(parts[i].as_str());
        i = i + 1;
    }
    assert(parts.deep_view().take(parts@.len() as int) =~= parts.deep_view());
    out
}

/// Strict lexicographic order of character sequences by code point, which is
/// the order `<` gives on `str` (UTF-8 keeps code point order byte-wise).
pub open spec fn lex_less(a: Seq<char>, b: Seq<char>) -> bool
    decreases a.len(),
{
    if b.len() == 0 {
        false
    } else if a.len() == 0 {
        true
    } else if a[0] != b[0] {
        (a[0] as u32) < (b[0] as u32)
    } else {
        lex_less(a.drop_first(), b.drop_first())
    }
}

/// Whether `a < b` as strings.
pub fn str_less(a: &str, b: &str) -> (r: bool)
    ensures
        r == lex_less(a@, b@),
{
    let x = chars_of(a);
    let y = chars_of(b);
    let mut i: usize = 0;
    assert(x@.skip(0) =~= x@);
    assert(y@.skip(0) =~= y@);
    while i < x.len() && i < y.len()
        invariant
            i <= x@.len(),
            i <= y@.len(),
            x@ == a@,
            y@ == b@,
            x@.take(i as int) == y@.take(i as int),
            lex_less(a@, b@) == lex_less(x@.skip(i as int), y@.skip(i as int)),
        decreases x@.len() - i,
    {
        let ghost xs = x@.skip(i as int);
        let ghost ys = y@.skip(i as int);
        assert(xs[0] == x@[i as int]);
        assert(ys[0] == y@[i as int]);
        if x[i] != y[i] {
            return (x[i] as u32) < (y[i] as u32);
        }
        assert(xs.drop_first() =~= x@.skip(i + 1));
        assert(ys.drop_first() =~= y@.skip(i + 1));
        assert(x@.take(i + 1) =~= x@.take(i as int).push(x@[i as int]));
        assert(y@.take(i + 1) =~= y@.take(i as int).push(y@[i as int]));
        i = i + 1;
    }
    i == x.len() && i < y.len()
}

/// The decimal digits of `n`, most significant first, as `{}` prints an
/// unsigned integer.
pub open spec fn decimal(n: nat) -> Seq<char>
    decreases n,
{
    if n < 10 {
        seq![digit_char(n)]
    } else {
        decimal(n / 10) + seq![digit_char(n % 10)]
    }
}

/// The ASCII digit for `d < 10`.
pub open spec fn digit_char(d: nat) -> char {
    if d == 0 { '0' }
    else if d == 1 { '1' }
    else if d == 2 { '2' }
    else if d == 3 { '3' }
    else if d == 4 { '4' }
    else if d == 5 { '5' }
    else if d == 6 { '6' }
    else if d == 7 { '7' }
    else if d == 8 { '8' }
    else { '9' }
}

fn digit(d: u64) -> (c: char)
    requires
        d < 10,
    ensures
        c == digit_char(d as nat),
{
    if d == 0 { '0' }
    else if d == 1 { '1' }
    else if d == 2 { '2' }
    else if d == 3 { '3' }
    else if d == 4 { '4' }
    else if d == 5 { '5' }
    else if d == 6 { '6' }
    else if d == 7 { '7' }
    else if d == 8 { '8' }
    else { '9' }
}

/// Writes `n` in decimal.
pub fn decimal_string(n: u64) -> (r: String)
    ensures
        r@ == decimal(n as nat),
    decreases n,
{
    if n < 10 {
        let mut out = String::new();
        out.push(digit(n));
        assert(out@ =~= seq![digit_char(n as nat)]);
        out
    } else {
        let mut out = decimal_string(n / 10);
        out.push(digit(n % 10));
        out
    }
}


/// Whether `s` begins with `prefix`.
pub open spec fn has_prefix(s: Seq<char>, prefix: Seq<char>) -> bool {
    prefix.len() <= s.len() && s.take(prefix.len() as int) == prefix
}

/// Whether `s` begins with `prefix`, as `s.starts_with(prefix)` tells.
pub fn starts_with(s: &str, prefix: &str) -> (r: bool)
    ensures
        r == has_prefix(s@, prefix@),
{
    let x = chars_of(s);
    let p = chars_of(prefix);
    if p.len() > x.len() {
        return false;
    }
    let mut i: usize = 0;
    while i < p.len()
        invariant
            p@.len() <= x@.len(),
            i <= p@.len(),
            x@ == s@,
            p@ == prefix@,
            forall|j: int| 0 <= j < i ==> x@[j] == p@[j],
        decreases p@.len() - i,
    {
        if x[i] != p[i] {
            assert(s@.take(prefix@.len() as int)[i as int] != prefix@[i as int]);
            return false;
        }
        i = i + 1;
    }
    assert(s@.take(prefix@.len() as int) =~= prefix@);
    true
}

/// The text `{:?}` prints for a string: quoted, with special characters
/// escaped.
pub uninterp spec fn debug_text(s: Seq<char>) -> Seq<char>;

/// Formats a string with `{:?}` (`<str as Debug>::fmt`). The contract names
/// the result and states what std's source shows of it: the text is wrapped
/// in double quotes.
#[verifier::external_body]
fn debug_call(s: &str) -> (r: String)
    ensures
        r@ == debug_text(s@),
        r@.len() >= 2,
        r@[0] == '"',
        r@.last() == '"',
{
    format!("{:?}", s)
}

/// The string as `{:?}` prints it.
pub fn debug_string(s: &str) -> (r: String)
    ensures
        r@ == debug_text(s@),
{
    debug_call(s)
}


/// The text `{:?}` prints for a path: quoted, with special characters
/// escaped as `std::path::Path` escapes them.
pub uninterp spec fn path_debug_text(path: Seq<char>) -> Seq<char>;

/// Formats a path with `{:?}` (`<Path as Debug>::fmt`). The contract names the
/// result and states what std's source shows of it: the text is wrapped in
/// double quotes.
#[verifier::external_body]
fn path_debug_call(path: &str) -> (r: String)
    ensures
        r@ == path_debug_text(path@),
        r@.len() >= 2,
        r@[0] == '"',
        r@.last() == '"',
{
    format!("{:?}", std::path::Path::new(path))
}

/// The path as `{:?}` prints it.
pub fn debug_path(path: &str) -> (r: String)
    ensures
        r@ == path_debug_text(path@),
{
    path_debug_call(path)
}

} // verus!
