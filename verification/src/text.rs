//! Text helpers shared by the library: decimal numbers, zero padding,
//! parsing of unsigned settings, whitespace trimming, comma separated lists.

use vstd::prelude::*;

verus! {

/// `String::push` appends one character.
pub assume_specification[ String::push ](string: &mut String, ch: char)
    ensures
        final(string)@ == old(string)@.push(ch),
;

/// The ASCII character of the decimal digit `d`.
pub open spec fn digit_char(d: nat) -> char {
    (48 + d) as char
}

/// Decimal representation of `n`, most significant digit first, as `{}` prints it.
pub open spec fn decimal(n: nat) -> Seq<char>
    decreases n,
{
    if n < 10 {
        seq![digit_char(n)]
    } else {
        decimal(n / 10).push(digit_char(n % 10))
    }
}

fn digit_of(d: u64) -> (c: char)
    requires
        d < 10,
    ensures
        c == digit_char(d as nat),
{
    let b: u8 = 48u8 + (d as u8);
    b as char
}

/// Appends the decimal representation of `n` to `out`.
pub fn push_decimal(out: &mut String, n: u64)
    ensures
        final(out)@ == old(out)@ + decimal(n as nat),
    decreases n,
{
    if n >= 10 {
        push_decimal(out, n / 10);
    }
    let c = digit_of(n % 10);
    out.push(c);
    proof {
        assert(old(out)@ + decimal(n as nat) =~= out@);
    }
}

/// `format!("{:03}", n)`: the decimal representation left-padded with zeros to three characters.
pub open spec fn padded3(n: nat) -> Seq<char> {
    if decimal(n).len() >= 3 {
        decimal(n)
    } else {
        Seq::new((3 - decimal(n).len()) as nat, |_i: int| '0') + decimal(n)
    }
}

proof fn lemma_decimal_len(n: nat)
    ensures
        1 <= decimal(n).len(),
        n < 10 ==> decimal(n).len() == 1,
        10 <= n < 100 ==> decimal(n).len() == 2,
        100 <= n ==> decimal(n).len() >= 3,
    decreases n,
{
    if n >= 10 {
        lemma_decimal_len(n / 10);
    }
}

/// Appends `n` zero-padded to at least three digits, as `{:03}` formats it.
pub fn push_padded3(out: &mut String, n: u64)
    ensures
        final(out)@ == old(out)@ + padded3(n as nat),
{
    proof {
        lemma_decimal_len(n as nat);
    }
    if n < 100 {
        out.push('0');
    }
    if n < 10 {
        out.push('0');
    }
    push_decimal(out, n);
    if n < 10 {
        assert(Seq::new((3 - decimal(n as nat).len()) as nat, |_i: int| '0') =~= seq!['0', '0']);
    } else if n < 100 {
        assert(Seq::new((3 - decimal(n as nat).len()) as nat, |_i: int| '0') =~= seq!['0']);
    }
    assert(out@ =~= old(out)@ + padded3(n as nat));
}

/// Whether `c` is an ASCII decimal digit.
pub open spec fn is_digit(c: char) -> bool {
    '0' <= c && c <= '9'
}

/// The value of a string of decimal digits (0 for the empty string).
pub open spec fn digits_value(s: Seq<char>) -> nat
    decreases s.len(),
{
    if s.len() == 0 {
        0
    } else {
        digits_value(s.drop_last()) * 10 + ((s.last() as int - 48) as nat)
    }
}

/// Whether every character of `s` is an ASCII decimal digit.
pub open spec fn all_digits(s: Seq<char>) -> bool {
    forall|i: int| 0 <= i < s.len() ==> is_digit(#[trigger] s[i])
}

/// `s` without one leading `+`, if it has one.
pub open spec fn unsigned_body(s: Seq<char>) -> Seq<char> {
    if s.len() > 0 && s[0] == '+' {
        s.drop_first()
    } else {
        s
    }
}

/// What `str::parse` gives for an unsigned integer type whose largest value is `max`:
/// an optional leading `+`, then one or more ASCII digits whose value is at most `max`.
pub open spec fn parse_unsigned(s: Seq<char>, max: nat) -> Option<nat> {
    let body = unsigned_body(s);
    if body.len() > 0 && all_digits(body) && digits_value(body) <= max {
        Some(digits_value(body))
    } else {
        None
    }
}

proof fn lemma_digits_value_prefix(s: Seq<char>, k: int)
    requires
        0 <= k <= s.len(),
        forall|i: int| 0 <= i < s.len() ==> is_digit(#[trigger] s[i]),
    ensures
        digits_value(s.take(k)) <= digits_value(s),
    decreases s.len(),
{
    if k < s.len() {
        assert(s.drop_last().take(k) =~= s.take(k));
        lemma_digits_value_prefix(s.drop_last(), k);
    } else {
        assert(s.take(k) =~= s);
    }
}

/// Collects the characters of `s`.
pub fn chars_of(s: &str) -> (v: Vec<char>)
    ensures
        v@ == s@,
{
    let n = s.unicode_len();
    let mut v: Vec<char> = Vec::new();
    let mut i: usize = 0;
    while i < n
        invariant
            n == s@.len(),
            i <= n,
            v@ == s@.take(i as int),
        decreases n - i,
    {
        let c = s.get_char(i);
        v.push(c);
        i = i + 1;
        assert(v@ =~= s@.take(i as int));
    }
    assert(s@.take(n as int) =~= s@);
    v
}

/// Parses `s` as an unsigned decimal number no larger than `max`, as `str::parse` does
/// for unsigned integer types.
pub fn parse_unsigned_str(s: &str, max: u64) -> (r: Option<u64>)
    ensures
        match r {
            Some(v) => parse_unsigned(s@, max as nat) == Some(v as nat),
            None => parse_unsigned(s@, max as nat) is None,
        },
{
    let v = chars_of(s);
    let n = v.len();
    let start: usize = if n > 0 && v[0] == '+' { 1 } else { 0 };
    let ghost body = unsigned_body(s@);
    assert(body =~= v@.skip(start as int));
    if start == n {
        assert(body.len() == 0);
        assert(parse_unsigned(s@, max as nat) is None);
        return None;
    }
    let mut acc: u64 = 0;
    let mut i: usize = start;
    while i < n
        invariant
            start <= i <= n,
            n == v@.len(),
            v@ == s@,
            body == unsigned_body(s@),
            body == v@.skip(start as int),
            forall|j: int| 0 <= j < i - start ==> is_digit(#[trigger] body[j]),
            acc as nat == digits_value(body.take(i - start)),
            acc <= max,
        decreases n - i,
    {
        let c = v[i];
        assert(body[i - start] == c);
        if !('0' <= c && c <= '9') {
            assert(!is_digit(body[i - start]));
            assert(!all_digits(body));
            return None;
        }
        let d: u64 = ((c as u32) - 48) as u64;
        assert(body.take(i - start + 1).drop_last() =~= body.take(i - start));
        if d > max || acc > (max - d) / 10 {
            proof {
                assert(forall|j: int| 0 <= j < i - start + 1 ==> is_digit(#[trigger] body[j]));
                let t = body.take(i - start + 1);
                assert(digits_value(t) == digits_value(body.take(i - start)) * 10 + d);
                if d <= max {
                    assert(acc * 10 + d > max) by (nonlinear_arith)
                        requires acc > (max - d) / 10, d <= max;
                }
                if all_digits(body) {
                    assert(body.take(i - start + 1).take(i - start + 1) =~= t);
                    lemma_digits_value_prefix(body, i - start + 1);
                }
            }
            return None;
        }
        acc = acc * 10 + d;
        i = i + 1;
    }
    assert(body.take(n - start) =~= body);
    Some(acc)
}

proof fn lemma_decimal_digits(n: nat)
    ensures
        all_digits(decimal(n)),
        digits_value(decimal(n)) == n,
        decimal(n).len() > 0,
    decreases n,
{
    assert(digit_char(n % 10) as int == 48 + n % 10);
    if n >= 10 {
        lemma_decimal_digits(n / 10);
        assert(decimal(n).drop_last() =~= decimal(n / 10));
        assert(decimal(n).last() == digit_char(n % 10));
        assert(digits_value(decimal(n)) == digits_value(decimal(n / 10)) * 10 + n % 10);
        assert((n / 10) * 10 + n % 10 == n);
        assert(digits_value(decimal(n)) == n);
        assert(all_digits(decimal(n)));
    } else {
        assert(decimal(n).drop_last() =~= Seq::<char>::empty());
        assert(digits_value(Seq::<char>::empty()) == 0);
        assert(decimal(n).last() == digit_char(n));
        assert(digits_value(decimal(n)) == n);
    }
}

/// Printing an unsigned number and parsing it back gives the number again,
/// as long as it fits the parsed type.
pub proof fn lemma_parse_decimal_roundtrip(n: nat, max: nat)
    requires
        n <= max,
    ensures
        parse_unsigned(decimal(n), max) == Some(n),
{
    lemma_decimal_digits(n);
    assert(is_digit(decimal(n)[0]));
    assert(unsigned_body(decimal(n)) == decimal(n));
}

/// The decimal representation of `n` as a new string.
pub fn decimal_string(n: u64) -> (s: String)
    ensures
        s@ == decimal(n as nat),
{
    let mut s = String::new();
    push_decimal(&mut s, n);
    assert(s@ =~= decimal(n as nat));
    s
}

/// Appends every character of `cs` to `out`.
pub fn push_chars(out: &mut String, cs: &[char])
    ensures
        final(out)@ == old(out)@ + cs@,
{
    let mut i: usize = 0;
    while i < cs.len()
        invariant
            i <= cs@.len(),
            out@ == old(out)@ + cs@.take(i as int),
        decreases cs@.len() - i,
    {
        out.push(cs[i]);
        i = i + 1;
        assert(out@ =~= old(out)@ + cs@.take(i as int));
    }
    assert(cs@.take(i as int) =~= cs@);
}

/// Appends the characters of `t` to `out`.
pub fn push_str(out: &mut String, t: &str)
    ensures
        final(out)@ == old(out)@ + t@,
{
    let cs = chars_of(t);
    push_chars(out, cs.as_slice());
}

/// A string holding the characters of `cs`.
pub fn string_of(cs: &[char]) -> (s: String)
    ensures
        s@ == cs@,
{
    let mut s = String::new();
    push_chars(&mut s, cs);
    assert(s@ =~= cs@);
    s
}

/// Unicode `White_Space`, the characters that `char::is_whitespace` and `str::trim` treat as white space.
pub open spec fn is_white_space(c: char) -> bool {
    let u = c as u32;
    (0x09 <= u && u <= 0x0D) || u == 0x20 || u == 0x85 || u == 0xA0 || u == 0x1680 || (0x2000
        <= u && u <= 0x200A) || u == 0x2028 || u == 0x2029 || u == 0x202F || u == 0x205F || u
        == 0x3000
}

fn white_space(c: char) -> (b: bool)
    ensures
        b == is_white_space(c),
{
    let u = c as u32;
    (0x09 <= u && u <= 0x0D) || u == 0x20 || u == 0x85 || u == 0xA0 || u == 0x1680 || (0x2000
        <= u && u <= 0x200A) || u == 0x2028 || u == 0x2029 || u == 0x202F || u == 0x205F || u
        == 0x3000
}

/// `s` without its leading white space.
pub open spec fn trim_start(s: Seq<char>) -> Seq<char>
    decreases s.len(),
{
    if s.len() > 0 && is_white_space(s[0]) {
        trim_start(s.drop_first())
    } else {
        s
    }
}

/// `s` without its trailing white space.
pub open spec fn trim_end(s: Seq<char>) -> Seq<char>
    decreases s.len(),
{
    if s.len() > 0 && is_white_space(s.last()) {
        trim_end(s.drop_last())
    } else {
        s
    }
}

/// `s` without leading and trailing white space, as `str::trim` gives it.
pub open spec fn trim(s: Seq<char>) -> Seq<char> {
    trim_end(trim_start(s))
}

/// `trim` on a character slice.
pub fn trim_chars(cs: &[char]) -> (r: Vec<char>)
    ensures
        r@ == trim(cs@),
{
    let n = cs.len();
    let mut i: usize = 0;
    assert(cs@.skip(0) =~= cs@);
    while i < n && white_space(cs[i])
        invariant
            n == cs@.len(),
            i <= n,
            trim_start(cs@) == trim_start(cs@.skip(i as int)),
        decreases n - i,
    {
        assert(cs@.skip(i as int).drop_first() =~= cs@.skip(i + 1));
        i = i + 1;
    }
    let ghost st = cs@.skip(i as int);
    assert(trim_start(cs@) == st);
    let mut j: usize = n;
    while j > i && white_space(cs[j - 1])
        invariant
            n == cs@.len(),
            i <= j <= n,
            st == cs@.skip(i as int),
            trim_end(st) == trim_end(cs@.subrange(i as int, j as int)),
        decreases j,
    {
        assert(cs@.subrange(i as int, j as int).drop_last() =~= cs@.subrange(i as int, j - 1));
        j = j - 1;
    }
    assert(trim_end(st) == cs@.subrange(i as int, j as int));
    let mut r: Vec<char> = Vec::new();
    let mut k: usize = i;
    while k < j
        invariant
            i <= k <= j <= n,
            n == cs@.len(),
            r@ == cs@.subrange(i as int, k as int),
        decreases j - k,
    {
        r.push(cs[k]);
        k = k + 1;
        assert(r@ =~= cs@.subrange(i as int, k as int));
    }
    assert(st =~= cs@.subrange(i as int, n as int));
    r
}

/// `str::trim` as a new string.
pub fn trim_str(s: &str) -> (r: String)
    ensures
        r@ == trim(s@),
{
    let cs = chars_of(s);
    let t = trim_chars(cs.as_slice());
    string_of(t.as_slice())
}

/// The lowercase form of `s` as `str::to_lowercase` gives it (Unicode `Lowercase` mapping).
pub uninterp spec fn lowercase(s: Seq<char>) -> Seq<char>;

/// Whether every character of `s` is ASCII.
pub open spec fn is_ascii_text(s: Seq<char>) -> bool {
    forall|i: int| 0 <= i < s.len() ==> (#[trigger] s[i] as int) < 128
}

/// The ASCII lowercase of `c`: `A`..=`Z` become `a`..=`z`, every other character stays.
pub open spec fn ascii_lower(c: char) -> char {
    if 65 <= (c as int) <= 90 {
        ((c as int) + 32) as char
    } else {
        c
    }
}

/// `str::to_lowercase`. The contract names the result; of the Unicode case
/// mapping it states only what it does to ASCII text (uppercase letters
/// become lowercase, every other character stays), not the rest.
#[verifier::external_body]
pub(crate) fn to_lowercase(s: &str) -> (r: String)
    ensures
        r@ == lowercase(s@),
        is_ascii_text(s@) ==> r@ == s@.map_values(|c: char| ascii_lower(c)),
{
    s.to_lowercase()
}

/// The pieces of `s` between the occurrences of `sep`, as `str::split` yields them.
pub open spec fn split_on(s: Seq<char>, sep: char) -> Seq<Seq<char>>
    decreases s.len(),
{
    if s.len() == 0 {
        seq![Seq::empty()]
    } else if s.last() == sep {
        split_on(s.drop_last(), sep).push(Seq::empty())
    } else {
        let p = split_on(s.drop_last(), sep);
        p.update(p.len() - 1, p.last().push(s.last()))
    }
}

proof fn lemma_split_on_nonempty(s: Seq<char>, sep: char)
    ensures
        split_on(s, sep).len() >= 1,
    decreases s.len(),
{
    if s.len() > 0 {
        lemma_split_on_nonempty(s.drop_last(), sep);
    }
}

/// The trimmed pieces that are not empty, in order.
pub open spec fn kept_trimmed(pieces: Seq<Seq<char>>) -> Seq<Seq<char>>
    decreases pieces.len(),
{
    if pieces.len() == 0 {
        Seq::empty()
    } else {
        let rest = kept_trimmed(pieces.drop_last());
        let t = trim(pieces.last());
        if t.len() > 0 {
            rest.push(t)
        } else {
            rest
        }
    }
}

/// A comma separated list as the settings hold it: split at commas, each item
/// trimmed, empty items dropped.
pub open spec fn settings_list(s: Seq<char>) -> Seq<Seq<char>> {
    kept_trimmed(split_on(s, ','))
}

/// The text of each string of `v`.
pub open spec fn texts(v: Seq<String>) -> Seq<Seq<char>> {
    v.map_values(|x: String| x@)
}

fn split_chars(cs: &[char], sep: char) -> (r: Vec<Vec<char>>)
    ensures
        r@.len() == split_on(cs@, sep).len(),
        forall|k: int| 0 <= k < r@.len() ==> #[trigger] r@[k]@ == split_on(cs@, sep)[k],
{
    let mut pieces: Vec<Vec<char>> = Vec::new();
    let mut current: Vec<char> = Vec::new();
    let mut i: usize = 0;
    while i < cs.len()
        invariant
            i <= cs@.len(),
            pieces@.len() + 1 == split_on(cs@.take(i as int), sep).len(),
            forall|k: int| 0 <= k < pieces@.len() ==> #[trigger] pieces@[k]@ == split_on(cs@.take(i as int), sep)[k],
            current@ == split_on(cs@.take(i as int), sep).last(),
        decreases cs@.len() - i,
    {
        let ghost prev = cs@.take(i as int);
        proof {
            lemma_split_on_nonempty(prev, sep);
        }
        assert(cs@.take(i + 1).drop_last() =~= prev);
        assert(cs@.take(i + 1).last() == cs@[i as int]);
        let c = cs[i];
        if c == sep {
            pieces.push(current);
            current = Vec::new();
        } else {
            current.push(c);
        }
        i = i + 1;
    }
    assert(cs@.take(cs@.len() as int) =~= cs@);
    proof {
        lemma_split_on_nonempty(cs@, sep);
    }
    pieces.push(current);
    pieces
}

/// The items of a comma separated settings list: split at commas, trimmed,
/// empty items dropped.
pub fn split_settings_list(s: &str) -> (r: Vec<String>)
    ensures
        texts(r@) == settings_list(s@),
{
    let cs = chars_of(s);
    let pieces = split_chars(cs.as_slice(), ',');
    let ghost ps = split_on(s@, ',');
    let mut out: Vec<String> = Vec::new();
    let mut i: usize = 0;
    while i < pieces.len()
        invariant
            i <= pieces@.len(),
            pieces@.len() == ps.len(),
            forall|k: int| 0 <= k < pieces@.len() ==> #[trigger] pieces@[k]@ == ps[k],
            texts(out@) == kept_trimmed(ps.take(i as int)),
        decreases pieces@.len() - i,
    {
        assert(ps.take(i + 1).drop_last() =~= ps.take(i as int));
        assert(ps.take(i + 1).last() == ps[i as int]);
        let t = trim_chars(pieces[i].as_slice());
        if t.len() > 0 {
            let item = string_of(t.as_slice());
            out.push(item);
            assert(texts(out@) =~= texts(out@.drop_last()).push(item@));
        }
        i = i + 1;
    }
    assert(ps.take(ps.len() as int) =~= ps);
    out
}

/// `items` joined with `sep` between them, as `[String]::join` builds it.
pub open spec fn joined(items: Seq<Seq<char>>, sep: Seq<char>) -> Seq<char>
    decreases items.len(),
{
    if items.len() == 0 {
        Seq::empty()
    } else if items.len() == 1 {
        items[0]
    } else {
        joined(items.drop_last(), sep) + sep + items.last()
    }
}

/// Joins `items` with `sep` between them.
pub fn join_strings(items: &[String], sep: &str) -> (r: String)
    ensures
        r@ == joined(texts(items@), sep@),
{
    let mut out = String::new();
    let mut i: usize = 0;
    while i < items.len()
        invariant
            i <= items@.len(),
            out@ == joined(texts(items@.take(i as int)), sep@),
        decreases items@.len() - i,
    {
        assert(texts(items@.take(i + 1)).drop_last() =~= texts(items@.take(i as int)));
        if i > 0 {
            push_str(&mut out, sep);
        }
        push_str(&mut out, items[i].as_str());
        i = i + 1;
        assert(out@ =~= joined(texts(items@.take(i as int)), sep@));
    }
    assert(items@.take(items@.len() as int) =~= items@);
    out
}

/// The items that a settings list can hold unchanged: not empty, without commas,
/// without white space at either end.
pub open spec fn is_list_item(t: Seq<char>) -> bool {
    &&& t.len() > 0
    &&& trim(t) == t
    &&& forall|i: int| 0 <= i < t.len() ==> #[trigger] t[i] != ','
}

proof fn lemma_split_without_sep(x: Seq<char>, sep: char)
    requires
        forall|i: int| 0 <= i < x.len() ==> #[trigger] x[i] != sep,
    ensures
        split_on(x, sep) == seq![x],
    decreases x.len(),
{
    if x.len() > 0 {
        lemma_split_without_sep(x.drop_last(), sep);
        assert(x.last() != sep);
        let p = split_on(x.drop_last(), sep);
        assert(p == seq![x.drop_last()]);
        assert(x.drop_last().push(x.last()) =~= x);
        assert(p.update(p.len() - 1, p.last().push(x.last())) =~= seq![x]);
    } else {
        assert(x =~= Seq::<char>::empty());
    }
}

proof fn lemma_split_after_sep(a: Seq<char>, x: Seq<char>, sep: char)
    requires
        forall|i: int| 0 <= i < x.len() ==> #[trigger] x[i] != sep,
    ensures
        split_on(a.push(sep) + x, sep) == split_on(a, sep).push(x),
    decreases x.len(),
{
    if x.len() == 0 {
        assert(a.push(sep) + x =~= a.push(sep));
        assert(a.push(sep).drop_last() =~= a);
        assert(x =~= Seq::<char>::empty());
    } else {
        lemma_split_after_sep(a, x.drop_last(), sep);
        let whole = a.push(sep) + x;
        assert(whole.drop_last() =~= a.push(sep) + x.drop_last());
        assert(whole.last() == x.last());
        assert(x.last() != sep);
        assert(x.drop_last().push(x.last()) =~= x);
        lemma_split_on_nonempty(a, sep);
        let p = split_on(whole.drop_last(), sep);
        assert(p == split_on(a, sep).push(x.drop_last()));
        assert(p.update(p.len() - 1, p.last().push(x.last())) =~= split_on(a, sep).push(x));
    }
}

proof fn lemma_split_joined(items: Seq<Seq<char>>)
    requires
        items.len() > 0,
        forall|k: int| 0 <= k < items.len() ==> is_list_item(#[trigger] items[k]),
    ensures
        split_on(joined(items, seq![',']), ',') == items,
    decreases items.len(),
{
    let last = items.last();
    assert(is_list_item(items[items.len() - 1]));
    if items.len() == 1 {
        lemma_split_without_sep(items[0], ',');
        assert(seq![items[0]] =~= items);
    } else {
        let init = items.drop_last();
        assert forall|k: int| 0 <= k < init.len() implies is_list_item(#[trigger] init[k]) by {
            assert(init[k] == items[k]);
        }
        lemma_split_joined(init);
        assert(joined(init, seq![',']) + seq![','] + last =~= joined(init, seq![',']).push(',')
            + last);
        lemma_split_after_sep(joined(init, seq![',']), last, ',');
        assert(init.push(last) =~= items);
    }
}

proof fn lemma_kept_trimmed_items(items: Seq<Seq<char>>)
    requires
        forall|k: int| 0 <= k < items.len() ==> is_list_item(#[trigger] items[k]),
    ensures
        kept_trimmed(items) == items,
    decreases items.len(),
{
    if items.len() > 0 {
        let init = items.drop_last();
        assert forall|k: int| 0 <= k < init.len() implies is_list_item(#[trigger] init[k]) by {
            assert(init[k] == items[k]);
        }
        lemma_kept_trimmed_items(init);
        assert(is_list_item(items[items.len() - 1]));
        assert(init.push(items.last()) =~= items);
    }
}

/// Joining the items of a settings list with commas and reading the list back
/// gives the same items, as long as each item is a valid list item.
pub proof fn lemma_settings_list_roundtrip(items: Seq<Seq<char>>)
    requires
        forall|k: int| 0 <= k < items.len() ==> is_list_item(#[trigger] items[k]),
    ensures
        settings_list(joined(items, seq![','])) == items,
{
    if items.len() == 0 {
        assert(split_on(Seq::<char>::empty(), ',') =~= seq![Seq::<char>::empty()]);
        assert(trim(Seq::<char>::empty()) =~= Seq::<char>::empty());
        assert(seq![Seq::<char>::empty()].drop_last() =~= Seq::<Seq<char>>::empty());
        assert(kept_trimmed(Seq::<Seq<char>>::empty()) == Seq::<Seq<char>>::empty());
        assert(kept_trimmed(seq![Seq::<char>::empty()]) =~= Seq::<Seq<char>>::empty());
    } else {
        lemma_split_joined(items);
        lemma_kept_trimmed_items(items);
    }
}

/// `needle` occurs somewhere in `hay`.
pub open spec fn contains_seq(hay: Seq<char>, needle: Seq<char>) -> bool {
    exists|i: int|
        0 <= i && i + needle.len() <= hay.len() && #[trigger] hay.subrange(i, i + needle.len())
            == needle
}

fn matches_at(h: &Vec<char>, n: &Vec<char>, i: usize) -> (r: bool)
    requires
        i + n@.len() <= h@.len(),
    ensures
        r == (h@.subrange(i as int, i + n@.len()) == n@),
{
    let hl = h.len();
    let mut k: usize = 0;
    while k < n.len()
        invariant
            k <= n@.len(),
            hl == h@.len(),
            i + n@.len() <= h@.len(),
            h@.subrange(i as int, i + k) == n@.take(k as int),
        decreases n@.len() - k,
    {
        if h[i + k] != n[k] {
            assert(h@.subrange(i as int, i + n@.len())[k as int] != n@[k as int]);
            return false;
        }
        k = k + 1;
        assert(h@.subrange(i as int, i + k) =~= n@.take(k as int));
    }
    assert(n@.take(n@.len() as int) =~= n@);
    true
}

/// Whether `needle` occurs in `hay`, as `str::contains` answers it for a string pattern.
pub fn contains_str(hay: &str, needle: &str) -> (r: bool)
    ensures
        r == contains_seq(hay@, needle@),
{
    let h = chars_of(hay);
    let n = chars_of(needle);
    if n.len() > h.len() {
        return false;
    }
    let last = h.len() - n.len();
    let mut i: usize = 0;
    loop
        invariant
            i <= last,
            last == h@.len() - n@.len(),
            n@.len() <= h@.len(),
            h@ == hay@,
            n@ == needle@,
            forall|j: int| 0 <= j < i ==> #[trigger] h@.subrange(j, j + n@.len()) != n@,
        decreases last - i,
    {
        if matches_at(&h, &n, i) {
            return true;
        }
        if i == last {
            assert forall|j: int|
                0 <= j && j + needle@.len() <= hay@.len() implies #[trigger] hay@.subrange(
                j,
                j + needle@.len(),
            ) != needle@ by {
                assert(j <= last);
            }
            return false;
        }
        i = i + 1;
    }
}

/// `s` begins with `prefix`.
pub open spec fn starts_with_seq(s: Seq<char>, prefix: Seq<char>) -> bool {
    prefix.len() <= s.len() && s.take(prefix.len() as int) == prefix
}

/// Whether `s` begins with `prefix`, as `str::starts_with` answers it for a string pattern.
pub fn starts_with_str(s: &str, prefix: &str) -> (r: bool)
    ensures
        r == starts_with_seq(s@, prefix@),
{
    let h = chars_of(s);
    let n = chars_of(prefix);
    if n.len() > h.len() {
        return false;
    }
    let r = matches_at(&h, &n, 0);
    assert(h@.subrange(0, n@.len() as int) =~= h@.take(n@.len() as int));
    r
}

/// A new string holding the text of the literal `t`.
pub fn owned(t: &str) -> (r: String)
    ensures
        r@ == t@,
{
    String::from_str(t)
}

/// The text of an optional string.
pub open spec fn opt_string_text(o: Option<String>) -> Option<Seq<char>> {
    match o {
        Some(t) => Some(t@),
        None => None,
    }
}

/// A copy of an optional string.
pub fn clone_opt(o: &Option<String>) -> (r: Option<String>)
    ensures
        opt_string_text(r) == opt_string_text(*o),
{
    match o {
        Some(s) => Some(s.clone()),
        None => None,
    }
}

/// Whether `s` holds exactly the text of `lit`.
pub fn equals_text(s: &String, lit: &str) -> (r: bool)
    ensures
        r == (s@ == lit@),
{
    let t = owned(lit);
    s.eq(&t)
}

/// Strict lexicographic order of character sequences, comparing characters by
/// code point; it is the order in which `String` compares paths.
pub open spec fn lex_lt(a: Seq<char>, b: Seq<char>) -> bool
    decreases a.len(),
{
    if b.len() == 0 {
        false
    } else if a.len() == 0 {
        true
    } else if (a[0] as u32) != (b[0] as u32) {
        (a[0] as u32) < (b[0] as u32)
    } else {
        lex_lt(a.drop_first(), b.drop_first())
    }
}

pub(crate) proof fn lemma_lex_lt_asym(a: Seq<char>, b: Seq<char>)
    ensures
        lex_lt(a, b) ==> !lex_lt(b, a),
    decreases a.len(),
{
    if a.len() > 0 && b.len() > 0 && (a[0] as u32) == (b[0] as u32) {
        lemma_lex_lt_asym(a.drop_first(), b.drop_first());
    }
}

pub(crate) proof fn lemma_lex_le_trans(a: Seq<char>, b: Seq<char>, c: Seq<char>)
    requires
        !lex_lt(b, a),
        !lex_lt(c, b),
    ensures
        !lex_lt(c, a),
    decreases a.len(),
{
    if a.len() > 0 && b.len() > 0 && c.len() > 0 && (a[0] as u32) == (b[0] as u32) && (b[0] as u32)
        == (c[0] as u32) {
        lemma_lex_le_trans(a.drop_first(), b.drop_first(), c.drop_first());
    }
}

/// Compares two paths in the order of `lex_lt`.
pub fn path_less(a: &str, b: &str) -> (r: bool)
    ensures
        r == lex_lt(a@, b@),
{
    let x = chars_of(a);
    let y = chars_of(b);
    let mut i: usize = 0;
    assert(a@.skip(0) =~= a@);
    assert(b@.skip(0) =~= b@);
    while i < x.len() && i < y.len() && (x[i] as u32) == (y[i] as u32)
        invariant
            i <= x@.len(),
            i <= y@.len(),
            x@ == a@,
            y@ == b@,
            lex_lt(a@, b@) == lex_lt(a@.skip(i as int), b@.skip(i as int)),
        decreases x@.len() - i,
    {
        assert(a@.skip(i as int).drop_first() =~= a@.skip(i + 1));
        assert(b@.skip(i as int).drop_first() =~= b@.skip(i + 1));
        i = i + 1;
    }
    if i == y.len() {
        false
    } else if i == x.len() {
        true
    } else {
        (x[i] as u32) < (y[i] as u32)
    }
}

/// The strings are in ascending order of `lex_lt`.
pub open spec fn sorted_texts(v: Seq<String>) -> bool {
    forall|i: int, j: int| 0 <= i < j < v.len() ==> !lex_lt(v[j]@, v[i]@)
}

/// Orders `v` ascending, as `sort` orders strings; equal strings keep their order.
pub fn sort_texts(v: &mut Vec<String>)
    ensures
        sorted_texts(final(v)@),
        final(v)@.to_multiset() == old(v)@.to_multiset(),
{
    broadcast use vstd::seq_lib::group_to_multiset_ensures;

    let n = v.len();
    if n == 0 {
        return;
    }
    let mut i: usize = 1;
    while i < n
        invariant
            1 <= i <= n,
            v@.len() == n,
            v@.to_multiset() == old(v)@.to_multiset(),
            sorted_texts(v@.take(i as int)),
        decreases n - i,
    {
        let ghost before = v@;
        let x = v.remove(i);
        let mut j: usize = i;
        while j > 0 && path_less(x.as_str(), v[j - 1].as_str())
            invariant
                0 <= j <= i < n,
                v@.len() == n - 1,
                v@ == before.remove(i as int),
                x == before[i as int],
                forall|k: int| j <= k < i ==> #[trigger] lex_lt(x@, v@[k]@),
            decreases j,
        {
            j = j - 1;
        }
        let ghost removed = v@;
        v.insert(j, x);
        proof {
            broadcast use vstd::multiset::group_multiset_axioms;

            vstd::seq_lib::to_multiset_remove(before, i as int);
            vstd::seq_lib::to_multiset_insert(removed, j as int, x);
            assert(before.to_multiset().contains(x)) by {
                vstd::seq_lib::to_multiset_contains(before, x);
                assert(before.contains(x)) by {
                    assert(before[i as int] == x);
                }
            }
            assert(v@.to_multiset() =~= before.to_multiset());
            let t = v@.take(i + 1);
            assert forall|a: int, b: int| 0 <= a < b < t.len() implies !lex_lt(t[b]@, t[a]@) by {
                let pa = t[a]@;
                let pb = t[b]@;
                if a < j && b < j {
                    assert(t[a] == before[a] && t[b] == before[b]);
                } else if a < j && b == j {
                    assert(!lex_lt(x@, removed[j - 1]@));
                    if a < j - 1 {
                        assert(t[a] == before[a]);
                        assert(removed[j - 1] == before[j - 1]);
                        lemma_lex_le_trans(pa, removed[j - 1]@, x@);
                    }
                } else if a < j {
                    assert(t[a] == before[a] && t[b] == before[b - 1]);
                } else if a == j {
                    assert(t[b] == removed[b - 1]);
                    assert(lex_lt(x@, removed[b - 1]@));
                    lemma_lex_lt_asym(x@, pb);
                } else {
                    assert(t[a] == before[a - 1] && t[b] == before[b - 1]);
                }
            }
        }
        i = i + 1;
    }
    assert(v@.take(n as int) =~= v@);
}

/// Appends a copy of each string of `items` to `out`.
pub fn push_all(out: &mut Vec<String>, items: &[String])
    ensures
        texts(final(out)@) == texts(old(out)@) + texts(items@),
{
    let ghost start = texts(out@);
    let mut i: usize = 0;
    while i < items.len()
        invariant
            i <= items@.len(),
            texts(out@) == start + texts(items@.take(i as int)),
        decreases items@.len() - i,
    {
        let ghost before = out@;
        let x = items[i].clone();
        out.push(x);
        assert(texts(out@) =~= texts(before).push(x@));
        assert(texts(items@.take(i + 1)) =~= texts(items@.take(i as int)).push(items@[i as int]@));
        i = i + 1;
    }
    assert(items@.take(items@.len() as int) =~= items@);
}

/// Appends the text of `lit` to `out`.
pub fn push_text(out: &mut Vec<String>, lit: &str)
    ensures
        texts(final(out)@) == texts(old(out)@).push(lit@),
{
    let ghost before = out@;
    let x = owned(lit);
    out.push(x);
    assert(texts(out@) =~= texts(before).push(lit@));
}

/// Appends a copy of `s` to `out`.
pub fn push_copy(out: &mut Vec<String>, s: &String)
    ensures
        texts(final(out)@) == texts(old(out)@).push(s@),
{
    let ghost before = out@;
    let x = s.clone();
    out.push(x);
    assert(texts(out@) =~= texts(before).push(s@));
}

/// The pieces of `s` between the occurrences of `sep`, as `str::split` gives them.
pub fn split_text(s: &str, sep: char) -> (r: Vec<String>)
    ensures
        texts(r@) == split_on(s@, sep),
{
    let cs = chars_of(s);
    let pieces = split_chars(cs.as_slice(), sep);
    let ghost ps = split_on(s@, sep);
    let mut out: Vec<String> = Vec::new();
    let mut i: usize = 0;
    while i < pieces.len()
        invariant
            i <= pieces@.len(),
            pieces@.len() == ps.len(),
            forall|k: int| 0 <= k < pieces@.len() ==> #[trigger] pieces@[k]@ == ps[k],
            texts(out@) == ps.take(i as int),
        decreases pieces@.len() - i,
    {
        let item = string_of(pieces[i].as_slice());
        let ghost before = out@;
        out.push(item);
        assert(texts(out@) =~= texts(before).push(item@));
        assert(ps.take(i + 1) =~= ps.take(i as int).push(ps[i as int]));
        i = i + 1;
    }
    assert(ps.take(ps.len() as int) =~= ps);
    out
}

/// The decimal representation of `n` left-padded with zeros to `width` characters,
/// as `{:0width$}` formats it.
pub open spec fn zero_padded(n: nat, width: nat) -> Seq<char> {
    if decimal(n).len() >= width {
        decimal(n)
    } else {
        Seq::new((width - decimal(n).len()) as nat, |_i: int| '0') + decimal(n)
    }
}

/// Appends `n` zero-padded to at least `width` digits.
pub fn push_zero_padded(out: &mut String, n: u64, width: usize)
    ensures
        final(out)@ == old(out)@ + zero_padded(n as nat, width as nat),
{
    let digits = decimal_string(n);
    let len = digits.as_str().unicode_len();
    proof {
        lemma_decimal_len(n as nat);
    }
    if len < width {
        let mut k: usize = len;
        let ghost start = out@;
        while k < width
            invariant
                len <= k <= width,
                len == decimal(n as nat).len(),
                out@ == start + Seq::new((k - len) as nat, |_i: int| '0'),
            decreases width - k,
        {
            out.push('0');
            k = k + 1;
            assert(out@ =~= start + Seq::new((k - len) as nat, |_i: int| '0'));
        }
    }
    let ghost before = out@;
    push_str(out, digits.as_str());
    assert(out@ =~= old(out)@ + zero_padded(n as nat, width as nat));
}

} // verus!
