//! The text of EXIF exposure settings: which parts of an exposure time, an
//! f-number or an ISO value hold the numbers that the exposure values come from.

use vstd::prelude::*;

verus! {

/// The shape of an exposure time: a fraction `N/D`, a single number, or text with
/// more than one `/`.
#[derive(Debug, Clone)]
pub enum ExposureText {
    Fraction { numerator: String, denominator: String },
    Single(String),
    Malformed,
}

/// The shape of an exposure time, as text.
pub enum ExposureShape {
    Fraction(Seq<char>, Seq<char>),
    Single(Seq<char>),
    Malformed,
}

/// An exposure time is trimmed, then read as a fraction when it holds a `/`
/// (exactly two parts are needed) and as a single number otherwise.
pub open spec fn exposure_shape(s: Seq<char>) -> ExposureShape {
    let t = crate::text::trim(s);
    let parts = crate::text::split_on(t, '/');
    if parts.len() == 1 {
        ExposureShape::Single(t)
    } else if parts.len() == 2 {
        ExposureShape::Fraction(parts[0], parts[1])
    } else {
        ExposureShape::Malformed
    }
}

impl ExposureText {
    pub open spec fn shape(self) -> ExposureShape {
        match self {
            ExposureText::Fraction { numerator, denominator } => ExposureShape::Fraction(
                numerator@,
                denominator@,
            ),
            ExposureText::Single(t) => ExposureShape::Single(t@),
            ExposureText::Malformed => ExposureShape::Malformed,
        }
    }
}

/// Splits an exposure time such as `1/100` or `0.5` into the numbers it is made of.
pub fn exposure_time_text(s: &str) -> (r: ExposureText)
    ensures
        r.shape() == exposure_shape(s@),
{
    let t = crate::text::trim_str(s);
    let parts = crate::text::split_text(t.as_str(), '/');
    if parts.len() == 1 {
        ExposureText::Single(t)
    } else if parts.len() == 2 {
        ExposureText::Fraction { numerator: parts[0].clone(), denominator: parts[1].clone() }
    } else {
        ExposureText::Malformed
    }
}

/// The text after the first `c` of `s`, if `s` holds one.
pub open spec fn after_first(s: Seq<char>, c: char) -> Option<Seq<char>>
    decreases s.len(),
{
    if s.len() == 0 {
        None
    } else if s[0] == c {
        Some(s.drop_first())
    } else {
        after_first(s.drop_first(), c)
    }
}

/// The candidate numbers of an f-number: after the first `/` of an `f/8` form
/// (trimmed), if it has that form, and the whole trimmed text.
pub open spec fn f_number_candidates(s: Seq<char>) -> (Option<Seq<char>>, Seq<char>) {
    let t = crate::text::trim(s);
    let prefixed = t.len() > 0 && (t[0] == 'f' || t[0] == 'F');
    let after = if prefixed {
        match after_first(t, '/') {
            Some(a) => Some(crate::text::trim(a)),
            None => None,
        }
    } else {
        None
    };
    (after, t)
}

/// The texts an f-number is read from: first the number after `f/`, if any,
/// then the whole value.
pub fn f_number_text(s: &str) -> (r: (Option<String>, String))
    ensures
        (crate::text::opt_string_text(r.0), r.1@) == f_number_candidates(s@),
{
    let t = crate::text::trim_str(s);
    let cs = crate::text::chars_of(t.as_str());
    let prefixed = cs.len() > 0 && (cs[0] == 'f' || cs[0] == 'F');
    if !prefixed {
        return (None, t);
    }
    let mut i: usize = 0;
    assert(cs@.skip(0) =~= cs@);
    while i < cs.len()
        invariant
            i <= cs@.len(),
            cs@ == t@,
            t@.len() > 0 && (t@[0] == 'f' || t@[0] == 'F'),
            t@ == crate::text::trim(s@),
            after_first(t@, '/') == after_first(cs@.skip(i as int), '/'),
        decreases cs@.len() - i,
    {
        assert(cs@.skip(i as int)[0] == cs@[i as int]);
        if cs[i] == '/' {
            let rest = crate::text::trim_chars(vstd::slice::slice_subrange(cs.as_slice(), i + 1, cs.len()));
            assert(cs@.skip(i as int).drop_first() =~= cs@.subrange(i + 1, cs@.len() as int));
            let a = crate::text::string_of(rest.as_slice());
            return (Some(a), t);
        }
        assert(cs@.skip(i as int).drop_first() =~= cs@.skip(i + 1));
        i = i + 1;
    }
    assert(cs@.skip(cs@.len() as int) =~= Seq::<char>::empty());
    (None, t)
}

/// The number of an ISO value: the trimmed text without a leading `ISO` or `iso`.
pub open spec fn iso_number(s: Seq<char>) -> Seq<char> {
    let t = crate::text::trim(s);
    if crate::text::starts_with_seq(t, "ISO"@) || crate::text::starts_with_seq(t, "iso"@) {
        t.skip(3)
    } else {
        t
    }
}

/// The text an ISO value such as `ISO400` is read from.
pub fn iso_text(s: &str) -> (r: String)
    ensures
        r@ == iso_number(s@),
{
    let t = crate::text::trim_str(s);
    if crate::text::starts_with_str(t.as_str(), "ISO") || crate::text::starts_with_str(
        t.as_str(),
        "iso",
    ) {
        proof {
            reveal_strlit("ISO");
            reveal_strlit("iso");
        }
        let cs = crate::text::chars_of(t.as_str());
        let r = crate::text::string_of(vstd::slice::slice_subrange(cs.as_slice(), 3, cs.len()));
        assert(r@ =~= t@.skip(3));
        r
    } else {
        t
    }
}

} // verus!
