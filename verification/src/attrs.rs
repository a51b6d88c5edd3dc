//! Attribute extraction and the small string facts the walker needs: exact
//! string equality, substring search (for compression/precision hints), and
//! parsing a non-negative decimal integer.

use vstd::prelude::*;
use vstd::string::StrSliceExecFns;

use crate::models::MzmlError;
use crate::models::MzmlErrorV;

verus! {

/// Exact equality of two strings, as equality of their character sequences.
pub fn str_eq(a: &str, b: &str) -> (r: bool)
    ensures
        r == (a@ == b@),
{
    let owned_a: String = a.to_owned();
    let owned_b: String = b.to_owned();
    owned_a == owned_b
}

/// `needle` occurs contiguously somewhere in `hay`.
pub open spec fn has_substring(hay: Seq<char>, needle: Seq<char>) -> bool {
    exists|i: int|
        0 <= i && i + needle.len() <= hay.len() && #[trigger] hay.subrange(i, i + needle.len())
            == needle
}

/// Substring search: does `hay` contain `needle`?
pub fn contains_sub(hay: &str, needle: &str) -> (r: bool)
    ensures
        r == has_substring(hay@, needle@),
{
    let n = hay.unicode_len();
    let m = needle.unicode_len();
    if m > n {
        proof {
            assert forall|i: int| 0 <= i && i + needle@.len() <= hay@.len() implies #[trigger] hay@
                .subrange(i, i + needle@.len()) != needle@ by {}
        }
        return false;
    }
    if m == 0 {
        proof {
            assert(hay@.subrange(0, 0 + needle@.len() as int) =~= needle@);
        }
        return true;
    }
    let mut i: usize = 0;
    while i <= n - m
        invariant
            0 < m <= n,
            n == hay@.len(),
            m == needle@.len(),
            i <= n - m + 1,
            forall|k: int|
                0 <= k < i ==> #[trigger] hay@.subrange(k, k + needle@.len()) != needle@,
        decreases n - i,
    {
        let mut j: usize = 0;
        let mut mismatch = false;
        while j < m && !mismatch
            invariant
                m <= n,
                n == hay@.len(),
                m == needle@.len(),
                i + m <= n,
                j <= m,
                !mismatch ==> forall|t: int| 0 <= t < j ==> hay@[i + t] == needle@[t],
                mismatch ==> hay@.subrange(i as int, i + needle@.len()) != needle@,
            decreases m - j,
        {
            let hc = hay.get_char(i + j);
            let nc = needle.get_char(j);
            if hc != nc {
                proof {
                    assert(hay@.subrange(i as int, i + needle@.len())[j as int] == hay@[i + j]);
                }
                mismatch = true;
            }
            j += 1;
        }
        if !mismatch {
            proof {
                assert(hay@.subrange(i as int, i + needle@.len()) =~= needle@);
            }
            return true;
        }
        i += 1;
    }
    proof {
        assert forall|k: int| 0 <= k && k + needle@.len() <= hay@.len() implies #[trigger] hay@
            .subrange(k, k + needle@.len()) != needle@ by {
            assert(k < i);
        }
    }
    false
}

/// `c` is an ASCII decimal digit.
pub open spec fn is_digit(c: char) -> bool {
    48 <= c as u32 && c as u32 <= 57
}

/// The numeric value of a digit.
pub open spec fn digit_val(c: char) -> int {
    c as u32 - 48
}

/// Every character of `s` is an ASCII decimal digit.
pub open spec fn all_digits(s: Seq<char>) -> bool {
    forall|i: int| 0 <= i < s.len() ==> is_digit(#[trigger] s[i])
}

/// The value of a digit string read in base ten.
pub open spec fn dec_val(s: Seq<char>) -> int
    decreases s.len(),
{
    if s.len() == 0 {
        0
    } else {
        dec_val(s.drop_last()) * 10 + digit_val(s.last())
    }
}

/// What parsing a non-negative decimal integer yields: the value of a
/// non-empty all-digit string that fits in `usize`, and nothing otherwise.
pub open spec fn parse_usize_spec(s: Seq<char>) -> Option<usize> {
    if s.len() > 0 && all_digits(s) && dec_val(s) <= usize::MAX {
        Some(dec_val(s) as usize)
    } else {
        None
    }
}

proof fn lemma_dec_val_nonneg(s: Seq<char>)
    requires
        all_digits(s),
    ensures
        dec_val(s) >= 0,
    decreases s.len(),
{
    if s.len() > 0 {
        assert(all_digits(s.drop_last()));
        lemma_dec_val_nonneg(s.drop_last());
    }
}

proof fn lemma_dec_val_take_step(s: Seq<char>, i: int)
    requires
        0 <= i < s.len(),
    ensures
        dec_val(s.take(i + 1)) == dec_val(s.take(i)) * 10 + digit_val(s[i]),
{
    assert(s.take(i + 1).drop_last() =~= s.take(i));
    assert(s.take(i + 1).last() == s[i]);
}

proof fn lemma_dec_val_take_mono(s: Seq<char>, i: int, j: int)
    requires
        all_digits(s),
        0 <= i <= j <= s.len(),
    ensures
        dec_val(s.take(i)) <= dec_val(s.take(j)),
    decreases j - i,
{
    if i < j {
        lemma_dec_val_take_mono(s, i, j - 1);
        lemma_dec_val_take_step(s, j - 1);
        assert(all_digits(s.take(j - 1)));
        lemma_dec_val_nonneg(s.take(j - 1));
    }
}

/// Parse a non-negative decimal integer, failing on an empty string, any
/// non-digit character, or a value that does not fit in `usize`.
pub fn parse_usize(s: &str) -> (r: Result<usize, MzmlError>)
    ensures
        match parse_usize_spec(s@) {
            Some(n) => r matches Ok(v) && v == n,
            None => r matches Err(e) && e@ == MzmlErrorV::MalformedNumber(s@),
        },
{
    let n = s.unicode_len();
    if n == 0 {
        return Err(MzmlError::MalformedNumber(s.to_owned()));
    }
    let mut acc: usize = 0;
    let mut i: usize = 0;
    while i < n
        invariant
            i <= n,
            n == s@.len(),
            forall|k: int| 0 <= k < i ==> is_digit(#[trigger] s@[k]),
            acc == dec_val(s@.take(i as int)),
        decreases n - i,
    {
        let c = s.get_char(i);
        let u = c as u32;
        if u < 48 || u > 57 {
            assert(!is_digit(s@[i as int]));
            return Err(MzmlError::MalformedNumber(s.to_owned()));
        }
        let d = (u - 48) as usize;
        proof {
            lemma_dec_val_take_step(s@, i as int);
        }
        let widened = match acc.checked_mul(10) {
            Some(w) => w.checked_add(d),
            None => None,
        };
        match widened {
            Some(next) => {
                acc = next;
            },
            None => {
                proof {
                    if all_digits(s@) && dec_val(s@) <= usize::MAX {
                        lemma_dec_val_take_mono(s@, i + 1, s@.len() as int);
                        assert(s@.take(s@.len() as int) =~= s@);
                    }
                }
                return Err(MzmlError::MalformedNumber(s.to_owned()));
            },
        }
        i += 1;
    }
    proof {
        assert(s@.take(n as int) =~= s@);
    }
    Ok(acc)
}

/// The value of the first attribute named `name`, if any.
pub open spec fn find_attr(attrs: Seq<(Seq<char>, Seq<char>)>, name: Seq<char>) -> Option<
    Seq<char>,
>
    decreases attrs.len(),
{
    if attrs.len() == 0 {
        None
    } else if attrs[0].0 == name {
        Some(attrs[0].1)
    } else {
        find_attr(attrs.skip(1), name)
    }
}

/// Look an attribute up by name, yielding nothing when it is absent.
pub fn get_attr_optional(attrs: &Vec<(String, String)>, attr_name: &str) -> (r: Option<String>)
    ensures
        r.deep_view() == find_attr(attrs.deep_view(), attr_name@),
{
    proof {
        assert(attrs.deep_view().skip(0) =~= attrs.deep_view());
    }
    let mut i: usize = 0;
    while i < attrs.len()
        invariant
            i <= attrs@.len(),
            attrs.deep_view().len() == attrs@.len(),
            find_attr(attrs.deep_view(), attr_name@) == find_attr(
                attrs.deep_view().skip(i as int),
                attr_name@,
            ),
        decreases attrs@.len() - i,
    {
        if str_eq(attrs[i].0.as_str(), attr_name) {
            assert(attrs.deep_view().skip(i as int)[0] == attrs.deep_view()[i as int]);
            return Some(attrs[i].1.clone());
        }
        proof {
            assert(attrs.deep_view().skip(i as int)[0] == attrs.deep_view()[i as int]);
            assert(attrs.deep_view().skip(i as int).skip(1) =~= attrs.deep_view().skip(i + 1));
        }
        i += 1;
    }
    proof {
        assert(attrs.deep_view().skip(i as int).len() == 0);
    }
    None
}

/// Look a required attribute of `element` up by name, failing with
/// `MissingAttribute` when it is absent.
pub fn get_attr(attrs: &Vec<(String, String)>, element: &str, attr_name: &str) -> (r: Result<
    String,
    MzmlError,
>)
    ensures
        match find_attr(attrs.deep_view(), attr_name@) {
            Some(v) => r matches Ok(s) && s@ == v,
            None => r matches Err(e) && e@ == MzmlErrorV::MissingAttribute(element@, attr_name@),
        },
{
    match get_attr_optional(attrs, attr_name) {
        Some(v) => Ok(v),
        None => Err(MzmlError::MissingAttribute(element.to_owned(), attr_name.to_owned())),
    }
}

} // verus!
