//! The validated prefix type and the two engine operations, strict
//! validation and canonicalization.

use vstd::prelude::*;
use vstd::string::StrSliceExecFns;

use crate::error::ValidationError;
use crate::rules::{
    is_lowercase_letter, is_prefix_char, is_valid_prefix, lower_char, lowered, filtered,
    prefix_char_pred, spec_canonicalize, spec_validate, trim_trailing, truncated,
    MAX_PREFIX_LEN,
};

verus! {

/// Relies on `alloc::string::String::push`: appends the given character to
/// the end of the string.
pub assume_specification[ String::push ](s: &mut String, ch: char)
    ensures
        final(s)@ == old(s)@.push(ch),
;

/// Represents a valid `TypeID` prefix.
///
/// A `TypeIdPrefix` is guaranteed to:
/// - Have a maximum length of 63 characters
/// - Contain only lowercase ASCII letters and underscores
/// - Not start or end with an underscore
/// - Start and end with a lowercase letter when non-empty
///
/// Values are constructed only through [`TypeIdPrefix::validate`], the
/// factory methods of [`crate::PrefixFactory`], or [`Default::default`];
/// each establishes the invariant above, and the value never changes
/// afterwards.
#[derive(Debug, Eq, Hash)]
pub struct TypeIdPrefix {
    value: String,
}

impl Clone for TypeIdPrefix {
    fn clone(&self) -> (r: Self)
        ensures
            r@ == self@,
    {
        proof {
            use_type_invariant(self);
        }
        TypeIdPrefix { value: self.value.clone() }
    }
}

impl View for TypeIdPrefix {
    type V = Seq<char>;

    closed spec fn view(&self) -> Seq<char> {
        self.value@
    }
}

impl PartialEq for TypeIdPrefix {
    fn eq(&self, other: &Self) -> (r: bool) {
        self.value == other.value
    }
}

impl vstd::std_specs::cmp::PartialEqSpecImpl for TypeIdPrefix {
    open spec fn obeys_eq_spec() -> bool {
        true
    }

    open spec fn eq_spec(&self, other: &Self) -> bool {
        self@ == other@
    }
}

impl Default for TypeIdPrefix {
    /// Returns the empty prefix, the designated fallback value.
    fn default() -> (r: Self)
        ensures
            r@ == Seq::<char>::empty(),
    {
        TypeIdPrefix { value: String::new() }
    }
}

/// `r` says whether `c` is a lowercase ASCII letter.
fn char_is_lowercase_letter(c: char) -> (r: bool)
    ensures
        r == is_lowercase_letter(c),
{
    let u = c as u32;
    97 <= u && u <= 122
}

/// `r` says whether `c` may appear in a valid prefix.
fn char_is_prefix(c: char) -> (r: bool)
    ensures
        r == is_prefix_char(c),
{
    let u = c as u32;
    (97 <= u && u <= 122) || c == '_'
}

/// Maps an uppercase ASCII letter to its lowercase counterpart and leaves
/// every other character unchanged.
fn char_lower(c: char) -> (r: char)
    ensures
        r == lower_char(c),
{
    let u = c as u32;
    if 65 <= u && u <= 90 {
        ((u + 32) as u8) as char
    } else {
        c
    }
}

impl TypeIdPrefix {
    #[verifier::type_invariant]
    spec fn wf(self) -> bool {
        is_valid_prefix(self.value@)
    }

    /// Checks `input` against the prefix rules and wraps it verbatim on
    /// success; on failure returns the first broken rule, in the fixed
    /// order given by [`spec_validate`].
    #[verifier::loop_isolation(false)]
    pub fn validate(input: &str) -> (r: Result<Self, ValidationError>)
        ensures
            match r {
                Ok(p) => spec_validate(input@) == Ok::<(), ValidationError>(()) && p@ == input@,
                Err(e) => spec_validate(input@) == Err::<(), ValidationError>(e),
            },
    {
        let bytes: &[u8] = input.as_bytes();
        if bytes.len() > MAX_PREFIX_LEN {
            return Err(ValidationError::ExceedsMaxLength);
        }
        if input.is_empty() {
            return Ok(TypeIdPrefix { value: input.to_owned() });
        }
        if !input.is_ascii() {
            return Err(ValidationError::ContainsInvalidCharacters);
        }
        proof {
            vstd::utf8::is_ascii_chars_encode_utf8(input@);
        }
        let n = input.unicode_len();
        let first = input.get_char(0);
        let last = input.get_char(n - 1);
        if first == '_' {
            return Err(ValidationError::StartsWithUnderscore);
        }
        if last == '_' {
            return Err(ValidationError::EndsWithUnderscore);
        }
        if !char_is_lowercase_letter(first) {
            return Err(ValidationError::InvalidStartCharacter);
        }
        if !char_is_lowercase_letter(last) {
            return Err(ValidationError::InvalidEndCharacter);
        }
        let mut i: usize = 0;
        while i < n
            invariant
                i <= n,
                forall|j: int| 0 <= j < i ==> is_prefix_char(#[trigger] input@[j]),
            decreases n - i,
        {
            let c = input.get_char(i);
            if !char_is_prefix(c) {
                return Err(ValidationError::ContainsInvalidCharacters);
            }
            i += 1;
        }
        Ok(TypeIdPrefix { value: input.to_owned() })
    }

    /// Repairs arbitrary input into the canonical prefix of
    /// [`spec_canonicalize`]: lowercase, truncate to 63 characters, drop
    /// disallowed characters, then strip boundary underscores.
    #[verifier::loop_isolation(false)]
    pub fn clean_inner(input: &str) -> (r: String)
        ensures
            r@ == spec_canonicalize(input@),
    {
        let ghost t: Seq<char> = truncated(lowered(input@));
        let n = input.unicode_len();
        let limit = if n > MAX_PREFIX_LEN {
            MAX_PREFIX_LEN
        } else {
            n
        };
        assert(t.len() == limit);
        let mut kept = String::new();
        let mut i: usize = 0;
        while i < limit
            invariant
                i <= limit,
                kept@ == t.take(i as int).filter(prefix_char_pred()),
            decreases limit - i,
        {
            let c = input.get_char(i);
            let lc = char_lower(c);
            if char_is_prefix(lc) {
                kept.push(lc);
            }
            proof {
                assert(t[i as int] == lc);
                assert(t.take(i as int + 1) =~= t.take(i as int) + seq![lc]);
                crate::laws::lemma_filter_singleton(lc);
                assert(kept@ == (t.take(i as int) + seq![lc]).filter(prefix_char_pred()));
            }
            i += 1;
        }
        proof {
            assert(t.take(limit as int) =~= t);
        }
        let ghost f: Seq<char> = filtered(t);
        let m = kept.as_str().unicode_len();
        let mut start: usize = 0;
        while start < m && kept.as_str().get_char(start) == '_'
            invariant
                start <= m,
                forall|j: int| 0 <= j < start ==> f[j] == '_',
            decreases m - start,
        {
            start += 1;
        }
        let mut end: usize = m;
        while end > start && kept.as_str().get_char(end - 1) == '_'
            invariant
                start <= end <= m,
                forall|j: int| end <= j < m ==> f[j] == '_',
            decreases end,
        {
            end -= 1;
        }
        proof {
            if start == m {
                // every character was an underscore, or there were none
                crate::laws::lemma_trim_leading_subrange(f, m as int);
                let e = f.subrange(m as int, m as int);
                assert(e =~= Seq::<char>::empty());
                assert(trim_trailing(e) == e);
            } else {
                crate::laws::lemma_trim_leading_subrange(f, start as int);
                let g = f.subrange(start as int, f.len() as int);
                assert(end > start) by {
                    if end == start {
                        assert(f[start as int] == '_');
                    }
                }
                crate::laws::lemma_trim_trailing_subrange(g, end - start);
                assert(g.subrange(0, end - start) =~= f.subrange(start as int, end as int));
            }
        }
        let out = kept.as_str().substring_char(start, end);
        out.to_owned()
    }

    /// Canonicalizes `input` and wraps the result, which is always a valid
    /// prefix; when nothing of the input survives, the result is the empty
    /// fallback value.
    pub fn sanitize(input: &str) -> (r: Self)
        ensures
            r@ == spec_canonicalize(input@),
    {
        let cleaned = Self::clean_inner(input);
        proof {
            crate::laws::lemma_canonicalize_validates(input@);
        }
        match Self::validate(cleaned.as_str()) {
            Ok(p) => p,
            Err(_) => Self::default(),
        }
    }

    /// Returns a string slice of the `TypeID` prefix.
    pub fn as_str(&self) -> (r: &str)
        ensures
            r@ == self@,
            is_valid_prefix(r@),
    {
        proof {
            use_type_invariant(self);
        }
        self.value.as_str()
    }
}

} // verus!
