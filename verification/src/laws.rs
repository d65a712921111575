//! The laws of the validation and canonicalization engine, stated and
//! proved once over the definitions of [`crate::rules`].

use vstd::prelude::*;
use vstd::utf8::is_ascii_chars;
use vstd::utf8::is_ascii_chars_encode_utf8;

use crate::error::ValidationError;
use crate::rules::{
    filtered, is_prefix_char, is_valid_prefix, lowered, prefix_char_pred,
    spec_canonicalize, spec_validate, trim_leading, trim_trailing, truncated, utf8_length,
    MAX_PREFIX_LEN,
};

verus! {

/// Filtering a one-character sequence keeps the character exactly when it is
/// allowed in a prefix.
pub(crate) proof fn lemma_filter_singleton(c: char)
    ensures
        seq![c].filter(prefix_char_pred()) == (if is_prefix_char(c) {
            seq![c]
        } else {
            Seq::<char>::empty()
        }),
{
    reveal_with_fuel(Seq::<_>::filter, 2);
    assert(seq![c].drop_last() =~= Seq::<char>::empty());
    if is_prefix_char(c) {
        assert(seq![c].filter(prefix_char_pred()) =~= seq![c]);
    } else {
        assert(seq![c].filter(prefix_char_pred()) =~= Seq::<char>::empty());
    }
}

/// Filtering a sequence whose characters are all allowed leaves it unchanged.
pub(crate) proof fn lemma_filter_all(s: Seq<char>)
    requires
        forall|i: int| 0 <= i < s.len() ==> is_prefix_char(#[trigger] s[i]),
    ensures
        s.filter(prefix_char_pred()) == s,
    decreases s.len(),
{
    reveal_with_fuel(Seq::<_>::filter, 1);
    if s.len() > 0 {
        lemma_filter_all(s.drop_last());
        assert(is_prefix_char(s[s.len() - 1]));
        assert(s.drop_last().push(s.last()) =~= s);
    }
}

/// Lowercasing a sequence whose characters are all allowed leaves it
/// unchanged, because no allowed character is an uppercase letter.
pub(crate) proof fn lemma_lowered_identity(s: Seq<char>)
    requires
        forall|i: int| 0 <= i < s.len() ==> is_prefix_char(#[trigger] s[i]),
    ensures
        lowered(s) == s,
{
    assert(lowered(s) =~= s);
}

/// When the first `k` characters of `s` are underscores and the next one is
/// not, trimming leading underscores drops exactly those `k` characters.
pub(crate) proof fn lemma_trim_leading_subrange(s: Seq<char>, k: int)
    requires
        0 <= k <= s.len(),
        forall|j: int| 0 <= j < k ==> s[j] == '_',
        k < s.len() ==> s[k] != '_',
    ensures
        trim_leading(s) == s.subrange(k, s.len() as int),
    decreases k,
{
    if k == 0 {
        assert(s.subrange(0, s.len() as int) =~= s);
    } else {
        let t = s.drop_first();
        assert(t =~= s.subrange(1, s.len() as int));
        lemma_trim_leading_subrange(t, k - 1);
        assert(t.subrange(k - 1, t.len() as int) =~= s.subrange(k, s.len() as int));
    }
}

/// When the characters of `s` from position `k` on are underscores and the
/// one before them is not, trimming trailing underscores keeps exactly the
/// first `k` characters.
pub(crate) proof fn lemma_trim_trailing_subrange(s: Seq<char>, k: int)
    requires
        0 <= k <= s.len(),
        forall|j: int| k <= j < s.len() ==> s[j] == '_',
        k > 0 ==> s[k - 1] != '_',
    ensures
        trim_trailing(s) == s.subrange(0, k),
    decreases s.len() - k,
{
    if k == s.len() {
        assert(s.subrange(0, k) =~= s);
    } else {
        let t = s.drop_last();
        assert(t =~= s.subrange(0, s.len() - 1));
        lemma_trim_trailing_subrange(t, k);
        assert(t.subrange(0, k) =~= s.subrange(0, k));
    }
}

/// Trimming leading underscores keeps a suffix of the sequence whose first
/// character, if any, is not an underscore.
pub(crate) proof fn lemma_trim_leading_keeps(s: Seq<char>)
    ensures
        trim_leading(s).len() <= s.len(),
        forall|i: int|
            0 <= i < trim_leading(s).len() ==> #[trigger] trim_leading(s)[i] == s[s.len()
                - trim_leading(s).len() + i],
        trim_leading(s).len() > 0 ==> trim_leading(s)[0] != '_',
    decreases s.len(),
{
    if s.len() > 0 && s[0] == '_' {
        lemma_trim_leading_keeps(s.drop_first());
    }
}

/// Trimming trailing underscores keeps a prefix of the sequence whose last
/// character, if any, is not an underscore.
pub(crate) proof fn lemma_trim_trailing_keeps(s: Seq<char>)
    ensures
        trim_trailing(s).len() <= s.len(),
        forall|i: int|
            0 <= i < trim_trailing(s).len() ==> #[trigger] trim_trailing(s)[i] == s[i],
        trim_trailing(s).len() > 0 ==> trim_trailing(s)[trim_trailing(s).len() - 1] != '_',
    decreases s.len(),
{
    if s.len() > 0 && s[s.len() - 1] == '_' {
        lemma_trim_trailing_keeps(s.drop_last());
    }
}

/// Strict validation accepts a string exactly when it satisfies the prefix
/// invariant [`is_valid_prefix`].
pub proof fn lemma_validate_ok_iff_valid(s: Seq<char>)
    ensures
        (spec_validate(s) == Ok::<(), ValidationError>(())) <==> is_valid_prefix(s),
{
    if s.len() == 0 {
        assert(vstd::utf8::encode_utf8(s) =~= Seq::<u8>::empty());
    } else {
        if is_valid_prefix(s) {
            assert(is_ascii_chars(s)) by {
                assert forall|i: int| 0 <= i < s.len() implies '\0' <= #[trigger] s[i]
                    <= '\u{7f}' by {
                    assert(is_prefix_char(s[i]));
                }
            }
            is_ascii_chars_encode_utf8(s);
            assert(utf8_length(s) == s.len());
            assert(spec_validate(s) == Ok::<(), ValidationError>(()));
        }
        if spec_validate(s) == Ok::<(), ValidationError>(()) {
            is_ascii_chars_encode_utf8(s);
            assert(is_valid_prefix(s));
        }
    }
}

/// The canonical form of any input satisfies the prefix invariant.
pub proof fn lemma_canonicalize_valid(s: Seq<char>)
    ensures
        is_valid_prefix(spec_canonicalize(s)),
{
    let t = truncated(lowered(s));
    let f = filtered(t);
    let g = trim_leading(f);
    let c = trim_trailing(g);
    t.lemma_filter_len(prefix_char_pred());
    assert forall|i: int| 0 <= i < f.len() implies is_prefix_char(#[trigger] f[i]) by {
        t.lemma_filter_pred(prefix_char_pred(), i);
    }
    lemma_trim_leading_keeps(f);
    lemma_trim_trailing_keeps(g);
    assert(c.len() <= MAX_PREFIX_LEN);
    assert forall|i: int| 0 <= i < c.len() implies is_prefix_char(#[trigger] c[i]) by {
        assert(c[i] == g[i]);
    }
    if c.len() > 0 {
        assert(c[0] == g[0]);
        assert(is_prefix_char(c[0]) && c[0] != '_');
        assert(is_prefix_char(c[c.len() - 1]) && c[c.len() - 1] != '_');
    }
}

/// Validity of canonical output: strict validation accepts the canonical
/// form of every input.
pub proof fn lemma_canonicalize_validates(s: Seq<char>)
    ensures
        spec_validate(spec_canonicalize(s)) == Ok::<(), ValidationError>(()),
{
    lemma_canonicalize_valid(s);
    lemma_validate_ok_iff_valid(spec_canonicalize(s));
}

/// Fixed point on valid input: canonicalization leaves every string that
/// strict validation accepts exactly as it is.
pub proof fn lemma_validate_fixed_point(s: Seq<char>)
    requires
        spec_validate(s) == Ok::<(), ValidationError>(()),
    ensures
        spec_canonicalize(s) == s,
{
    lemma_validate_ok_iff_valid(s);
    lemma_lowered_identity(s);
    lemma_filter_all(s);
    assert(trim_leading(s) == s);
    assert(trim_trailing(s) == s);
}

/// Idempotence: canonicalizing a second time changes nothing.
pub proof fn lemma_canonicalize_idempotent(s: Seq<char>)
    ensures
        spec_canonicalize(spec_canonicalize(s)) == spec_canonicalize(s),
{
    lemma_canonicalize_validates(s);
    lemma_validate_fixed_point(spec_canonicalize(s));
}

/// Length bound: the canonical form never exceeds [`MAX_PREFIX_LEN`]
/// characters.
pub proof fn lemma_canonicalize_length(s: Seq<char>)
    ensures
        spec_canonicalize(s).len() <= MAX_PREFIX_LEN,
{
    lemma_canonicalize_valid(s);
}

/// Character-set closure: every character of the canonical form is a
/// lowercase ASCII letter or an underscore.
pub proof fn lemma_canonicalize_charset(s: Seq<char>)
    ensures
        forall|i: int|
            0 <= i < spec_canonicalize(s).len() ==> is_prefix_char(
                #[trigger] spec_canonicalize(s)[i],
            ),
{
    lemma_canonicalize_valid(s);
}

/// No boundary underscores: the canonical form neither starts nor ends with
/// an underscore.
pub proof fn lemma_canonicalize_boundaries(s: Seq<char>)
    ensures
        spec_canonicalize(s).len() > 0 ==> spec_canonicalize(s)[0] != '_' && spec_canonicalize(
            s,
        )[spec_canonicalize(s).len() - 1] != '_',
{
    lemma_canonicalize_valid(s);
}

/// Error determinism: validation is a pure function of the input, so two
/// runs on the same string can never report different error kinds.
pub proof fn lemma_validate_deterministic(s: Seq<char>, e1: ValidationError, e2: ValidationError)
    requires
        spec_validate(s) == Err::<(), ValidationError>(e1),
        spec_validate(s) == Err::<(), ValidationError>(e2),
    ensures
        e1 == e2,
{
}

/// The empty string is a valid prefix here, so validation never reports
/// [`ValidationError::IsEmpty`]; the variant exists only for callers with a
/// stricter policy of their own.
pub proof fn lemma_validate_never_is_empty(s: Seq<char>)
    ensures
        spec_validate(s) != Err::<(), ValidationError>(ValidationError::IsEmpty),
{
}

/// No two error kinds share their human-readable message, so the message
/// alone identifies the broken rule.
pub proof fn lemma_messages_distinct(e1: ValidationError, e2: ValidationError)
    requires
        e1 != e2,
    ensures
        e1.spec_message() != e2.spec_message(),
{
    reveal_strlit("Input exceeds 63 characters");
    reveal_strlit(
        "Input contains invalid characters: only lowercase ASCII letters and underscores are allowed",
    );
    reveal_strlit("Input cannot start with an underscore");
    reveal_strlit("Input cannot end with an underscore");
    reveal_strlit("Input must start with a lowercase alphabetic character");
    reveal_strlit("Input must end with a lowercase alphabetic character");
    reveal_strlit("Input cannot be empty");
    // the seven messages already differ in length
    assert("Input exceeds 63 characters"@.len() == 27);
    assert("Input contains invalid characters: only lowercase ASCII letters and underscores are allowed"@.len()
        == 91);
    assert("Input cannot start with an underscore"@.len() == 37);
    assert("Input cannot end with an underscore"@.len() == 35);
    assert("Input must start with a lowercase alphabetic character"@.len() == 54);
    assert("Input must end with a lowercase alphabetic character"@.len() == 52);
    assert("Input cannot be empty"@.len() == 21);
}

} // verus!
