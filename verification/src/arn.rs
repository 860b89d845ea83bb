//! Resource identifiers: colon-delimited strings whose fifth field names the
//! owning account.

use crate::text::{chars_of, find_char, index_of, string_of};
use vstd::prelude::*;

verus! {

/// The `k`-th field (counting from zero) of `s` when cut at every `sep`, or
/// `None` where `s` has no more than `k` fields.
pub open spec fn nth_field(s: Seq<char>, sep: char, k: nat) -> Option<Seq<char>>
    decreases k,
{
    let n = index_of(s, sep);
    if k == 0 {
        Some(s.take(n as int))
    } else if n >= s.len() {
        None
    } else {
        nth_field(s.skip(n as int + 1), sep, (k - 1) as nat)
    }
}

/// The account that a resource identifier names: its fifth colon-delimited
/// field, where that field exists and is not empty.
pub open spec fn account_of_arn(arn: Seq<char>) -> Option<Seq<char>> {
    match nth_field(arn, ':', 4) {
        Some(field) => if field.len() > 0 {
            Some(field)
        } else {
            None
        },
        None => None,
    }
}

/// The number of fields of `s` when cut at every `sep`: one more than there
/// are separators.
pub open spec fn field_count(s: Seq<char>, sep: char) -> nat {
    s.filter(is_char(sep)).len() + 1
}

/// The test for being the character `sep`.
pub open spec fn is_char(sep: char) -> spec_fn(char) -> bool {
    |c: char| c == sep
}

/// A sequence of no more than `k` fields has no field `k`, counting from
/// zero.
pub proof fn lemma_too_few_fields(s: Seq<char>, sep: char, k: nat)
    requires
        field_count(s, sep) <= k,
    ensures
        nth_field(s, sep, k) is None,
    decreases k,
{
    let pred = is_char(sep);
    let n = index_of(s, sep);
    crate::text::lemma_index_of_bounds(s, sep);
    if n < s.len() {
        let head = s.take(n as int + 1);
        let tail = s.skip(n as int + 1);
        assert(s =~= head + tail);
        Seq::filter_distributes_over_add(head, tail, pred);
        assert(head =~= head.drop_last().push(sep));
        head.drop_last().lemma_filter_len_push(pred, sep);
        lemma_too_few_fields(tail, sep, (k - 1) as nat);
    }
}

/// An identifier with fewer than five fields names no account.
pub proof fn lemma_short_arn_names_no_account(arn: Seq<char>)
    requires
        field_count(arn, ':') < 5,
    ensures
        account_of_arn(arn) is None,
{
    lemma_too_few_fields(arn, ':', 4);
}

/// The account id held in the fifth field of `arn`: `None` where the
/// identifier has fewer than five fields or the fifth is empty.
pub fn extract_account_from_arn(arn: &str) -> (r: Option<String>)
    ensures
        match r {
            Some(account) => account_of_arn(arn@) == Some(account@),
            None => account_of_arn(arn@) is None,
        },
{
    let chars = chars_of(arn);
    let len = chars.len();
    let mut pos: usize = 0;
    let mut k: usize = 0;
    assert(chars@.subrange(0, len as int) =~= arn@);
    while k < 4
        invariant
            k <= 4,
            pos <= len,
            len == chars.len(),
            nth_field(arn@, ':', 4) == nth_field(
                chars@.subrange(pos as int, len as int),
                ':',
                (4 - k) as nat,
            ),
        decreases 4 - k,
    {
        let n = find_char(&chars, pos, len, ':');
        if n >= len {
            return None;
        }
        assert(chars@.subrange(pos as int, len as int).skip(n - pos + 1) =~= chars@.subrange(
            n + 1,
            len as int,
        ));
        pos = n + 1;
        k += 1;
    }
    let n = find_char(&chars, pos, len, ':');
    assert(chars@.subrange(pos as int, len as int).take(n - pos) =~= chars@.subrange(
        pos as int,
        n as int,
    ));
    if n == pos {
        None
    } else {
        Some(string_of(&chars, pos, n))
    }
}

} // verus!
