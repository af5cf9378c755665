//! The content type rule: which `Content-Type` header values announce a
//! URL-encoded form.

use vstd::prelude::*;
use vstd::string::StringSliceAdditionalSpecFns;

verus! {

/// The media type of a URL-encoded form.
pub const FORM_MEDIA_TYPE: &'static str = "application/x-www-form-urlencoded";

/// Optional whitespace of a header value: space and horizontal tab.
pub open spec fn is_blank(byte: u8) -> bool {
    byte == 0x20 || byte == 0x09
}

/// The byte with an ASCII capital letter turned into its small letter.
pub open spec fn lower(byte: u8) -> u8 {
    if 0x41 <= byte <= 0x5a {
        (byte + 0x20) as u8
    } else {
        byte
    }
}

/// The header value up to its first `;`, where the parameters begin.
pub open spec fn before_parameters(value: Seq<u8>) -> Seq<u8> {
    match value.index_of_first(0x3bu8) {
        Some(at) => value.take(at),
        None => value,
    }
}

/// `bytes` without the whitespace it begins with.
pub open spec fn trim_start(bytes: Seq<u8>) -> Seq<u8>
    decreases bytes.len(),
{
    if bytes.len() > 0 && is_blank(bytes.first()) {
        trim_start(bytes.drop_first())
    } else {
        bytes
    }
}

/// `bytes` without the whitespace it ends with.
pub open spec fn trim_end(bytes: Seq<u8>) -> Seq<u8>
    decreases bytes.len(),
{
    if bytes.len() > 0 && is_blank(bytes.last()) {
        trim_end(bytes.drop_last())
    } else {
        bytes
    }
}

/// The media type that a header value names: what stands before the
/// parameters, without surrounding whitespace.
pub open spec fn media_type(value: Seq<u8>) -> Seq<u8> {
    trim_end(trim_start(before_parameters(value)))
}

/// Whether a header value names the media type of a URL-encoded form,
/// in any mix of capital and small letters.
pub open spec fn is_form_content_type(value: Seq<u8>) -> bool {
    media_type(value).map_values(|byte: u8| lower(byte)) == FORM_MEDIA_TYPE.spec_bytes()
}

fn blank(byte: u8) -> (yes: bool)
    ensures
        yes == is_blank(byte),
{
    byte == 0x20 || byte == 0x09
}

fn lowered(byte: u8) -> (small: u8)
    ensures
        small == lower(byte),
{
    if 0x41 <= byte && byte <= 0x5a {
        byte + 0x20
    } else {
        byte
    }
}

/// Where the parameters of a header value begin: the place of its first
/// `;`, or its length where it has none.
fn parameters_start(value: &[u8]) -> (end: usize)
    ensures
        end <= value@.len(),
        before_parameters(value@) == value@.take(end as int),
{
    let mut end: usize = 0;
    while end < value.len() && value[end] != 0x3b
        invariant
            end <= value@.len(),
            forall|j: int| 0 <= j < end ==> value@[j] != 0x3bu8,
        decreases value@.len() - end,
    {
        end += 1;
    }
    proof {
        value@.index_of_first_ensures(0x3bu8);
        if end == value@.len() {
            assert(value@.take(end as int) == value@);
        }
    }
    end
}

/// Skips the whitespace from `from` on, stopping at `end`.
fn skip_blank(value: &[u8], from: usize, end: usize) -> (start: usize)
    requires
        from <= end <= value@.len(),
    ensures
        from <= start <= end,
        trim_start(value@.subrange(from as int, end as int)) == value@.subrange(
            start as int,
            end as int,
        ),
{
    let mut start: usize = from;
    while start < end && blank(value[start])
        invariant
            from <= start <= end <= value@.len(),
            trim_start(value@.subrange(from as int, end as int)) == trim_start(
                value@.subrange(start as int, end as int),
            ),
        decreases end - start,
    {
        proof {
            assert(value@.subrange(start as int, end as int).drop_first() == value@.subrange(
                start + 1,
                end as int,
            ));
        }
        start += 1;
    }
    start
}

/// Drops the whitespace before `end`, stopping at `start`.
fn drop_blank(value: &[u8], start: usize, end: usize) -> (stop: usize)
    requires
        start <= end <= value@.len(),
    ensures
        start <= stop <= end,
        trim_end(value@.subrange(start as int, end as int)) == value@.subrange(
            start as int,
            stop as int,
        ),
{
    let mut stop: usize = end;
    while start < stop && blank(value[stop - 1])
        invariant
            start <= stop <= end <= value@.len(),
            trim_end(value@.subrange(start as int, end as int)) == trim_end(
                value@.subrange(start as int, stop as int),
            ),
        decreases stop - start,
    {
        proof {
            assert(value@.subrange(start as int, stop as int).drop_last() == value@.subrange(
                start as int,
                stop - 1,
            ));
        }
        stop -= 1;
    }
    stop
}

/// Decides whether a `Content-Type` header value announces a URL-encoded
/// form. Parameters such as a charset are not looked at.
pub fn announces_form(value: &[u8]) -> (yes: bool)
    ensures
        yes == is_form_content_type(value@),
{
    let expected = FORM_MEDIA_TYPE.as_bytes();
    let end = parameters_start(value);
    let start = skip_blank(value, 0, end);
    let stop = drop_blank(value, start, end);
    let ghost named = value@.subrange(start as int, stop as int);
    proof {
        assert(value@.subrange(0, end as int) == value@.take(end as int));
        assert(media_type(value@) == named);
    }
    if stop - start != expected.len() {
        return false;
    }
    let mut i: usize = 0;
    while i < expected.len()
        invariant
            i <= expected@.len(),
            start <= stop <= value@.len(),
            stop - start == expected@.len(),
            expected@ == FORM_MEDIA_TYPE.spec_bytes(),
            named == media_type(value@),
            named == value@.subrange(start as int, stop as int),
            forall|j: int| 0 <= j < i ==> lower(named[j]) == expected@[j],
        decreases expected@.len() - i,
    {
        if lowered(value[start + i]) != expected[i] {
            proof {
                assert(named.map_values(|byte: u8| lower(byte))[i as int] != expected@[i as int]);
            }
            return false;
        }
        i += 1;
    }
    proof {
        assert(named.map_values(|byte: u8| lower(byte)) =~= expected@);
    }
    true
}

} // verus!
