//! What the answers of a video server mean.

use vstd::prelude::*;

verus! {

/// What the message of a refused download begins with.
pub const DOWNLOAD_FAILED: &'static str = "Failed to download file: HTTP ";

/// Whether a status code reports success.
pub open spec fn success(status: u16) -> bool {
    200 <= status < 300
}

/// The value of a row of decimal digits.
pub open spec fn digits_value(digits: Seq<u8>) -> nat
    decreases digits.len(),
{
    if digits.len() == 0 {
        0
    } else {
        digits_value(digits.drop_last()) * 10 + (digits.last() - 48) as nat
    }
}

/// Whether `text` is a row of at least one decimal digit.
pub open spec fn is_digits(text: Seq<u8>) -> bool {
    text.len() > 0 && forall|i: int| 0 <= i < text.len() ==> 48 <= #[trigger] text[i] <= 57
}

/// `text` without the plus sign that it may begin with.
pub open spec fn unsigned_part(text: Seq<u8>) -> Seq<u8> {
    if text.len() > 0 && text[0] == 43 {
        text.skip(1)
    } else {
        text
    }
}

/// The number that `text` writes: an optional plus sign and decimal digits,
/// small enough for sixty-four bits.
pub open spec fn written_number(text: Seq<u8>) -> Option<u64> {
    let digits = unsigned_part(text);
    if is_digits(digits) && digits_value(digits) <= u64::MAX {
        Some(digits_value(digits) as u64)
    } else {
        None
    }
}

/// The size that a server reports of a file: the number in its `Content-Length`
/// header, provided that the answer reports success.
pub open spec fn reported_size(status: u16, content_length: Option<Seq<u8>>) -> Option<u64> {
    match content_length {
        Some(text) => if success(status) {
            written_number(text)
        } else {
            None
        },
        None => None,
    }
}

/// The three decimal digits of a status code.
pub open spec fn status_digits(status: u16) -> Seq<char> {
    seq![
        (48 + status / 100) as char,
        (48 + status / 10 % 10) as char,
        (48 + status % 10) as char,
    ]
}

/// What `reqwest::StatusCode` writes for a status code.
pub uninterp spec fn status_text(status: u16) -> Seq<char>;

/// Calls `reqwest::StatusCode::from_u16` and writes the result with its
/// `Display`: the number and the phrase that belongs to it.
///
/// Claimed: the text is a function of the code and begins with its three digits
/// and a blank. The table of phrases is not written out.
#[verifier::external_body]
fn write_status(status: u16) -> (r: String)
    requires
        100 <= status <= 999,
    ensures
        r@ == status_text(status),
        r@.len() > 4,
        r@.take(4) == status_digits(status).push(' '),
{
    reqwest::StatusCode::from_u16(status).unwrap().to_string()
}

/// Whether a status code reports success.
pub fn is_success(status: u16) -> (r: bool)
    ensures
        r == success(status),
{
    200 <= status && status < 300
}

/// A digit more makes the value at least as large.
proof fn lemma_digits_value_grows(digits: Seq<u8>, n: int)
    requires
        is_digits(digits),
        0 <= n <= digits.len(),
    ensures
        digits_value(digits.take(n)) <= digits_value(digits),
    decreases digits.len() - n,
{
    if n < digits.len() {
        lemma_digits_value_grows(digits, n + 1);
        assert(digits.take(n + 1).drop_last() =~= digits.take(n));
        assert(48 <= digits[n]);
    } else {
        assert(digits.take(n) =~= digits);
    }
}

/// Reads a number in sixty-four bits.
pub fn parse_number(text: &[u8]) -> (r: Option<u64>)
    ensures
        r == written_number(text@),
{
    let n: usize = text.len();
    let start: usize = if n > 0 && text[0] == 43 {
        1
    } else {
        0
    };
    let ghost digits = unsigned_part(text@);
    assert(digits =~= text@.skip(start as int));
    if start == n {
        return None;
    }
    let mut value: u64 = 0;
    for i in start..n
        invariant
            n == text@.len(),
            start <= n,
            digits == unsigned_part(text@),
            digits == text@.skip(start as int),
            digits.len() > 0,
            forall|k: int| 0 <= k < i - start ==> 48 <= #[trigger] digits[k] <= 57,
            value == digits_value(digits.take(i - start)),
    {
        let b: u8 = text[i];
        assert(b == digits[i - start]);
        if b < 48 || b > 57 {
            return None;
        }
        let ghost longer = digits.take(i - start + 1);
        proof {
            assert(longer.drop_last() =~= digits.take(i - start));
            if is_digits(digits) {
                lemma_digits_value_grows(digits, i - start + 1);
            }
        }
        match value.checked_mul(10) {
            Some(tens) => match tens.checked_add((b - 48) as u64) {
                Some(next) => {
                    value = next;
                },
                None => {
                    return None;
                },
            },
            None => {
                return None;
            },
        }
    }
    assert(digits.take(n - start) =~= digits);
    Some(value)
}

/// The size of the file that a server's answer to a `HEAD` request reports.
pub fn remote_file_size(status: u16, content_length: Option<&[u8]>) -> (r: Option<u64>)
    ensures
        r == reported_size(
            status,
            match content_length {
                Some(text) => Some(text@),
                None => None,
            },
        ),
{
    if is_success(status) {
        match content_length {
            Some(text) => parse_number(text),
            None => None,
        }
    } else {
        None
    }
}

/// Why a download is refused: nothing where the answer reports success, else a
/// message that ends in `status`, the written status code.
pub fn refusal(success: bool, status: &str) -> (r: Option<String>)
    ensures
        r is None <==> success,
        r matches Some(message) ==> message@ == DOWNLOAD_FAILED@ + status@,
{
    if success {
        None
    } else {
        let mut message = DOWNLOAD_FAILED.to_string();
        message.append(status);
        Some(message)
    }
}

/// Why the answer to a download request is refused, if it is.
pub fn download_refusal(status: u16) -> (r: Option<String>)
    requires
        100 <= status <= 999,
    ensures
        r is None <==> success(status),
        r matches Some(message) ==> {
            &&& message@ == DOWNLOAD_FAILED@ + status_text(status)
            &&& status_text(status).len() > 4
            &&& status_text(status).take(4) == status_digits(status).push(' ')
        },
{
    let text = write_status(status);
    refusal(is_success(status), text.as_str())
}

/// The decimal digits of a number, without leading zeros.
pub open spec fn decimal(n: nat) -> Seq<u8>
    decreases n,
{
    if n < 10 {
        seq![(48 + n) as u8]
    } else {
        decimal(n / 10).push((48 + n % 10) as u8)
    }
}

/// The digits of a number are digits, and their value is the number.
proof fn lemma_decimal(n: nat)
    ensures
        is_digits(decimal(n)),
        digits_value(decimal(n)) == n,
    decreases n,
{
    reveal_with_fuel(digits_value, 2);
    if n < 10 {
        assert(decimal(n).drop_last() =~= Seq::<u8>::empty());
    } else {
        lemma_decimal(n / 10);
        assert(decimal(n).drop_last() =~= decimal(n / 10));
    }
}

/// Success is a status code of the two hundreds.
pub proof fn law_success_is_two_hundreds(status: u16)
    ensures
        success(status) <==> status / 100 == 2,
{
}

/// The size that a server writes is the size that is read: an answer of the two
/// hundreds with the decimal digits of a number, with or without a plus sign
/// before them, reports that very number where sixty-four bits hold it, and no
/// size where they do not.
pub proof fn law_written_size_is_read(status: u16, n: nat)
    requires
        200 <= status <= 299,
    ensures
        n <= u64::MAX ==> reported_size(status, Some(decimal(n))) == Some(n as u64),
        n <= u64::MAX ==> reported_size(status, Some(seq![43u8] + decimal(n))) == Some(n as u64),
        n > u64::MAX ==> reported_size(status, Some(decimal(n))) is None,
        n > u64::MAX ==> reported_size(status, Some(seq![43u8] + decimal(n))) is None,
{
    lemma_decimal(n);
    assert(48 <= decimal(n)[0]);
    assert((seq![43u8] + decimal(n)).skip(1) =~= decimal(n));
}

/// The size in a successful answer is the number that its text writes, as it
/// stands.
pub proof fn law_size_is_the_number(status: u16, text: Seq<u8>)
    requires
        200 <= status <= 299,
    ensures
        reported_size(status, Some(text)) == written_number(text),
{
}

/// Leading zeros do not change a value.
proof fn lemma_leading_zero(digits: Seq<u8>)
    requires
        is_digits(digits),
    ensures
        is_digits(seq![48u8] + digits),
        digits_value(seq![48u8] + digits) == digits_value(digits),
    decreases digits.len(),
{
    reveal_with_fuel(digits_value, 2);
    let longer = seq![48u8] + digits;
    assert forall|i: int| 0 <= i < longer.len() implies 48 <= #[trigger] longer[i] <= 57 by {
        if i > 0 {
            assert(longer[i] == digits[i - 1]);
        }
    }
    if digits.len() == 1 {
        assert(longer.drop_last() =~= seq![48u8]);
        assert(seq![48u8].drop_last() =~= Seq::<u8>::empty());
        assert(digits.drop_last() =~= Seq::<u8>::empty());
    } else {
        let front = digits.drop_last();
        assert forall|i: int| 0 <= i < front.len() implies 48 <= #[trigger] front[i] <= 57 by {
            assert(front[i] == digits[i]);
        }
        lemma_leading_zero(front);
        assert(longer.drop_last() =~= seq![48u8] + front);
    }
}

/// A zero before the digits changes nothing.
pub proof fn law_leading_zeros_do_not_count(status: u16, digits: Seq<u8>)
    requires
        is_digits(digits),
    ensures
        reported_size(status, Some(seq![48u8] + digits)) == reported_size(status, Some(digits)),
{
    lemma_leading_zero(digits);
    assert(48 <= digits[0]);
}

/// No size is read where the answer is no success, where it names no length, or
/// where the length is empty, a plus sign alone, or has anything but a digit
/// after the plus sign that it may begin with.
pub proof fn law_no_size(status: u16, text: Seq<u8>, i: int)
    ensures
        reported_size(status, None) is None,
        status < 200 || status > 299 ==> reported_size(status, Some(text)) is None,
        reported_size(status, Some(Seq::empty())) is None,
        reported_size(status, Some(seq![43u8])) is None,
        0 <= i < text.len() && (text[i] < 48 || text[i] > 57) && (i > 0 || text[i] != 43)
            ==> reported_size(status, Some(text)) is None,
{
    if 0 <= i < text.len() && (text[i] < 48 || text[i] > 57) && (i > 0 || text[i] != 43) {
        let digits = unsigned_part(text);
        if text[0] == 43 {
            assert(digits[i - 1] == text[i]);
        } else {
            assert(digits[i] == text[i]);
        }
        assert(!is_digits(digits));
    }
}

} // verus!
