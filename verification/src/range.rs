//! The byte windows of a ranged transfer.
//!
//! A ranged transfer asks for a resource of known length window by window.
//! With `last` the offset of the final byte, a window is due while the next
//! offset lies before `last`; it then spans at most `chunk_size` bytes and
//! never reaches past `last`. The rule has one blind spot, which the laws
//! below state exactly: when the bytes before the final one fill whole
//! windows, the final byte is never asked for.

use crate::foreign::{header_byte_allowed, header_value_bytes, header_value_from_str};
use crate::text::{decimal, decimal_digits, is_digit, lemma_decimal_digits_shape};
use reqwest::header::HeaderValue;
use vstd::prelude::*;
use vstd::string::*;

verus! {

/// The window size used when the caller has no reason to choose another.
pub const CHUNK_SIZE: u64 = 10240;

/// One window of a ranged transfer: the bytes `window_start..=window_end` of
/// a resource that is `total_length` bytes long.
#[derive(Clone, Copy, Debug, PartialEq, Eq, Structural)]
pub struct RangeCursor {
    pub total_length: u64,
    pub window_start: u64,
    pub window_end: u64,
}

/// True while a window is due at offset `start`.
pub open spec fn window_due(total_length: int, start: int) -> bool {
    start < total_length - 1
}

/// The offset of the last byte of the window that starts at `start`.
pub open spec fn window_last(total_length: int, chunk_size: int, start: int) -> int {
    if chunk_size <= total_length - start {
        start + chunk_size - 1
    } else {
        total_length - 1
    }
}

/// The window that starts at offset `start`, if one is due there.
pub open spec fn window_at(total_length: u64, chunk_size: u64, start: int) -> Option<RangeCursor> {
    if 0 <= start && window_due(total_length as int, start) {
        Some(
            RangeCursor {
                total_length,
                window_start: start as u64,
                window_end: window_last(total_length as int, chunk_size as int, start) as u64,
            },
        )
    } else {
        None
    }
}

/// The windows asked for from offset `start` on, in the order of the requests.
pub open spec fn windows_from(total_length: u64, chunk_size: u64, start: int) -> Seq<RangeCursor>
    decreases total_length - start,
{
    if chunk_size >= 1 && 0 <= start && window_due(total_length as int, start) {
        seq![window_at(total_length, chunk_size, start).unwrap()] + windows_from(
            total_length,
            chunk_size,
            window_last(total_length as int, chunk_size as int, start) + 1,
        )
    } else {
        Seq::empty()
    }
}

/// Every window of a transfer of `total_length` bytes, in request order.
pub open spec fn windows(total_length: u64, chunk_size: u64) -> Seq<RangeCursor> {
    windows_from(total_length, chunk_size, 0)
}

/// The number of bytes that the windows of `ws` span, taken together.
pub open spec fn covered(ws: Seq<RangeCursor>) -> int
    decreases ws.len(),
{
    if ws.len() == 0 {
        0
    } else {
        ws[0].window_len() + covered(ws.drop_first())
    }
}

/// The text of the `Range` header that asks for bytes `start..=end`.
pub open spec fn range_text(start: nat, end: nat) -> Seq<char> {
    seq!['b', 'y', 't', 'e', 's', '='] + decimal_digits(start) + seq!['-'] + decimal_digits(end)
}

/// The bytes of a text that holds ASCII characters only.
pub open spec fn ascii_bytes(text: Seq<char>) -> Seq<u8> {
    Seq::new(text.len(), |i: int| text[i] as u8)
}

impl RangeCursor {
    /// A window lies inside its resource and holds at least one byte.
    pub open spec fn valid(self) -> bool {
        self.window_start <= self.window_end < self.total_length
    }

    /// The number of bytes in the window.
    pub open spec fn window_len(self) -> int {
        self.window_end - self.window_start + 1
    }

    /// The first window of a transfer, or `None` where none is due.
    pub fn first(total_length: u64, chunk_size: u64) -> (r: Option<RangeCursor>)
        requires
            chunk_size >= 1,
        ensures
            r == window_at(total_length, chunk_size, 0),
            r matches Some(c) ==> c.valid(),
    {
        Self::starting_at(total_length, chunk_size, 0)
    }

    /// The window that follows this one, or `None` after the last.
    pub fn next(&self, chunk_size: u64) -> (r: Option<RangeCursor>)
        requires
            chunk_size >= 1,
        ensures
            r == window_at(self.total_length, chunk_size, self.window_end + 1),
            r matches Some(c) ==> c.valid() && c.window_start == self.window_end + 1,
    {
        match self.window_end.checked_add(1) {
            Some(start) => Self::starting_at(self.total_length, chunk_size, start),
            None => None,
        }
    }

    fn starting_at(total_length: u64, chunk_size: u64, start: u64) -> (r: Option<RangeCursor>)
        requires
            chunk_size >= 1,
        ensures
            r == window_at(total_length, chunk_size, start as int),
            r matches Some(c) ==> c.valid() && c.window_start == start,
    {
        if total_length >= 1 && start < total_length - 1 {
            let room: u64 = total_length - start;
            let span: u64 = if chunk_size <= room {
                chunk_size
            } else {
                room
            };
            Some(RangeCursor { total_length, window_start: start, window_end: start + span - 1 })
        } else {
            None
        }
    }

    /// The number of bytes in the window.
    pub fn len(&self) -> (n: u64)
        requires
            self.valid(),
        ensures
            n == self.window_len(),
    {
        self.window_end - self.window_start + 1
    }

    /// The text of the `Range` header that asks for this window.
    pub fn header_text(&self) -> (text: String)
        ensures
            text@ == range_text(self.window_start as nat, self.window_end as nat),
    {
        proof {
            reveal_strlit("bytes=");
            reveal_strlit("-");
        }
        let mut text = String::from_str("bytes=");
        assert(text@ =~= seq!['b', 'y', 't', 'e', 's', '=']);
        let first = decimal(self.window_start);
        text.append(first.as_str());
        text.append("-");
        assert("-"@ =~= seq!['-']);
        let last = decimal(self.window_end);
        text.append(last.as_str());
        text
    }

    /// The `Range` header that asks for this window. Building it cannot
    /// fail: the text holds nothing but letters, digits, `=` and `-`.
    pub fn header(&self) -> (value: HeaderValue)
        ensures
            header_value_bytes(value) == ascii_bytes(
                range_text(self.window_start as nat, self.window_end as nat),
            ),
    {
        let text = self.header_text();
        let slice = text.as_str();
        proof {
            lemma_range_text_is_plain(self.window_start as nat, self.window_end as nat);
            assert(is_ascii(slice));
            is_ascii_spec_bytes(slice);
            assert(slice.spec_bytes() =~= ascii_bytes(slice@));
        }
        match header_value_from_str(slice) {
            Ok(value) => value,
            Err(_) => vstd::pervasive::unreached(),
        }
    }
}

/// True for the characters that a `Range` header of this library is made of.
pub open spec fn is_range_char(c: char) -> bool {
    is_digit(c) || c == 'b' || c == 'y' || c == 't' || c == 'e' || c == 's' || c == '=' || c == '-'
}

/// A range text holds only characters that a header value accepts as they
/// are: each is ASCII, and its byte is allowed.
pub proof fn lemma_range_text_is_plain(start: nat, end: nat)
    ensures
        forall|i: int|
            0 <= i < range_text(start, end).len() ==> is_range_char(#[trigger] range_text(start, end)[i]),
        forall|i: int|
            0 <= i < range_text(start, end).len() ==> header_byte_allowed(
                #[trigger] ascii_bytes(range_text(start, end))[i],
            ),
        vstd::utf8::is_ascii_chars(range_text(start, end)),
{
    lemma_decimal_digits_shape(start);
    lemma_decimal_digits_shape(end);
    let t = range_text(start, end);
    let a = decimal_digits(start);
    let b = decimal_digits(end);
    assert forall|i: int| 0 <= i < t.len() implies is_range_char(#[trigger] t[i]) by {
        if i < 6 {
        } else if i < 6 + a.len() {
            assert(t[i] == a[i - 6]);
        } else if i == 6 + a.len() {
        } else {
            assert(t[i] == b[i - 7 - a.len()]);
        }
    }
    assert forall|i: int| 0 <= i < t.len() implies header_byte_allowed(
        #[trigger] ascii_bytes(t)[i],
    ) by {
        assert(is_range_char(t[i]));
    }
    assert forall|i: int| 0 <= i < t.len() implies '\0' <= #[trigger] t[i] <= '\u{7f}' by {
        assert(is_range_char(t[i]));
    }
}

proof fn lemma_windows_from(total_length: u64, chunk_size: u64, start: int)
    requires
        chunk_size >= 1,
        0 <= start,
    ensures
        ({
            let ws = windows_from(total_length, chunk_size, start);
            &&& window_at(total_length, chunk_size, start) == (if ws.len() > 0 {
                Some(ws[0])
            } else {
                None
            })
            &&& forall|i: int|
                0 <= i < ws.len() ==> (#[trigger] ws[i]).valid() && ws[i].total_length
                    == total_length && ws[i].window_start >= start
            &&& forall|i: int|
                0 <= i < ws.len() ==> window_at(
                    total_length,
                    chunk_size,
                    (#[trigger] ws[i]).window_end + 1,
                ) == (if i + 1 < ws.len() {
                    Some(ws[i + 1])
                } else {
                    None
                })
        }),
    decreases total_length - start,
{
    let ws = windows_from(total_length, chunk_size, start);
    if window_due(total_length as int, start) {
        let head = window_at(total_length, chunk_size, start).unwrap();
        let follow = head.window_end + 1;
        let rest = windows_from(total_length, chunk_size, follow);
        lemma_windows_from(total_length, chunk_size, follow);
        assert(ws =~= seq![head] + rest);
        assert forall|i: int| 0 <= i < ws.len() implies (#[trigger] ws[i]).valid()
            && ws[i].total_length == total_length && ws[i].window_start >= start by {
            if i > 0 {
                assert(ws[i] == rest[i - 1]);
            }
        }
        assert forall|i: int| 0 <= i < ws.len() implies window_at(
            total_length,
            chunk_size,
            (#[trigger] ws[i]).window_end + 1,
        ) == (if i + 1 < ws.len() {
            Some(ws[i + 1])
        } else {
            None
        }) by {
            if i > 0 {
                assert(ws[i] == rest[i - 1]);
                if i + 1 < ws.len() {
                    assert(ws[i + 1] == rest[i]);
                }
            } else if rest.len() > 0 {
                assert(ws[1] == rest[0]);
            }
        }
    }
}

proof fn lemma_covered_unfold(total_length: u64, chunk_size: u64, start: int)
    requires
        chunk_size >= 1,
        0 <= start,
        window_due(total_length as int, start),
    ensures
        covered(windows_from(total_length, chunk_size, start)) == window_last(
            total_length as int,
            chunk_size as int,
            start,
        ) - start + 1 + covered(
            windows_from(
                total_length,
                chunk_size,
                window_last(total_length as int, chunk_size as int, start) + 1,
            ),
        ),
{
    let ws = windows_from(total_length, chunk_size, start);
    let rest = windows_from(
        total_length,
        chunk_size,
        window_last(total_length as int, chunk_size as int, start) + 1,
    );
    assert(ws.drop_first() =~= rest);
}

proof fn lemma_covered_whole(total_length: u64, chunk_size: u64, start: int)
    requires
        chunk_size >= 1,
        0 <= start <= total_length,
        start % (chunk_size as int) == 0,
        total_length == 0 || (total_length - 1) % (chunk_size as int) != 0,
    ensures
        covered(windows_from(total_length, chunk_size, start)) == total_length - start,
    decreases total_length - start,
{
    if window_due(total_length as int, start) {
        lemma_covered_unfold(total_length, chunk_size, start);
        if chunk_size <= total_length - start {
            vstd::arithmetic::div_mod::lemma_mod_add_multiples_vanish(start, chunk_size as int);
            lemma_covered_whole(total_length, chunk_size, start + chunk_size);
        } else {
            assert(windows_from(total_length, chunk_size, total_length as int) =~= Seq::empty());
        }
    }
}

proof fn lemma_covered_short(total_length: u64, chunk_size: u64, start: int)
    requires
        chunk_size >= 1,
        total_length >= 1,
        0 <= start <= total_length - 1,
        start % (chunk_size as int) == 0,
        (total_length - 1) % (chunk_size as int) == 0,
    ensures
        covered(windows_from(total_length, chunk_size, start)) == total_length - 1 - start,
    decreases total_length - start,
{
    if window_due(total_length as int, start) {
        lemma_covered_unfold(total_length, chunk_size, start);
        let c = chunk_size as int;
        let gap = total_length - 1 - start;
        assert(gap >= c) by {
            vstd::arithmetic::div_mod::lemma_fundamental_div_mod(start, c);
            vstd::arithmetic::div_mod::lemma_fundamental_div_mod(total_length - 1, c);
            let a = start / c;
            let b = (total_length - 1) / c;
            assert(gap == c * b - c * a);
            assert(c * b - c * a == c * (b - a)) by (nonlinear_arith);
            assert(b - a >= 1) by (nonlinear_arith)
                requires
                    c * (b - a) > 0,
                    c >= 1,
            ;
            assert(c * (b - a) >= c) by (nonlinear_arith)
                requires
                    b - a >= 1,
                    c >= 1,
            ;
        }
        vstd::arithmetic::div_mod::lemma_mod_add_multiples_vanish(start, c);
        lemma_covered_short(total_length, chunk_size, start + c);
    }
}

/// The windows of a transfer lie inside the resource, start at its first
/// byte, and follow one another without a gap and without overlap.
pub proof fn lemma_windows_contiguous(total_length: u64, chunk_size: u64)
    requires
        chunk_size >= 1,
    ensures
        forall|i: int|
            0 <= i < windows(total_length, chunk_size).len() ==> (#[trigger] windows(
                total_length,
                chunk_size,
            )[i]).valid() && windows(total_length, chunk_size)[i].total_length == total_length,
        windows(total_length, chunk_size).len() > 0 ==> windows(
            total_length,
            chunk_size,
        )[0].window_start == 0,
        forall|i: int|
            0 <= i && i + 1 < windows(total_length, chunk_size).len() ==> (#[trigger] windows(
                total_length,
                chunk_size,
            )[i]).window_end + 1 == windows(total_length, chunk_size)[i + 1].window_start,
{
    lemma_windows_from(total_length, chunk_size, 0);
    let ws = windows(total_length, chunk_size);
    assert forall|i: int| 0 <= i && i + 1 < ws.len() implies (#[trigger] ws[i]).window_end + 1
        == ws[i + 1].window_start by {
        assert(window_at(total_length, chunk_size, ws[i].window_end + 1) == Some(ws[i + 1]));
    }
}

/// Walking the windows with `first` and `next` visits `windows` in order and
/// stops after its last element.
pub proof fn lemma_windows_walk(total_length: u64, chunk_size: u64)
    requires
        chunk_size >= 1,
    ensures
        window_at(total_length, chunk_size, 0) == (if windows(total_length, chunk_size).len()
            > 0 {
            Some(windows(total_length, chunk_size)[0])
        } else {
            None
        }),
        forall|i: int|
            0 <= i < windows(total_length, chunk_size).len() ==> window_at(
                total_length,
                chunk_size,
                (#[trigger] windows(total_length, chunk_size)[i]).window_end + 1,
            ) == (if i + 1 < windows(total_length, chunk_size).len() {
                Some(windows(total_length, chunk_size)[i + 1])
            } else {
                None
            }),
{
    lemma_windows_from(total_length, chunk_size, 0);
}

/// The windows span the whole resource, byte for byte, unless the bytes
/// before the final one fill whole windows.
pub proof fn lemma_windows_cover(total_length: u64, chunk_size: u64)
    requires
        chunk_size >= 1,
        total_length == 0 || (total_length - 1) % (chunk_size as int) != 0,
    ensures
        covered(windows(total_length, chunk_size)) == total_length,
{
    lemma_covered_whole(total_length, chunk_size, 0);
}

/// Where the bytes before the final one fill whole windows, the windows span
/// all of the resource but its final byte.
pub proof fn lemma_windows_miss_final_byte(total_length: u64, chunk_size: u64)
    requires
        chunk_size >= 1,
        total_length >= 1,
        (total_length - 1) % (chunk_size as int) == 0,
    ensures
        covered(windows(total_length, chunk_size)) == total_length - 1,
{
    lemma_covered_short(total_length, chunk_size, 0);
}

} // verus!
