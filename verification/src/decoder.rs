//! The framing of the player's byte stream, and the check of the header that
//! the player opens the stream with.
//!
//! A frame is a length of two bytes, most significant first, and that many
//! bytes of payload. A length of zero says that the player shuts down.

use crate::alert::{left_line, ErrorState};
use crate::composer::{has_prefix, starts_with};
use vstd::prelude::*;
use vstd::slice::*;
use vstd::string::*;
use vstd::utf8::*;

verus! {

/// Number of bytes in the length that precedes every payload.
pub const FRAME_PREFIX_LEN: usize = 2;

/// What the bytes received so far amount to.
#[derive(Clone, Copy, Debug, PartialEq, Eq, Structural)]
pub enum FrameStep {
    /// The frame is not complete yet: read on.
    NeedMore,
    /// The player has shut down in good order.
    Shutdown,
    /// A whole frame has arrived; its payload has this many bytes and
    /// follows the length.
    Payload(usize),
    /// The stream ended inside a frame.
    Corrupt,
}

/// The length that two bytes spell, most significant first.
pub open spec fn frame_length(high: u8, low: u8) -> nat {
    (high as nat) * 256 + low as nat
}

/// What the bytes received so far amount to, given whether the stream has
/// ended behind them.
pub open spec fn frame_step_of(buffer: Seq<u8>, stream_ended: bool) -> FrameStep {
    if buffer.len() == 0 {
        if stream_ended {
            FrameStep::Shutdown
        } else {
            FrameStep::NeedMore
        }
    } else if buffer.len() < FRAME_PREFIX_LEN {
        if stream_ended {
            FrameStep::Corrupt
        } else {
            FrameStep::NeedMore
        }
    } else if frame_length(buffer[0], buffer[1]) == 0 {
        FrameStep::Shutdown
    } else if buffer.len() < FRAME_PREFIX_LEN + frame_length(buffer[0], buffer[1]) {
        if stream_ended {
            FrameStep::Corrupt
        } else {
            FrameStep::NeedMore
        }
    } else {
        FrameStep::Payload(frame_length(buffer[0], buffer[1]) as usize)
    }
}

/// Looks at the bytes received so far and says what they amount to.
pub fn frame_step(buffer: &[u8], stream_ended: bool) -> (step: FrameStep)
    ensures
        step == frame_step_of(buffer@, stream_ended),
{
    let unfinished = if stream_ended { FrameStep::Corrupt } else { FrameStep::NeedMore };
    if buffer.len() == 0 {
        if stream_ended {
            FrameStep::Shutdown
        } else {
            FrameStep::NeedMore
        }
    } else if buffer.len() < FRAME_PREFIX_LEN {
        unfinished
    } else {
        let length: usize = (buffer[0] as usize) * 256 + buffer[1] as usize;
        if length == 0 {
            FrameStep::Shutdown
        } else if buffer.len() - FRAME_PREFIX_LEN < length {
            unfinished
        } else {
            FrameStep::Payload(length)
        }
    }
}

/// The payload of the first frame of a buffer that holds a whole frame.
pub open spec fn payload_of(buffer: Seq<u8>) -> Seq<u8> {
    buffer.subrange(
        FRAME_PREFIX_LEN as int,
        FRAME_PREFIX_LEN + frame_length(buffer[0], buffer[1]),
    )
}

/// Takes the first frame off a buffer that holds a whole one, and returns
/// its payload; the buffer keeps what follows the frame.
pub fn take_payload(buffer: &mut Vec<u8>) -> (payload: Vec<u8>)
    requires
        frame_step_of(old(buffer)@, false) is Payload,
    ensures
        payload@ == payload_of(old(buffer)@),
        final(buffer)@ == old(buffer)@.subrange(
            FRAME_PREFIX_LEN + payload@.len(),
            old(buffer)@.len() as int,
        ),
{
    let length: usize = (buffer[0] as usize) * 256 + buffer[1] as usize;
    let end = FRAME_PREFIX_LEN + length;
    let mut payload: Vec<u8> = Vec::new();
    let mut rest: Vec<u8> = Vec::new();
    let mut i: usize = FRAME_PREFIX_LEN;
    assert(payload@ =~= buffer@.subrange(FRAME_PREFIX_LEN as int, i as int));
    while i < end
        invariant
            FRAME_PREFIX_LEN <= i <= end <= buffer@.len(),
            payload@ == buffer@.subrange(FRAME_PREFIX_LEN as int, i as int),
        decreases end - i,
    {
        payload.push(buffer[i]);
        i += 1;
        assert(payload@ =~= buffer@.subrange(FRAME_PREFIX_LEN as int, i as int));
    }
    assert(rest@ =~= buffer@.subrange(end as int, i as int));
    while i < buffer.len()
        invariant
            end <= i <= buffer@.len(),
            rest@ == buffer@.subrange(end as int, i as int),
        decreases buffer.len() - i,
    {
        rest.push(buffer[i]);
        i += 1;
        assert(rest@ =~= buffer@.subrange(end as int, i as int));
    }
    *buffer = rest;
    payload
}

/// Every byte of a whole frame is either its length, its payload or what
/// follows it: the length and the payload that `take_payload` returns, with
/// what it leaves, make up the buffer again.
pub proof fn lemma_frame_parts(buffer: Seq<u8>)
    requires
        frame_step_of(buffer, false) is Payload,
    ensures
        buffer == seq![buffer[0], buffer[1]] + payload_of(buffer) + buffer.subrange(
            FRAME_PREFIX_LEN + payload_of(buffer).len(),
            buffer.len() as int,
        ),
        payload_of(buffer).len() == frame_length(buffer[0], buffer[1]),
        payload_of(buffer).len() > 0,
{
    assert(buffer =~= seq![buffer[0], buffer[1]] + payload_of(buffer) + buffer.subrange(
        FRAME_PREFIX_LEN + payload_of(buffer).len(),
        buffer.len() as int,
    ));
}

/// The name that every header of the player begins with.
pub open spec fn header_name() -> Seq<char> {
    "rradio-messages_"@
}

/// Whether a character may pad a header or a reading: any white space.
pub open spec fn is_padding(ch: char) -> bool {
    crate::text::is_white_space(ch)
}

/// `chars` without the white space at its end.
pub open spec fn without_padding(chars: Seq<char>) -> Seq<char>
    decreases chars.len(),
{
    if chars.len() > 0 && is_padding(chars.last()) {
        without_padding(chars.drop_last())
    } else {
        chars
    }
}

/// What a header says of the stream it opens.
#[derive(Clone, Copy, Debug, PartialEq, Eq, Structural)]
pub enum HeaderVerdict {
    /// The player speaks the expected version of the protocol.
    Accepted,
    /// The header is not text.
    NotUtf8,
    /// The header is text, but not that of the player.
    NotRRadio,
    /// The player speaks another version of the protocol.
    VersionMismatch,
}

/// The version that a header of the player names: what follows the name,
/// without padding.
pub open spec fn header_version(header: Seq<char>) -> Seq<char> {
    without_padding(header.subrange(header_name().len() as int, header.len() as int))
}

/// What a header says, given the version that is expected.
pub open spec fn header_verdict(expected_version: Seq<char>, header: Seq<u8>) -> HeaderVerdict {
    if !valid_utf8(header) {
        HeaderVerdict::NotUtf8
    } else if !has_prefix(decode_utf8(header), header_name()) {
        HeaderVerdict::NotRRadio
    } else if header_version(decode_utf8(header)) == expected_version {
        HeaderVerdict::Accepted
    } else {
        HeaderVerdict::VersionMismatch
    }
}

/// Calls `std::str::from_utf8`, which checks that the bytes are valid UTF-8
/// and then hands them back as text: the text's bytes are the bytes given.
#[verifier::external_body]
fn utf8_text(bytes: &[u8]) -> (text: Option<&str>)
    ensures
        text is Some <==> valid_utf8(bytes@),
        text is Some ==> text->0.spec_bytes() == bytes@,
{
    std::str::from_utf8(bytes).ok()
}

/// The text without the white space at its end.
pub fn trim_padding(text: &str) -> (trimmed: &str)
    ensures
        trimmed@ == without_padding(text@),
{
    let mut end = text.unicode_len();
    assert(text@.subrange(0, end as int) =~= text@);
    while end > 0 && crate::text::is_white_space_char(text.get_char(end - 1))
        invariant
            end <= text@.len(),
            without_padding(text@) == without_padding(text@.subrange(0, end as int)),
        decreases end,
    {
        proof {
            let head = text@.subrange(0, end as int);
            assert(head.last() == text@[end - 1]);
            assert(head.drop_last() =~= text@.subrange(0, end - 1));
        }
        end -= 1;
    }
    proof {
        let head = text@.subrange(0, end as int);
        if end > 0 {
            assert(head.last() == text@[end - 1]);
        }
        assert(without_padding(head) == head);
    }
    text.substring_char(0, end)
}

/// The alert that a header leads to: none where it is accepted, else the
/// alert for a version mismatch. A header that is not accepted never leads
/// to `NoError`.
pub open spec fn header_alert(verdict: HeaderVerdict) -> ErrorState {
    match verdict {
        HeaderVerdict::Accepted => ErrorState::NoError,
        _ => ErrorState::VersionMismatch,
    }
}

/// The words that report a header that is not accepted, over the lines of
/// the display; none for one that is.
pub open spec fn header_text(
    verdict: HeaderVerdict,
    expected_version: Seq<char>,
    header: Seq<char>,
) -> Seq<char> {
    match verdict {
        HeaderVerdict::Accepted => Seq::empty(),
        HeaderVerdict::NotUtf8 => left_line("Bad RRadio Header"@) + "Not UTF-8"@,
        HeaderVerdict::NotRRadio => left_line("Not RRadio"@) + header,
        HeaderVerdict::VersionMismatch => crate::alert::version_mismatch_text(
            expected_version,
            header_version(header),
        ),
    }
}

/// Checks the header that opens the stream, and puts what there is to
/// report of it into words.
pub fn header_report(expected_version: &str, header: &[u8]) -> (report: (HeaderVerdict, String))
    ensures
        report.0 == header_verdict(expected_version@, header@),
        report.1@ == header_text(report.0, expected_version@, decode_utf8(header@)),
{
    let mut words = String::new();
    match utf8_text(header) {
        None => {
            crate::text::push_left_fitted(&mut words, "Bad RRadio Header", 20);
            words.append("Not UTF-8");
            assert(words@ =~= left_line("Bad RRadio Header"@) + "Not UTF-8"@);
            (HeaderVerdict::NotUtf8, words)
        },
        Some(text) => {
            proof {
                encode_utf8_decode_utf8(text@);
                reveal_strlit("rradio-messages_");
            }
            if !starts_with(text, "rradio-messages_") {
                crate::text::push_left_fitted(&mut words, "Not RRadio", 20);
                words.append(text);
                assert(words@ =~= left_line("Not RRadio"@) + text@);
                (HeaderVerdict::NotRRadio, words)
            } else {
                let version = trim_padding(text.substring_char(16, text.unicode_len()));
                let verdict = crate::alert::ErrorList::from_protocol_version(
                    expected_version,
                    version,
                );
                if verdict.errors_changed() {
                    (HeaderVerdict::VersionMismatch, verdict.error_as_string().to_string())
                } else {
                    (HeaderVerdict::Accepted, words)
                }
            }
        },
    }
}

/// Checks the header that opens the stream against the expected version.
pub fn check_header(expected_version: &str, header: &[u8]) -> (verdict: HeaderVerdict)
    ensures
        verdict == header_verdict(expected_version@, header@),
{
    header_report(expected_version, header).0
}

} // verus!
