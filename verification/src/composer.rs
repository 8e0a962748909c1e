//! The words of the display: how the player's state is put into the texts
//! that the lines show.

use crate::messages::{PingError, PingOutcome, PingTarget, PingTimes, StationType};
use crate::text::{
    decimal, lemma_decimal_len, push_decimal, push_right_justified, right_justified,
};
use vstd::prelude::*;
use vstd::string::*;

verus! {

/// What `str::to_lowercase` gives for a text.
pub uninterp spec fn lowercased(chars: Seq<char>) -> Seq<char>;

/// Calls `str::to_lowercase`, which maps every character to its lower-case
/// form as Unicode defines it. The result depends on the text alone; nothing
/// more is claimed of it.
#[verifier::external_body]
fn to_lowercase(text: &str) -> (lower: String)
    ensures
        lower@ == lowercased(text@),
{
    text.to_lowercase()
}

/// Whether `chars` begins with `prefix`.
pub open spec fn has_prefix(chars: Seq<char>, prefix: Seq<char>) -> bool {
    chars.len() >= prefix.len() && chars.subrange(0, prefix.len() as int) == prefix
}

/// Whether `text` begins with `prefix`.
pub fn starts_with(text: &str, prefix: &str) -> (found: bool)
    ensures
        found == has_prefix(text@, prefix@),
{
    let len = prefix.unicode_len();
    if text.unicode_len() < len {
        return false;
    }
    let mut i: usize = 0;
    while i < len
        invariant
            i <= len,
            len == prefix@.len(),
            len <= text@.len(),
            text@.subrange(0, i as int) == prefix@.subrange(0, i as int),
        decreases len - i,
    {
        if text.get_char(i) != prefix.get_char(i) {
            proof {
                assert(text@.subrange(0, len as int)[i as int] != prefix@[i as int]);
            }
            return false;
        }
        proof {
            assert(text@.subrange(0, i + 1) =~= text@.subrange(0, i as int).push(
                text@[i as int],
            ));
            assert(prefix@.subrange(0, i + 1) =~= prefix@.subrange(0, i as int).push(
                prefix@[i as int],
            ));
        }
        i += 1;
    }
    assert(prefix@ =~= prefix@.subrange(0, len as int));
    true
}

/// Whether a tag says, in any mix of cases, that its value is unknown.
pub open spec fn says_unknown(chars: Seq<char>) -> bool {
    has_prefix(lowercased(chars), "unknown"@)
}

/// Whether a text in lower case says that a value is unknown.
pub fn lowercase_says_unknown(lower: &str) -> (unknown: bool)
    ensures
        unknown == has_prefix(lower@, "unknown"@),
{
    starts_with(lower, "unknown")
}

/// Whether a tag says, in any mix of cases, that its value is unknown.
pub fn tag_says_unknown(tag: &str) -> (unknown: bool)
    ensures
        unknown == says_unknown(tag@),
{
    let lower = to_lowercase(tag);
    lowercase_says_unknown(lower.as_str())
}

/// Whether `text`, put into lower case, begins with `prefix`.
pub fn lowercase_starts_with(text: &str, prefix: &str) -> (found: bool)
    ensures
        found == has_prefix(lowercased(text@), prefix@),
{
    let lower = to_lowercase(text);
    starts_with(lower.as_str(), prefix)
}

/// A component of line 2 as it is shown: dropped where it is empty or says
/// that it is unknown.
pub open spec fn shown(chars: Seq<char>) -> Seq<char> {
    if chars.len() == 0 || says_unknown(chars) {
        Seq::empty()
    } else {
        chars
    }
}

/// Two components with a slash between them, or the one that is not empty.
pub open spec fn joined(first: Seq<char>, second: Seq<char>) -> Seq<char> {
    if first.len() == 0 {
        second
    } else if second.len() == 0 {
        first
    } else {
        first + " / "@ + second
    }
}

/// The text of line 2: the organisation, or without one the station's
/// title, then the artist and the album, with slashes between those that are
/// shown; then the countdown while the start is delayed.
pub open spec fn line2_text(
    organisation: Seq<char>,
    station_title: Seq<char>,
    artist: Seq<char>,
    album: Seq<char>,
    pause_before_playing: u64,
) -> Seq<char> {
    let title = shown(
        if organisation.len() > 0 {
            organisation
        } else {
            station_title
        },
    );
    let body = joined(title, joined(shown(artist), shown(album)));
    if pause_before_playing > 0 {
        body + " wait"@ + decimal(pause_before_playing as nat)
    } else {
        body
    }
}

fn shown_component(component: String) -> (text: String)
    ensures
        text@ == shown(component@),
{
    if component.as_str().unicode_len() == 0 || tag_says_unknown(component.as_str()) {
        String::new()
    } else {
        component
    }
}

fn join(first: String, second: String) -> (text: String)
    ensures
        text@ == joined(first@, second@),
{
    if first.as_str().unicode_len() == 0 {
        second
    } else if second.as_str().unicode_len() == 0 {
        first
    } else {
        let mut text = first;
        text.append(" / ");
        text.append(second.as_str());
        assert(text@ =~= joined(first@, second@));
        text
    }
}

/// Puts the text of line 2 together.
pub fn assembleline2(
    organisation: String,
    station_title: String,
    artist: String,
    album: String,
    pause_before_playing: u64,
) -> (text: String)
    ensures
        text@ == line2_text(organisation@, station_title@, artist@, album@, pause_before_playing),
{
    let title = shown_component(
        if organisation.as_str().unicode_len() > 0 {
            organisation
        } else {
            station_title
        },
    );
    let artist_and_album = join(shown_component(artist), shown_component(album));
    let mut text = join(title, artist_and_album);
    if pause_before_playing > 0 {
        text.append(" wait");
        push_decimal(&mut text, pause_before_playing);
        assert(text@ =~= line2_text(
            organisation@,
            station_title@,
            artist@,
            album@,
            pause_before_playing,
        ));
    }
    text
}

/// Number of digits counted for a track's number: one below ten, else two.
pub open spec fn track_digits(track_number: nat) -> nat {
    if track_number < 10 {
        1
    } else {
        2
    }
}

/// Number of digits counted for a time in seconds: at most four.
pub open spec fn seconds_digits(seconds: nat) -> nat {
    if seconds < 10 {
        1
    } else if seconds < 100 {
        2
    } else if seconds < 1000 {
        3
    } else {
        4
    }
}

/// The position counter of line 1: the track's number, the position and the
/// duration, both in seconds. The more digits the three numbers have
/// together, the more of the spaces around `of` give way; with more than ten
/// the duration is left out.
pub open spec fn position_text(track_number: nat, position: nat, duration: nat) -> Seq<char> {
    let digits = track_digits(track_number) + seconds_digits(position) + seconds_digits(
        duration,
    );
    let track = decimal(track_number);
    let at = decimal(position);
    let of = decimal(duration);
    if digits <= 7 {
        track + ": "@ + at + " of "@ + of
    } else if digits == 8 {
        track + ":"@ + at + " of "@ + of
    } else if digits == 9 {
        track + ":"@ + at + "of "@ + of
    } else if digits == 10 {
        track + ": "@ + at + "of"@ + of
    } else {
        track + ": "@ + at
    }
}

/// The digits counted for a time are the digits of its numeral, as far as
/// there are no more than four.
pub proof fn lemma_seconds_digits_count_the_numeral(seconds: nat)
    ensures
        seconds < 10000 ==> seconds_digits(seconds) == decimal(seconds).len(),
        seconds >= 10000 ==> seconds_digits(seconds) == 4 && decimal(seconds).len() > 4,
{
    lemma_decimal_len(seconds);
}

/// With up to nine digits in all, the position counter of a track below
/// the hundredth, at times below ten thousand seconds, fits the data zone
/// of thirteen cells.
pub proof fn lemma_position_text_fits_data_zone(track_number: nat, position: nat, duration: nat)
    requires
        track_number < 100,
        position < 10000,
        duration < 10000,
        track_digits(track_number) + seconds_digits(position) + seconds_digits(duration) <= 9,
    ensures
        position_text(track_number, position, duration).len() <= 13,
{
    lemma_decimal_len(track_number);
    lemma_decimal_len(position);
    lemma_decimal_len(duration);
    reveal_strlit(": ");
    reveal_strlit(":");
    reveal_strlit(" of ");
    reveal_strlit("of ");
}

fn seconds_digit_count(seconds: u64) -> (digits: u8)
    ensures
        digits == seconds_digits(seconds as nat),
{
    if seconds < 10 {
        1
    } else if seconds < 100 {
        2
    } else if seconds < 1000 {
        3
    } else {
        4
    }
}

/// Puts the position counter of line 1 together.
pub fn format_track_position(track_number: u64, position_secs: u64, duration_secs: u64) -> (text:
    String)
    ensures
        text@ == position_text(track_number as nat, position_secs as nat, duration_secs as nat),
{
    let track_digit_count: u8 = if track_number < 10 { 1 } else { 2 };
    let digits = track_digit_count + seconds_digit_count(position_secs) + seconds_digit_count(
        duration_secs,
    );
    let mut text = String::new();
    push_decimal(&mut text, track_number);
    if digits <= 7 {
        text.append(": ");
        push_decimal(&mut text, position_secs);
        text.append(" of ");
        push_decimal(&mut text, duration_secs);
    } else if digits == 8 {
        text.append(":");
        push_decimal(&mut text, position_secs);
        text.append(" of ");
        push_decimal(&mut text, duration_secs);
    } else if digits == 9 {
        text.append(":");
        push_decimal(&mut text, position_secs);
        text.append("of ");
        push_decimal(&mut text, duration_secs);
    } else if digits == 10 {
        text.append(": ");
        push_decimal(&mut text, position_secs);
        text.append("of");
        push_decimal(&mut text, duration_secs);
    } else {
        text.append(": ");
        push_decimal(&mut text, position_secs);
    }
    assert(text@ =~= position_text(
        track_number as nat,
        position_secs as nat,
        duration_secs as nat,
    ));
    text
}

/// The label of line 1 for a station that plays: its kind and its channel.
pub open spec fn station_label(source_type: StationType, channel: Seq<char>) -> Seq<char> {
    match source_type {
        StationType::UPnP => "Station "@ + channel,
        StationType::UrlList => "Station "@ + channel,
        StationType::CD => "Playing CD"@,
        StationType::Usb => "USB "@ + channel,
        StationType::SambaShare => channel,
    }
}

/// Puts the label of line 1 together.
pub fn format_station_label(source_type: StationType, channel: &str) -> (text: String)
    ensures
        text@ == station_label(source_type, channel@),
{
    let mut text = String::new();
    match source_type {
        StationType::UPnP => {
            text.append("Station ");
            text.append(channel);
        },
        StationType::UrlList => {
            text.append("Station ");
            text.append(channel);
        },
        StationType::CD => {
            text.append("Playing CD");
        },
        StationType::Usb => {
            text.append("USB ");
            text.append(channel);
        },
        StationType::SambaShare => {
            text.append(channel);
        },
    }
    assert(text@ =~= station_label(source_type, channel@));
    text
}

/// Width of the status zone of line 1, which the network indicator fills.
pub const INDICATOR_WIDTH: usize = 7;

/// A round trip in milliseconds, right-justified in four characters: below
/// ten milliseconds with one decimal, rounded half up from microseconds;
/// from ten on as a whole number.
pub open spec fn millis_text(nanos: u64) -> Seq<char> {
    if nanos < 9_999_999 {
        let tenths = (nanos as nat / 1000 + 50) / 100;
        right_justified(decimal(tenths / 10) + "."@ + decimal(tenths % 10), 4)
    } else {
        right_justified(decimal(nanos as nat / 1_000_000), 4)
    }
}

/// The letter that names a ping target: `L` for the local gateway, `R` for
/// the remote host.
pub open spec fn target_letter(target: PingTarget) -> Seq<char> {
    match target {
        PingTarget::Gateway => "L"@,
        PingTarget::Remote => "R"@,
    }
}

/// The words for a ping that got no answer.
pub open spec fn ping_failure_text(error: PingError) -> Seq<char> {
    match error {
        PingError::FailedToRecieveICMP => "RxFail"@,
        PingError::DestinationUnreachable => "NoDest"@,
        PingError::Timeout => "NoRply"@,
        PingError::FailedToSendICMP => "TxFail"@,
        PingError::Dns => "DnsErr"@,
    }
}

/// The words for the outcome of a ping of one target.
pub open spec fn ping_text(target: PingTarget, outcome: PingOutcome) -> Seq<char> {
    match outcome {
        PingOutcome::Reply(nanos) => target_letter(target) + millis_text(nanos) + "ms"@,
        PingOutcome::Failed(error) => target_letter(target) + ping_failure_text(error),
    }
}

/// The words for the processor's temperature in the network indicator.
pub open spec fn temperature_text(cpu_temperature: i32) -> Seq<char> {
    "CPU"@ + right_justified(crate::text::signed_decimal(cpu_temperature as int), 3) + "C"@
}

/// The network indicator of line 1: the latest ping, or in its place, every
/// other time once the remote host has been pinged, the processor's
/// temperature. Without a measurement there is no indicator.
pub open spec fn indicator_text(
    ping: PingTimes,
    show_temperature: bool,
    cpu_temperature: i32,
) -> Option<Seq<char>> {
    match ping {
        PingTimes::NotPinged => None,
        PingTimes::BadUrl => Some("Bad URL"@),
        PingTimes::Gateway(outcome) => Some(ping_text(PingTarget::Gateway, outcome)),
        PingTimes::GatewayAndRemote { gateway_ping, remote_ping, latest } => match latest {
            PingTarget::Gateway => Some(
                ping_text(PingTarget::Gateway, PingOutcome::Reply(gateway_ping)),
            ),
            PingTarget::Remote => Some(ping_text(PingTarget::Remote, remote_ping)),
        },
        PingTimes::FinishedPingingRemote { gateway_ping } => if show_temperature {
            Some(temperature_text(cpu_temperature))
        } else {
            Some(ping_text(PingTarget::Gateway, PingOutcome::Reply(gateway_ping)))
        },
    }
}

/// The indicator's words for a ping never take more than the seven cells of
/// the status zone while the round trip is below ten seconds, and the words
/// for the temperature never while it has at most three characters.
pub proof fn lemma_indicator_fits_status_zone(
    ping: PingTimes,
    show_temperature: bool,
    cpu_temperature: i32,
)
    requires
        -100 < cpu_temperature < 1000,
        ping matches PingTimes::Gateway(PingOutcome::Reply(nanos)) ==> nanos < 10_000_000_000,
        ping matches PingTimes::GatewayAndRemote { gateway_ping, remote_ping, .. }
            ==> gateway_ping < 10_000_000_000 && (remote_ping matches PingOutcome::Reply(nanos)
            ==> nanos < 10_000_000_000),
        ping matches PingTimes::FinishedPingingRemote { gateway_ping } ==> gateway_ping
            < 10_000_000_000,
    ensures
        indicator_text(ping, show_temperature, cpu_temperature) is Some ==> indicator_text(
            ping,
            show_temperature,
            cpu_temperature,
        )->0.len() == INDICATOR_WIDTH,
{
    reveal_strlit("Bad URL");
    reveal_strlit("L");
    reveal_strlit("R");
    reveal_strlit("ms");
    reveal_strlit(".");
    reveal_strlit("CPU");
    reveal_strlit("C");
    reveal_strlit("RxFail");
    reveal_strlit("NoDest");
    reveal_strlit("NoRply");
    reveal_strlit("TxFail");
    reveal_strlit("DnsErr");
    assert forall|nanos: u64| nanos < 10_000_000_000 implies #[trigger] millis_text(nanos).len()
        == 4 by {
        if nanos < 9_999_999 {
            let tenths = (nanos as nat / 1000 + 50) / 100;
            lemma_decimal_len(tenths / 10);
            lemma_decimal_len(tenths % 10);
        } else {
            lemma_decimal_len(nanos as nat / 1_000_000);
        }
    }
    if cpu_temperature < 0 {
        lemma_decimal_len((-cpu_temperature) as nat);
    } else {
        lemma_decimal_len(cpu_temperature as nat);
    }
}

fn push_millis(out: &mut String, nanos: u64)
    ensures
        final(out)@ == old(out)@ + millis_text(nanos),
{
    let mut number = String::new();
    if nanos < 9_999_999 {
        let tenths = (nanos / 1000 + 50) / 100;
        push_decimal(&mut number, tenths / 10);
        number.append(".");
        push_decimal(&mut number, tenths % 10);
        assert(number@ =~= decimal((tenths / 10) as nat) + "."@ + decimal((tenths % 10) as nat));
    } else {
        push_decimal(&mut number, nanos / 1_000_000);
        assert(number@ =~= decimal(nanos as nat / 1_000_000));
    }
    push_right_justified(out, number.as_str(), 4);
}

fn target_letter_of(target: PingTarget) -> (letter: &'static str)
    ensures
        letter@ == target_letter(target),
{
    match target {
        PingTarget::Gateway => "L",
        PingTarget::Remote => "R",
    }
}

fn ping_failure_words(error: PingError) -> (text: &'static str)
    ensures
        text@ == ping_failure_text(error),
{
    match error {
        PingError::FailedToRecieveICMP => "RxFail",
        PingError::DestinationUnreachable => "NoDest",
        PingError::Timeout => "NoRply",
        PingError::FailedToSendICMP => "TxFail",
        PingError::Dns => "DnsErr",
    }
}

fn push_ping(out: &mut String, target: PingTarget, outcome: PingOutcome)
    ensures
        final(out)@ == old(out)@ + ping_text(target, outcome),
{
    out.append(target_letter_of(target));
    match outcome {
        PingOutcome::Reply(nanos) => {
            push_millis(out, nanos);
            out.append("ms");
        },
        PingOutcome::Failed(error) => {
            out.append(ping_failure_words(error));
        },
    }
    assert(final(out)@ =~= old(out)@ + ping_text(target, outcome));
}

/// Puts the network indicator of line 1 together.
pub fn format_indicator(ping: PingTimes, show_temperature: bool, cpu_temperature: i32) -> (text:
    Option<String>)
    ensures
        text is Some == indicator_text(ping, show_temperature, cpu_temperature) is Some,
        text is Some ==> text->0@ == indicator_text(ping, show_temperature, cpu_temperature)->0,
{
    let mut out = String::new();
    match ping {
        PingTimes::NotPinged => {
            return None;
        },
        PingTimes::BadUrl => {
            out.append("Bad URL");
        },
        PingTimes::Gateway(outcome) => {
            push_ping(&mut out, PingTarget::Gateway, outcome);
        },
        PingTimes::GatewayAndRemote { gateway_ping, remote_ping, latest } => match latest {
            PingTarget::Gateway => {
                push_ping(&mut out, PingTarget::Gateway, PingOutcome::Reply(gateway_ping));
            },
            PingTarget::Remote => {
                push_ping(&mut out, PingTarget::Remote, remote_ping);
            },
        },
        PingTimes::FinishedPingingRemote { gateway_ping } => {
            if show_temperature {
                out.append("CPU");
                let mut number = String::new();
                crate::text::push_signed_decimal(&mut number, cpu_temperature as i64);
                assert(number@ =~= crate::text::signed_decimal(cpu_temperature as int));
                push_right_justified(&mut out, number.as_str(), 3);
                out.append("C");
            } else {
                push_ping(&mut out, PingTarget::Gateway, PingOutcome::Reply(gateway_ping));
            }
        },
    }
    assert(out@ =~= indicator_text(ping, show_temperature, cpu_temperature)->0);
    Some(out)
}

} // verus!
