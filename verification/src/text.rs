//! The one-line texts that the node shows and logs.
//!
//! Every text is specified as a sequence of characters and built by a
//! function that is proved to produce exactly that sequence.

use crate::error::BusError;
use crate::error::DisplayError;
use crate::frame::Frame;
use crate::frame::FrameView;
use vstd::prelude::*;
use vstd::string::StrSliceExecFns;
use vstd::string::StringExecFns;

verus! {

/// The character of the decimal digit `d`.
pub open spec fn digit(d: nat) -> char
    recommends
        d < 10,
{
    ('0' as nat + d) as char
}

/// The decimal numeral of `n`, without leading zeros.
pub open spec fn decimal(n: nat) -> Seq<char>
    decreases n,
{
    if n < 10 {
        seq![digit(n)]
    } else {
        decimal(n / 10).push(digit(n % 10))
    }
}

/// The decimal numerals of the bytes of `data`, separated by a comma and a
/// space.
pub open spec fn separated(data: Seq<u8>) -> Seq<char>
    decreases data.len(),
{
    if data.len() == 0 {
        Seq::empty()
    } else if data.len() == 1 {
        decimal(data[0] as nat)
    } else {
        separated(data.drop_last()) + ", "@ + decimal(data.last() as nat)
    }
}

/// The bytes of `data` as a bracketed list, such as `[1, 2, 3]`; `[]` for no
/// bytes.
pub open spec fn byte_list(data: Seq<u8>) -> Seq<char> {
    "["@ + separated(data) + "]"@
}

/// The text shown once the bus has been set up.
pub open spec fn start_text() -> Seq<char> {
    "Start bus"@
}

/// The status text for a received frame: its identifier's number and its
/// payload.
pub open spec fn received_text(frame: FrameView) -> Seq<char> {
    "Got message id: "@ + decimal(frame.id.number()) + ", content: "@ + byte_list(frame.data)
}

/// The text for a bus that could not be set up.
pub open spec fn init_fault_text(cause: Seq<char>) -> Seq<char> {
    "Error bus "@ + cause
}

/// The text for a frame that could not be read.
pub open spec fn read_fault_text(cause: Seq<char>) -> Seq<char> {
    "Error receive"@ + cause
}

/// The text for a reply that could not be sent.
pub open spec fn send_fault_text(cause: Seq<char>) -> Seq<char> {
    "Error bus send "@ + cause
}

/// The text for a display that failed.
pub open spec fn display_fault_text(cause: Seq<char>) -> Seq<char> {
    "Txt error: "@ + cause
}

fn digit_text(d: u8) -> (text: &'static str)
    requires
        d < 10,
    ensures
        text@ == seq![digit(d as nat)],
{
    let digits = "0123456789";
    proof {
        reveal_strlit("0123456789");
    }
    let text = digits.substring_ascii(d as usize, d as usize + 1);
    assert(text@ =~= seq![digit(d as nat)]);
    text
}

fn append_decimal(text: &mut String, n: u32)
    ensures
        final(text)@ == old(text)@ + decimal(n as nat),
    decreases n,
{
    if n >= 10 {
        append_decimal(text, n / 10);
    }
    text.append(digit_text((n % 10) as u8));
    assert(text@ =~= old(text)@ + decimal(n as nat));
}

fn append_byte_list(text: &mut String, data: &[u8])
    ensures
        final(text)@ == old(text)@ + byte_list(data@),
{
    let ghost before = text@;
    text.append("[");
    let mut i: usize = 0;
    while i < data.len()
        invariant
            i <= data.len(),
            text@ == before + "["@ + separated(data@.take(i as int)),
        decreases data.len() - i,
    {
        if i > 0 {
            text.append(", ");
        }
        append_decimal(text, data[i] as u32);
        proof {
            let shorter = data@.take(i as int);
            let longer = data@.take(i + 1);
            assert(longer.drop_last() =~= shorter);
            assert(longer.last() == data@[i as int]);
            assert(text@ =~= before + "["@ + separated(longer));
        }
        i += 1;
    }
    text.append("]");
    proof {
        assert(data@.take(data@.len() as int) =~= data@);
        assert(text@ =~= before + byte_list(data@));
    }
}

/// The decimal numeral of `n`.
pub fn decimal_string(n: u32) -> (text: String)
    ensures
        text@ == decimal(n as nat),
{
    let mut text = String::new();
    append_decimal(&mut text, n);
    assert(text@ =~= decimal(n as nat));
    text
}

/// The bytes of `data` as a bracketed list.
pub fn byte_list_string(data: &[u8]) -> (text: String)
    ensures
        text@ == byte_list(data@),
{
    let mut text = String::new();
    append_byte_list(&mut text, data);
    assert(text@ =~= byte_list(data@));
    text
}

/// The text shown once the bus has been set up.
pub fn start_message() -> (text: String)
    ensures
        text@ == start_text(),
{
    String::from_str("Start bus")
}

/// The status text for a received frame.
pub fn received_message(frame: &Frame) -> (text: String)
    ensures
        text@ == received_text(frame@),
{
    let mut text = String::from_str("Got message id: ");
    append_decimal(&mut text, frame.id().raw());
    text.append(", content: ");
    append_byte_list(&mut text, frame.data());
    assert(text@ =~= received_text(frame@));
    text
}

/// The text for a bus that could not be set up.
pub fn init_fault_message(error: &BusError) -> (text: String)
    ensures
        text@ == init_fault_text(error@),
{
    String::from_str("Error bus ").concat(error.description())
}

/// The text for a frame that could not be read.
pub fn read_fault_message(error: &BusError) -> (text: String)
    ensures
        text@ == read_fault_text(error@),
{
    String::from_str("Error receive").concat(error.description())
}

/// The text for a reply that could not be sent.
pub fn send_fault_message(error: &BusError) -> (text: String)
    ensures
        text@ == send_fault_text(error@),
{
    String::from_str("Error bus send ").concat(error.description())
}

/// The text for a display that failed.
pub fn display_fault_message(error: &DisplayError) -> (text: String)
    ensures
        text@ == display_fault_text(error@),
{
    String::from_str("Txt error: ").concat(error.cause())
}

} // verus!
