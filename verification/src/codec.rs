//! The message codec: protocol messages and their bytes on the wire.
//!
//! A message on the wire is its address path as an OSC string, its type tags as an OSC
//! string, and the data of its arguments in order.

use vstd::prelude::*;
use vstd::string::StringExecFns;
use vstd::utf8::{encode_utf8, is_ascii_chars, is_ascii_chars_encode_utf8};
use crate::config::{OSC_CONNECTION_STATUS_PATH, OSC_HEART_RATE_PATH};
use crate::decoder::HeartRateReading;

verus! {

/// One typed argument of a message.
#[derive(Clone, Copy, Debug, PartialEq, Eq)]
pub enum Argument {
    /// A single-precision number, held as its IEEE 754 bit pattern.
    Float(u32),
    /// A truth value; it travels in the type tag alone.
    Bool(bool),
}

/// An address path and the arguments sent to it.
#[derive(Clone, Debug, PartialEq, Eq)]
pub struct ProtocolMessage {
    pub path: String,
    pub args: Vec<Argument>,
}

/// Mathematical model of [`ProtocolMessage`].
#[verifier::ext_equal]
pub struct ProtocolMessageView {
    pub path: Seq<char>,
    pub args: Seq<Argument>,
}

impl View for ProtocolMessage {
    type V = ProtocolMessageView;

    open spec fn view(&self) -> ProtocolMessageView {
        ProtocolMessageView { path: self.path@, args: self.args@ }
    }
}

/// Why a message could not be put on the wire.
#[derive(Clone, Copy, Debug, PartialEq, Eq)]
pub enum EncodeError {
    /// An argument is of a kind that the wire format has no type tag for.
    UnsupportedArgument,
}

/// That many zero bytes.
pub open spec fn zeros(count: nat) -> Seq<u8> {
    Seq::new(count, |i: int| 0u8)
}

/// A text as an OSC string: its bytes, then one to four zero bytes, as many as bring
/// the length to a multiple of four.
pub open spec fn osc_string(text: Seq<u8>) -> Seq<u8> {
    text + zeros((4 - text.len() % 4) as nat)
}

/// The character that tells the kind of an argument.
pub open spec fn type_tag(arg: Argument) -> char {
    match arg {
        Argument::Float(_) => 'f',
        Argument::Bool(true) => 'T',
        Argument::Bool(false) => 'F',
    }
}

/// The type tag text of an argument list: a comma, then one tag for each argument.
pub open spec fn type_tags(args: Seq<Argument>) -> Seq<char> {
    seq![','] + Seq::new(args.len(), |i: int| type_tag(args[i]))
}

/// The four bytes of a 32-bit pattern, most significant first.
pub open spec fn big_endian(bits: u32) -> Seq<u8> {
    seq![
        (bits / 0x100_0000) as u8,
        (bits / 0x1_0000 % 0x100) as u8,
        (bits / 0x100 % 0x100) as u8,
        (bits % 0x100) as u8,
    ]
}

/// The data bytes of one argument.
pub open spec fn argument_data(arg: Argument) -> Seq<u8> {
    match arg {
        Argument::Float(bits) => big_endian(bits),
        Argument::Bool(_) => Seq::empty(),
    }
}

/// The data bytes of an argument list, in the order of the arguments.
pub open spec fn arguments_data(args: Seq<Argument>) -> Seq<u8>
    decreases args.len(),
{
    if args.len() == 0 {
        Seq::empty()
    } else {
        arguments_data(args.drop_last()) + argument_data(args.last())
    }
}

/// The bytes of a message on the wire.
pub open spec fn wire_bytes(message: ProtocolMessageView) -> Seq<u8> {
    osc_string(encode_utf8(message.path)) + osc_string(encode_utf8(type_tags(message.args)))
        + arguments_data(message.args)
}

/// The heart-rate message of a reading: its normalized value, as one number.
pub open spec fn heart_rate_packet(reading: HeartRateReading) -> ProtocolMessageView {
    ProtocolMessageView {
        path: OSC_HEART_RATE_PATH@,
        args: seq![Argument::Float(reading.normalized)],
    }
}

/// The connection-status message: one truth value, always true.
pub open spec fn connection_status_packet() -> ProtocolMessageView {
    ProtocolMessageView { path: OSC_CONNECTION_STATUS_PATH@, args: seq![Argument::Bool(true)] }
}

/// Makes a message of a path and its arguments.
pub fn build(path: &str, args: Vec<Argument>) -> (message: ProtocolMessage)
    ensures
        message@ == (ProtocolMessageView { path: path@, args: args@ }),
{
    ProtocolMessage { path: path.to_owned(), args }
}

/// The heart-rate message of a reading.
pub fn heart_rate_message(reading: &HeartRateReading) -> (message: ProtocolMessage)
    ensures
        message@ == heart_rate_packet(*reading),
{
    build(OSC_HEART_RATE_PATH, vec![Argument::Float(reading.normalized)])
}

/// The connection-status message.
pub fn connection_status_message() -> (message: ProtocolMessage)
    ensures
        message@ == connection_status_packet(),
{
    build(OSC_CONNECTION_STATUS_PATH, vec![Argument::Bool(true)])
}

/// Calls `rosc::encoder::encode_string`, which is not verified here. It is taken to
/// return the UTF-8 bytes of the text followed by zero bytes up to the next multiple of
/// four, at least one of them.
#[verifier::external_body]
fn encode_osc_string(text: &str) -> (bytes: Vec<u8>)
    ensures
        bytes@ == osc_string(encode_utf8(text@)),
{
    rosc::encoder::encode_string(text)
}

/// Appends the data bytes of one argument.
fn push_argument_data(data: &mut Vec<u8>, arg: Argument)
    ensures
        final(data)@ == old(data)@ + argument_data(arg),
{
    match arg {
        Argument::Float(bits) => {
            data.push((bits / 0x100_0000) as u8);
            data.push((bits / 0x1_0000 % 0x100) as u8);
            data.push((bits / 0x100 % 0x100) as u8);
            data.push((bits % 0x100) as u8);
        },
        Argument::Bool(_) => {},
    }
}

/// The type tag of one argument, as text.
fn type_tag_text(arg: Argument) -> (tag: &'static str)
    ensures
        tag@ == seq![type_tag(arg)],
{
    proof {
        reveal_strlit("f");
        reveal_strlit("T");
        reveal_strlit("F");
    }
    match arg {
        Argument::Float(_) => "f",
        Argument::Bool(true) => "T",
        Argument::Bool(false) => "F",
    }
}

/// Puts a message on the wire.
///
/// Both kinds of argument have a type tag, so every message can be encoded.
pub fn encode(message: &ProtocolMessage) -> (encoded: Result<Vec<u8>, EncodeError>)
    ensures
        encoded matches Ok(bytes) && bytes@ == wire_bytes(message@),
{
    let mut bytes = encode_osc_string(message.path.as_str());
    let mut tags: String = ",".to_owned();
    let mut data: Vec<u8> = Vec::new();
    proof {
        reveal_strlit(",");
        assert(tags@ =~= type_tags(message.args@.take(0)));
    }
    let mut done: usize = 0;
    while done < message.args.len()
        invariant
            done <= message.args.len(),
            tags@ == type_tags(message.args@.take(done as int)),
            data@ == arguments_data(message.args@.take(done as int)),
        decreases message.args.len() - done,
    {
        let arg = message.args[done];
        tags.append(type_tag_text(arg));
        push_argument_data(&mut data, arg);
        proof {
            let before = message.args@.take(done as int);
            let after = message.args@.take(done + 1);
            assert(after.drop_last() =~= before);
            assert(after.last() == arg);
            assert(tags@ =~= type_tags(after));
        }
        done = done + 1;
    }
    assert(message.args@.take(done as int) =~= message.args@);
    let mut tag_bytes = encode_osc_string(tags.as_str());
    bytes.append(&mut tag_bytes);
    bytes.append(&mut data);
    Ok(bytes)
}

/// The bytes of a text made of ASCII characters: one byte for each character.
pub open spec fn ascii_bytes(text: Seq<char>) -> Seq<u8> {
    Seq::new(text.len(), |i: int| text[i] as u8)
}

/// An OSC string begins with its text, goes on with zero bytes only, and ends on a
/// multiple of four, one to four bytes after the text.
pub proof fn lemma_osc_string_layout(text: Seq<u8>)
    ensures
        osc_string(text).len() % 4 == 0,
        text.len() < osc_string(text).len() <= text.len() + 4,
        osc_string(text).subrange(0, text.len() as int) == text,
        forall|i: int| text.len() <= i < osc_string(text).len() ==> osc_string(text)[i] == 0,
{
    assert(osc_string(text).subrange(0, text.len() as int) =~= text);
}

/// The type tag text is a comma and one ASCII letter for each argument, so on the wire
/// it takes one byte for each of them.
pub proof fn lemma_type_tags_are_ascii(args: Seq<Argument>)
    ensures
        type_tags(args).len() == args.len() + 1,
        is_ascii_chars(type_tags(args)),
        encode_utf8(type_tags(args)) == ascii_bytes(type_tags(args)),
{
    let tags = type_tags(args);
    assert forall|i: int| 0 <= i < tags.len() implies '\0' <= #[trigger] tags[i] <= '\u{7f}' by {
        if i > 0 {
            assert(tags[i] == type_tag(args[i - 1]));
        }
    }
    is_ascii_chars_encode_utf8(tags);
    assert(encode_utf8(tags) =~= ascii_bytes(tags));
}

/// Every argument's data is a whole number of four-byte words.
pub proof fn lemma_arguments_data_length(args: Seq<Argument>)
    ensures
        arguments_data(args).len() % 4 == 0,
        arguments_data(args).len() <= 4 * args.len(),
    decreases args.len(),
{
    if args.len() > 0 {
        lemma_arguments_data_length(args.drop_last());
    }
}

/// A message on the wire is a whole number of four-byte words.
pub proof fn lemma_wire_length(message: ProtocolMessageView)
    ensures
        wire_bytes(message).len() % 4 == 0,
        wire_bytes(message).len() >= 8,
{
    lemma_osc_string_layout(encode_utf8(message.path));
    lemma_osc_string_layout(encode_utf8(type_tags(message.args)));
    lemma_arguments_data_length(message.args);
}

/// The heart-rate message on the wire: forty bytes, which are the path, three zero
/// bytes, the tags `,f`, two zero bytes, and the number's pattern, most significant
/// byte first.
pub proof fn lemma_heart_rate_datagram(reading: HeartRateReading)
    ensures
        wire_bytes(heart_rate_packet(reading)) == ascii_bytes(OSC_HEART_RATE_PATH@) + seq![
            0u8,
            0u8,
            0u8,
            0x2Cu8,
            0x66u8,
            0u8,
            0u8,
        ] + big_endian(reading.normalized),
        wire_bytes(heart_rate_packet(reading)).len() == 40,
{
    let message = heart_rate_packet(reading);
    reveal_strlit("/avatar/parameters/hr_percent");
    assert(is_ascii_chars(message.path));
    is_ascii_chars_encode_utf8(message.path);
    assert(encode_utf8(message.path) =~= ascii_bytes(message.path));
    lemma_type_tags_are_ascii(message.args);
    assert(ascii_bytes(type_tags(message.args)) =~= seq![0x2Cu8, 0x66u8]);
    assert(message.args.drop_last() =~= Seq::<Argument>::empty());
    assert(arguments_data(message.args) =~= big_endian(reading.normalized)) by {
        reveal_with_fuel(arguments_data, 2);
    }
    assert(wire_bytes(message) =~= ascii_bytes(OSC_HEART_RATE_PATH@) + seq![
        0u8,
        0u8,
        0u8,
        0x2Cu8,
        0x66u8,
        0u8,
        0u8,
    ] + big_endian(reading.normalized));
}

/// The connection-status message on the wire: thirty-six bytes, which are the path,
/// one zero byte, the tag `,T` and two zero bytes. It has no data.
pub proof fn lemma_connection_status_datagram()
    ensures
        wire_bytes(connection_status_packet()) == ascii_bytes(OSC_CONNECTION_STATUS_PATH@) + seq![
            0u8,
            0x2Cu8,
            0x54u8,
            0u8,
            0u8,
        ],
        wire_bytes(connection_status_packet()).len() == 36,
{
    let message = connection_status_packet();
    reveal_strlit("/avatar/parameters/hr_connected");
    assert(is_ascii_chars(message.path));
    is_ascii_chars_encode_utf8(message.path);
    assert(encode_utf8(message.path) =~= ascii_bytes(message.path));
    lemma_type_tags_are_ascii(message.args);
    assert(ascii_bytes(type_tags(message.args)) =~= seq![0x2Cu8, 0x54u8]);
    assert(message.args.drop_last() =~= Seq::<Argument>::empty());
    assert(arguments_data(message.args) =~= Seq::<u8>::empty()) by {
        reveal_with_fuel(arguments_data, 2);
    }
    assert(wire_bytes(message) =~= ascii_bytes(OSC_CONNECTION_STATUS_PATH@) + seq![
        0u8,
        0x2Cu8,
        0x54u8,
        0u8,
        0u8,
    ]);
}

} // verus!
