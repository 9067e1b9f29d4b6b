//! Incremental decoding of a byte stream into text.
//!
//! A token of the model may hold part of a character, so the bytes of the
//! tokens are decoded as one stream: what a fragment yields depends on the
//! bytes that came before it.
use vstd::prelude::*;

verus! {

/// The streaming decoder of `encoding_rs`. Its contents are not visible here.
#[verifier::external_type_specification]
#[verifier::external_body]
pub struct ExDecoder(encoding_rs::Decoder);

/// The bytes that a decoder has been given since it was made, in order.
pub uninterp spec fn decoder_fed(decoder: encoding_rs::Decoder) -> Seq<u8>;

/// The text that a decoder made by `encoding_rs::UTF_8.new_decoder()` gives
/// out for the fragment `bytes` when it has been given `fed` before.
pub uninterp spec fn fragment_text(fed: Seq<u8>, bytes: Seq<u8>) -> Seq<char>;

/// The longest fragment that a stream takes in one call.
pub const MAX_FRAGMENT_BYTES: usize = 0x0100_0000;

/// Calls `encoding_rs::UTF_8.new_decoder()`: a decoder for UTF-8, with
/// sniffing of a byte order mark, that has been given no byte yet.
#[verifier::external_body]
fn new_utf8_decoder() -> (decoder: encoding_rs::Decoder)
    ensures
        decoder_fed(decoder) == Seq::<u8>::empty(),
{
    encoding_rs::UTF_8.new_decoder()
}

/// Calls `Decoder::decode_to_string` with `last` unset, on an empty buffer
/// of the size that `Decoder::max_utf8_buffer_length` gives for the
/// fragment. With a buffer of that size the decoder is documented to take
/// all of its input, so it has then been given the whole fragment, and the
/// buffer holds the text that the fragment completed: malformed bytes come
/// out as U+FFFD, and the bytes of an unfinished character are kept back
/// for the next call. The limit on the fragment keeps the size of the
/// buffer within what a `String` can be made with.
#[verifier::external_body]
fn decode_fragment(decoder: &mut encoding_rs::Decoder, bytes: &[u8]) -> (text: String)
    requires
        bytes@.len() <= MAX_FRAGMENT_BYTES,
    ensures
        text@ == fragment_text(decoder_fed(*old(decoder)), bytes@),
        decoder_fed(*final(decoder)) == decoder_fed(*old(decoder)) + bytes@,
{
    let room = decoder.max_utf8_buffer_length(bytes.len()).unwrap_or(0);
    let mut text = String::with_capacity(room);
    let _ = decoder.decode_to_string(bytes, &mut text, false);
    text
}

/// A byte stream that is decoded into text fragment by fragment.
pub struct TextStream {
    decoder: encoding_rs::Decoder,
}

impl TextStream {
    /// The bytes that the stream has taken so far.
    pub closed spec fn fed(&self) -> Seq<u8> {
        decoder_fed(self.decoder)
    }

    /// A stream that has taken no byte.
    pub fn new() -> (stream: TextStream)
        ensures
            stream.fed() == Seq::<u8>::empty(),
    {
        TextStream { decoder: new_utf8_decoder() }
    }

    /// Takes the next fragment and returns the text that it completes.
    pub fn push(&mut self, bytes: &[u8]) -> (text: String)
        requires
            bytes@.len() <= MAX_FRAGMENT_BYTES,
        ensures
            text@ == fragment_text(old(self).fed(), bytes@),
            final(self).fed() == old(self).fed() + bytes@,
    {
        decode_fragment(&mut self.decoder, bytes)
    }
}

} // verus!
