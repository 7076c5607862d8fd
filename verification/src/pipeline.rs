//! The conversion pipeline: resolve the input encoding, decode with the
//! replace trap, resolve the output encoding, and — once the external
//! subtitle converter has mapped the decoded document — emit the output
//! bytes with a byte-order mark where the output encoding asks for one.
//!
//! The subtitle converter is an external collaborator: it is given the
//! decoded text and the per-block mapper, and its outcome is handed back to
//! `finish`, which decides the rest for every possible outcome.

use vstd::prelude::*;
use vstd::string::*;
use crate::charset::{
    Charset, resolved_name, sniffed_name, sample_of, detection_result, decoded_replace,
    encoded_replace, out_bytes_spec, is_utf16, bom_of,
};
use crate::transform::{Lines, ChineseConv};

verus! {

/// A terminal failure of the pipeline.
#[derive(Debug, PartialEq, Eq)]
pub enum ConvError {
    /// A user-supplied charset label the registry does not resolve.
    UnknownCharset,
    /// No input charset was supplied and sniffing gave no resolvable guess.
    CharsetDetectionFailed,
    /// Reserved for a strict-mode decode; the pipeline decodes with the
    /// replace trap, which never fails.
    DecodeFailed,
    /// The subtitle converter rejected the document, with its diagnostic.
    SubtitleConversionFailed(String),
    /// Reserved for a strict-mode encode; the pipeline encodes with the
    /// replace trap, which never fails.
    EncodeFailed,
}

/// The configuration of one conversion, fixed before it starts.
pub struct Options {
    /// Label of the input encoding; absent means it is sniffed.
    pub in_charset: Option<String>,
    /// Label of the output encoding; absent means the resolved input one.
    pub out_charset: Option<String>,
    /// Which dictionary rewrites each surviving block, if any.
    pub chinese_conv: ChineseConv,
    /// Which physical lines of each block survive.
    pub lines: Lines,
}

/// Everything the converter step needs: the decoded document and the
/// resolved output encoding.
pub struct Prepared {
    pub text: String,
    pub out_charset: Charset,
}

/// The final byte buffer, tagged with the fixed subtitle media type.
pub struct SrtOutput {
    pub bytes: Vec<u8>,
    pub media_type: String,
}

/// The canonical name of the input encoding the pipeline resolves, if any:
/// the user label when one is given, else what detection arrives at.
pub open spec fn spec_in_name(opts: Options, input: Seq<u8>) -> Option<Seq<char>> {
    match opts.in_charset {
        Option::Some(l) => resolved_name(l@),
        Option::None => detection_result(input),
    }
}

/// The canonical name of the output encoding: the user label when one is
/// given, else whatever the input resolved to — never a second detection.
pub open spec fn spec_out_name(opts: Options, input: Seq<u8>) -> Option<Seq<char>> {
    match opts.out_charset {
        Option::Some(l) => resolved_name(l@),
        Option::None => spec_in_name(opts, input),
    }
}

/// Resolve both encodings and decode the input, each failure terminal.
pub fn prepare(input: &Vec<u8>, opts: &Options) -> (r: Result<Prepared, ConvError>)
    ensures
        r is Ok <==> (spec_in_name(*opts, input@) is Some && spec_out_name(*opts, input@)
            is Some),
        r is Ok ==> r->Ok_0.text@ == decoded_replace(spec_in_name(*opts, input@)->0, input@),
        r is Ok ==> Some(r->Ok_0.out_charset.spec_name()) == spec_out_name(*opts, input@),
        opts.in_charset is Some && resolved_name(opts.in_charset->0@) is None ==> r == Err::<
            Prepared,
            ConvError,
        >(ConvError::UnknownCharset),
        opts.in_charset is None && detection_result(input@) is None ==> r == Err::<
            Prepared,
            ConvError,
        >(ConvError::CharsetDetectionFailed),
        spec_in_name(*opts, input@) is Some && opts.out_charset is Some && resolved_name(
            opts.out_charset->0@,
        ) is None ==> r == Err::<Prepared, ConvError>(ConvError::UnknownCharset),
{
    let in_cs: Charset = match &opts.in_charset {
        Some(l) => match Charset::resolve(l.as_str()) {
            Some(cs) => cs,
            None => {
                return Err(ConvError::UnknownCharset);
            },
        },
        None => match Charset::detect(input.as_slice()) {
            Some(cs) => cs,
            None => {
                return Err(ConvError::CharsetDetectionFailed);
            },
        },
    };
    let text = in_cs.decode_text(input.as_slice());
    let out_cs: Charset = match &opts.out_charset {
        Some(l) => match Charset::resolve(l.as_str()) {
            Some(cs) => cs,
            None => {
                return Err(ConvError::UnknownCharset);
            },
        },
        None => in_cs,
    };
    Ok(Prepared { text, out_charset: out_cs })
}

/// Take the converter's outcome and finish the pipeline: a converter error
/// is terminal with its own diagnostic; a converted text is encoded with the
/// replace trap, after a byte-order mark where the output encoding is a
/// UTF-16 variant.
pub fn finish(out_charset: &Charset, converted: Result<String, String>) -> (r: Result<
    SrtOutput,
    ConvError,
>)
    ensures
        converted is Err ==> r is Err && (r->Err_0 matches ConvError::SubtitleConversionFailed(m)
            && m@ == converted->Err_0@),
        converted is Ok ==> r is Ok,
        converted is Ok ==> r->Ok_0.bytes@ == out_bytes_spec(
            out_charset.spec_name(),
            converted->Ok_0@,
        ),
        converted is Ok ==> r->Ok_0.media_type@ == "text/srt"@,
{
    match converted {
        Err(msg) => Err(ConvError::SubtitleConversionFailed(msg)),
        Ok(text) => {
            let bytes = out_charset.encode_output(text.as_str());
            Ok(SrtOutput { bytes, media_type: String::from_str("text/srt") })
        },
    }
}

/// Detection is a pure function of the sampled head of the buffer: two
/// buffers that agree on their first 4096 bytes are sniffed alike and
/// resolve alike.
pub proof fn lemma_detection_determinism(a: Seq<u8>, b: Seq<u8>)
    requires
        sample_of(a) == sample_of(b),
    ensures
        sniffed_name(a) == sniffed_name(b),
        detection_result(a) == detection_result(b),
{
}

/// With no output charset given, the output encoding is the resolved input
/// encoding itself.
pub proof fn lemma_default_output_encoding(opts: Options, input: Seq<u8>)
    requires
        opts.out_charset is None,
    ensures
        spec_out_name(opts, input) == spec_in_name(opts, input),
{
}

/// A UTF-16 output buffer starts with that variant's two-byte order mark;
/// an output in any other encoding is exactly the replace-trapped encoding
/// of the text, with no mark prepended.
pub proof fn lemma_bom_presence(name: Seq<char>, text: Seq<char>)
    ensures
        is_utf16(name) ==> out_bytes_spec(name, text).take(2) == bom_of(name),
        !is_utf16(name) ==> out_bytes_spec(name, text) == encoded_replace(name, text),
{
    if is_utf16(name) {
        assert(out_bytes_spec(name, text).take(2) =~= bom_of(name));
    }
}

} // verus!
