//! Charset resolution and sniffing: a user label or a detector guess is
//! turned into a concrete encoding, named by its canonical WHATWG name, that
//! can decode bytes to text and encode text to bytes with a replace trap.

use vstd::prelude::*;
use vstd::slice::{slice_index_get, slice_subrange};
use vstd::string::*;

verus! {

/// The canonical name, if any, of the encoding that the WHATWG label
/// registry resolves a label to.
pub uninterp spec fn resolved_name(label: Seq<char>) -> Option<Seq<char>>;

/// The best-guess charset label that statistical detection gives a sample.
pub uninterp spec fn detected_label(sample: Seq<u8>) -> Seq<char>;

/// The text an encoding decodes a byte buffer to, malformed sequences
/// replaced by a placeholder.
pub uninterp spec fn decoded_replace(name: Seq<char>, bytes: Seq<u8>) -> Seq<char>;

/// The bytes an encoding encodes a text to, unencodable characters replaced
/// by a placeholder.
pub uninterp spec fn encoded_replace(name: Seq<char>, text: Seq<char>) -> Seq<u8>;

/// The detector names a few charsets otherwise than the label registry;
/// this fixed table renames those and keeps every other label.
pub open spec fn canonical_of_detected(label: Seq<char>) -> Seq<char> {
    if label == "CP932"@ {
        "windows-31j"@
    } else if label == "CP949"@ {
        "windows-949"@
    } else if label == "MacCyrillic"@ {
        "x-mac-cyrillic"@
    } else {
        label
    }
}

/// Detection samples at most this many leading bytes.
pub const DETECT_SAMPLE_LEN: usize = 4096;

pub open spec fn sample_of(bytes: Seq<u8>) -> Seq<u8> {
    if bytes.len() > 4096 {
        bytes.take(4096)
    } else {
        bytes
    }
}

/// The canonical name that sniffing a byte buffer arrives at (which the
/// registry may still fail to resolve).
pub open spec fn sniffed_name(bytes: Seq<u8>) -> Seq<char> {
    canonical_of_detected(detected_label(sample_of(bytes)))
}

/// Whether a sample holds an ESC byte. Such a sample is declined before the
/// detector sees it: ESC would send the detector into its escape-sequence
/// machine, which delivers no verdict for an incomplete sequence.
pub open spec fn has_esc(sample: Seq<u8>) -> bool {
    exists|k: int| 0 <= k < sample.len() && sample[k] == 0x1b
}

/// What detection resolves for a byte buffer, if anything: absent where the
/// sample is declined for an ESC byte, and where the registry does not
/// resolve the detector's guess.
pub open spec fn detection_result(bytes: Seq<u8>) -> Option<Seq<char>> {
    if has_esc(sample_of(bytes)) {
        None
    } else {
        resolved_name(sniffed_name(bytes))
    }
}

/// The two canonical names of the UTF-16 variants.
pub open spec fn is_utf16(name: Seq<char>) -> bool {
    name == "utf-16le"@ || name == "utf-16be"@
}

/// The byte-order mark of a UTF-16 variant.
pub open spec fn bom_of(name: Seq<char>) -> Seq<u8> {
    if name == "utf-16le"@ {
        seq![0xffu8, 0xfeu8]
    } else {
        seq![0xfeu8, 0xffu8]
    }
}

/// The full output buffer for a text: the byte-order mark first for a UTF-16
/// variant, and for every other encoding the encoded text alone.
pub open spec fn out_bytes_spec(name: Seq<char>, text: Seq<char>) -> Seq<u8> {
    if is_utf16(name) {
        bom_of(name) + encoded_replace(name, text)
    } else {
        encoded_replace(name, text)
    }
}

/// Relies on encoding::label::encoding_from_whatwg_label: which encoding a
/// label resolves to is a fixed table keyed by the trimmed, lowercased
/// label. The canonical name is the encoding's WHATWG name, or its unique
/// crate name for the few encodings the standard leaves unnamed.
#[verifier::external_body]
fn resolve_label_raw(label: &str) -> (r: Option<String>)
    ensures
        r is Some <==> resolved_name(label@) is Some,
        r is Some ==> Some(r->0@) == resolved_name(label@),
{
    encoding::label::encoding_from_whatwg_label(label)
        .map(|e| e.whatwg_name().unwrap_or_else(|| e.name()).to_string())
}

/// Relies on encoding::types::Encoding::decode with DecoderTrap::Replace:
/// malformed sequences become U+FFFD, the trap never refuses, so decoding
/// always returns text, a function of the encoding and the bytes alone.
/// The label is resolved with encoding_from_whatwg_label.
#[verifier::external_body]
fn decode_replace_raw(label: &str, bytes: &[u8]) -> (r: String)
    requires
        resolved_name(label@) is Some,
    ensures
        r@ == decoded_replace(resolved_name(label@)->0, bytes@),
{
    let enc = encoding::label::encoding_from_whatwg_label(label).unwrap();
    enc.decode(bytes, encoding::types::DecoderTrap::Replace).unwrap()
}

/// Relies on encoding::types::Encoding::encode with EncoderTrap::Replace:
/// unencodable characters become '?', which every encoding the label
/// registry yields can represent, so the trap never refuses and encoding
/// always returns bytes, a function of the encoding and the text alone.
/// The label is resolved with encoding_from_whatwg_label.
#[verifier::external_body]
fn encode_replace_raw(label: &str, text: &str) -> (r: Vec<u8>)
    requires
        resolved_name(label@) is Some,
    ensures
        r@ == encoded_replace(resolved_name(label@)->0, text@),
{
    let enc = encoding::label::encoding_from_whatwg_label(label).unwrap();
    enc.encode(text, encoding::types::EncoderTrap::Replace).unwrap()
}

/// Relies on encoding::types::Encoding::encode with EncoderTrap::Strict on
/// the single character U+FEFF: the two UTF-16 codecs write exactly the
/// two-byte mark of their byte order and cannot fail on it.
#[verifier::external_body]
fn encode_bom_raw(label: &str) -> (r: Option<Vec<u8>>)
    requires
        resolved_name(label@) is Some,
        is_utf16(resolved_name(label@)->0),
    ensures
        r is Some,
        r is Some ==> r->0@ == bom_of(resolved_name(label@)->0),
{
    let enc = encoding::label::encoding_from_whatwg_label(label).unwrap();
    enc.encode("\u{feff}", encoding::types::EncoderTrap::Strict).ok()
}

/// Relies on chardet::detect: a fresh detector is fed the sample alone, so
/// the best-guess label is a function of the sample alone; the confidence
/// and language it also returns are diagnostic and dropped here. An ESC
/// byte is excluded by the `requires`: with one, the detector can end in
/// its escape-sequence state, the one state its closing step cannot answer
/// for; without one it ends in its pure-ASCII or high-byte state, both of
/// which always yield a label.
#[verifier::external_body]
fn detect_label_raw(sample: &[u8]) -> (r: String)
    requires
        !has_esc(sample@),
    ensures
        r@ == detected_label(sample@),
{
    chardet::detect(sample).0
}

/// Whether the sample holds an ESC byte.
fn contains_esc(sample: &[u8]) -> (r: bool)
    ensures
        r == has_esc(sample@),
{
    let n = sample.len();
    let mut k: usize = 0;
    while k < n
        invariant
            k <= n,
            n == sample@.len(),
            forall|j: int| 0 <= j < k ==> sample@[j] != 0x1b,
        decreases n - k,
    {
        if *slice_index_get(sample, k) == 0x1b {
            assert(sample@[k as int] == 0x1b);
            return true;
        }
        k = k + 1;
    }
    false
}

/// Relies on chardet::charset2encoding: a fixed three-entry rename table on
/// top of the identity.
#[verifier::external_body]
fn charset_to_encoding_raw(label: &String) -> (r: String)
    ensures
        r@ == canonical_of_detected(label@),
{
    chardet::charset2encoding(label).to_string()
}

/// A resolved character encoding: the label it was resolved from, and the
/// canonical name of the encoding the registry maps that label to.
pub struct Charset {
    label: String,
    name: String,
}

impl Charset {
    /// The canonical name of the resolved encoding.
    pub closed spec fn spec_name(self) -> Seq<char> {
        self.name@
    }

    /// The label the encoding was resolved from.
    pub closed spec fn spec_label(self) -> Seq<char> {
        self.label@
    }

    #[verifier::type_invariant]
    spec fn wf(self) -> bool {
        resolved_name(self.label@) == Some(self.name@)
    }

    /// Look a label up in the encoding registry.
    pub fn resolve(label: &str) -> (r: Option<Charset>)
        ensures
            r is Some <==> resolved_name(label@) is Some,
            r is Some ==> r->0.spec_label() == label@,
            r is Some ==> Some(r->0.spec_name()) == resolved_name(label@),
    {
        match resolve_label_raw(label) {
            Some(name) => Some(Charset { label: String::from_str(label), name }),
            None => None,
        }
    }

    /// Sniff a byte buffer: sample its head, decline a sample with an ESC
    /// byte, else ask the detector for a guess, rename the guess canonically
    /// and resolve it in the registry.
    pub fn detect(bytes: &[u8]) -> (r: Option<Charset>)
        ensures
            r is Some <==> detection_result(bytes@) is Some,
            r is Some ==> r->0.spec_label() == sniffed_name(bytes@),
            r is Some ==> Some(r->0.spec_name()) == detection_result(bytes@),
    {
        let sample: &[u8] = if bytes.len() > DETECT_SAMPLE_LEN {
            slice_subrange(bytes, 0, DETECT_SAMPLE_LEN)
        } else {
            bytes
        };
        if contains_esc(sample) {
            return None;
        }
        let raw = detect_label_raw(sample);
        let canon = charset_to_encoding_raw(&raw);
        Self::resolve(canon.as_str())
    }

    /// The canonical name, for the caller's eyes.
    pub fn name(&self) -> (r: &String)
        ensures
            r@ == self.spec_name(),
    {
        &self.name
    }

    /// Decode a byte buffer with the replace trap; this never fails, however
    /// malformed the bytes are in this encoding.
    pub fn decode_text(&self, bytes: &[u8]) -> (r: String)
        ensures
            r@ == decoded_replace(self.spec_name(), bytes@),
    {
        proof {
            use_type_invariant(self);
        }
        decode_replace_raw(self.label.as_str(), bytes)
    }

    /// Whether this is a UTF-16 variant, which asks for a byte-order mark.
    pub fn is_utf16_variant(&self) -> (r: bool)
        ensures
            r == is_utf16(self.spec_name()),
    {
        let le = String::from_str("utf-16le");
        let be = String::from_str("utf-16be");
        self.name == le || self.name == be
    }

    /// Encode a text with the replace trap, a byte-order mark first if this
    /// encoding is a UTF-16 variant. A mark that cannot be strict-encoded
    /// would be skipped, not reported.
    pub fn encode_output(&self, text: &str) -> (r: Vec<u8>)
        ensures
            r@ == out_bytes_spec(self.spec_name(), text@),
    {
        proof {
            use_type_invariant(self);
        }
        let mut out: Vec<u8>;
        if self.is_utf16_variant() {
            match encode_bom_raw(self.label.as_str()) {
                Some(b) => {
                    out = b;
                },
                None => {
                    out = Vec::new();
                },
            }
        } else {
            out = Vec::new();
        }
        let mut enc = encode_replace_raw(self.label.as_str(), text);
        out.append(&mut enc);
        out
    }
}

} // verus!
