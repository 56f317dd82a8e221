use vstd::prelude::*;
use crate::text::{join_sep, join_with};

verus! {

/// The printable description of a guessed container format: the format
/// name, followed in parentheses by its known file extensions separated by
/// commas, or by a note that none are known.
pub open spec fn format_image_spec(format: Seq<char>, extensions: Seq<Seq<char>>) -> Seq<char> {
    if extensions.len() == 0 {
        format + " (unknown extension)"@
    } else {
        format + " ("@ + join_sep(extensions, ", "@) + ")"@
    }
}

/// The container-format guess for a byte buffer, when one matches: a
/// format name and its known file extensions. A deterministic function
/// of the buffer's leading magic bytes, left uninterpreted;
/// `guess_format_info` is the only way to learn it.
pub uninterp spec fn format_guess_of(bytes: Seq<u8>) -> Option<(Seq<char>, Seq<Seq<char>>)>;

/// The format description a buffer gets in diagnostics: the guessed
/// name and extensions, or "unknown" with no extensions when no format
/// matches.
pub open spec fn guessed_format(bytes: Seq<u8>) -> (Seq<char>, Seq<Seq<char>>) {
    match format_guess_of(bytes) {
        Some(p) => p,
        None => ("unknown"@, Seq::empty()),
    }
}

/// Relies on `image::guess_format`, `ImageFormat::to_mime_type` and
/// `ImageFormat::extensions_str`: a best guess of the container format
/// from the buffer's magic bytes, reported as the MIME type together with
/// the format's usual file extensions, or nothing when no format
/// matches; the guess is named `format_guess_of`. It feeds diagnostic
/// messages only.
#[verifier::external_body]
pub(crate) fn guess_format_info(bytes: &Vec<u8>) -> (r: Option<(String, Vec<String>)>)
    ensures
        r is Some <==> format_guess_of(bytes@) is Some,
        r matches Some(p) ==> (format_guess_of(bytes@) matches Some(q) && p.0@ == q.0
            && p.1.deep_view() == q.1),
{
    match image::guess_format(bytes) {
        Ok(f) => Some((
            String::from(f.to_mime_type()),
            f.extensions_str().iter().map(|e| String::from(*e)).collect(),
        )),
        Err(_) => None,
    }
}

/// Renders the best-guess format of an image buffer for a diagnostic
/// message: the format name with its known extensions, or a note that no
/// extension is known for it.
pub fn format_image(format: &str, extension: &Vec<String>) -> (r: String)
    ensures
        r@ == format_image_spec(format@, extension.deep_view()),
{
    if extension.len() == 0 {
        let mut out = String::from_str(format);
        out.append(" (unknown extension)");
        out
    } else {
        let joined = join_with(extension, ", ");
        let mut out = String::from_str(format);
        out.append(" (");
        out.append(joined.as_str());
        out.append(")");
        out
    }
}

} // verus!
