use vstd::prelude::*;

verus! {

/// The first MIME type that `mime_guess` registers for the extension of
/// `path`, or `None` where the extension is missing or unknown.
pub uninterp spec fn first_mime_of(path: Seq<char>) -> Option<Seq<char>>;

/// The generic binary content type.
pub open spec fn octet_stream() -> Seq<char> {
    "application/octet-stream"@
}

/// The content type sent for a guess: the guessed type, else generic binary.
pub open spec fn content_type_of(guess: Option<Seq<char>>) -> Seq<char> {
    match guess {
        Some(m) => m,
        None => octet_stream(),
    }
}

/// Relies on mime_guess::from_path and MimeGuess::first_raw: the first MIME
/// type registered for the path's extension. The extension is taken as
/// `Path::extension` takes it, so a path without a '.' has none and gets no
/// guess. No disk access is made.
#[verifier::external_body]
fn guess_mime(path: &str) -> (r: Option<String>)
    ensures
        r is None <==> first_mime_of(path@) is None,
        r is Some ==> first_mime_of(path@) == Some(r->Some_0@),
        !path@.contains('.') ==> r is None,
{
    mime_guess::from_path(path).first_raw().map(String::from)
}

/// The content type for a guess: the guessed type where there is one,
/// otherwise `application/octet-stream`.
pub fn content_type_from_guess(guess: Option<String>) -> (r: String)
    ensures
        r@ == content_type_of(
            match guess {
                Some(m) => Some(m@),
                None => None,
            },
        ),
{
    match guess {
        Some(m) => m,
        None => String::from_str("application/octet-stream"),
    }
}

/// The content type of the audio upload for `path`, guessed from its
/// extension; an unknown or missing extension gives the generic binary type.
pub fn content_type_for(path: &str) -> (r: String)
    ensures
        r@ == content_type_of(first_mime_of(path@)),
        first_mime_of(path@) is None ==> r@ == octet_stream(),
        !path@.contains('.') ==> r@ == octet_stream(),
{
    content_type_from_guess(guess_mime(path))
}

} // verus!
