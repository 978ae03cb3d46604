use vstd::prelude::*;

verus! {

/// The lowercase form of a string, as `str::to_lowercase` gives it.
pub uninterp spec fn lower_of(s: Seq<char>) -> Seq<char>;

/// Relies on `str::to_lowercase`: its result depends on the characters alone.
#[verifier::external_body]
fn lowercase(s: &str) -> (r: String)
    ensures
        r@ == lower_of(s@),
{
    s.to_lowercase()
}

/// The lowercase file extensions that name audio files.
pub open spec fn is_audio_extension_spec(lower: Seq<char>) -> bool {
    lower == "mp3"@ || lower == "flac"@ || lower == "wav"@ || lower == "ogg"@
        || lower == "m4a"@ || lower == "aac"@
}

fn str_eq(a: &str, b: &str) -> (r: bool)
    ensures
        r == (a@ == b@),
{
    let n = a.unicode_len();
    if n != b.unicode_len() {
        return false;
    }
    let mut i: usize = 0;
    while i < n
        invariant
            n == a@.len(),
            n == b@.len(),
            i <= n,
            forall|j: int| 0 <= j < i ==> a@[j] == b@[j],
        decreases n - i,
    {
        if a.get_char(i) != b.get_char(i) {
            return false;
        }
        i = i + 1;
    }
    assert(a@ =~= b@);
    true
}

/// Whether an already lowercased extension names an audio file.
pub fn is_audio_extension_lowered(lower: &str) -> (r: bool)
    ensures
        r == is_audio_extension_spec(lower@),
{
    proof {
        reveal_strlit("mp3");
        reveal_strlit("flac");
        reveal_strlit("wav");
        reveal_strlit("ogg");
        reveal_strlit("m4a");
        reveal_strlit("aac");
    }
    str_eq(lower, "mp3") || str_eq(lower, "flac") || str_eq(lower, "wav") || str_eq(lower, "ogg")
        || str_eq(lower, "m4a") || str_eq(lower, "aac")
}

/// Whether a file extension names an audio file, whatever its letter case.
pub fn is_audio_extension(ext: &str) -> (r: bool)
    ensures
        r == is_audio_extension_spec(lower_of(ext@)),
{
    let lower = lowercase(ext);
    is_audio_extension_lowered(lower.as_str())
}

} // verus!
