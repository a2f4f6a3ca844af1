//! Extension handling and validation of input and output paths.
use vstd::prelude::*;

verus! {

/// The extension of a path as `std::path::Path::extension` sees it, or the
/// empty text where the path has none.
pub uninterp spec fn path_extension(p: Seq<char>) -> Seq<char>;

/// Whether `s` holds no path separator.
pub open spec fn has_no_separator(s: Seq<char>) -> bool {
    forall|i: int| 0 <= i < s.len() ==> s[i] != '/'
}

/// Relies on `std::path::Path::extension`: the part of the file name after
/// its last dot, which depends on the path text alone. The file name is the
/// path's last component, so the extension holds no separator. A path built
/// from a `&str` has a UTF-8 extension, so the conversion to `String` is
/// lossless.
#[verifier::external_body]
fn raw_extension(p: &str) -> (r: String)
    ensures
        r@ == path_extension(p@),
        has_no_separator(r@),
{
    std::path::Path::new(p).extension().unwrap_or_default().to_string_lossy().into_owned()
}

/// Whether `c` is an ASCII capital letter.
pub open spec fn is_ascii_upper(c: char) -> bool {
    'A' <= c && c <= 'Z'
}

/// `c` with an ASCII capital letter replaced by its small letter.
pub open spec fn ascii_lower_char(c: char) -> char {
    if is_ascii_upper(c) {
        seq!['a', 'b', 'c', 'd', 'e', 'f', 'g', 'h', 'i', 'j', 'k', 'l', 'm',
             'n', 'o', 'p', 'q', 'r', 's', 't', 'u', 'v', 'w', 'x', 'y', 'z'][
            (c as u32 - 'A' as u32) as int]
    } else {
        c
    }
}

/// `s` with every ASCII capital letter replaced by its small letter.
pub open spec fn ascii_lower(s: Seq<char>) -> Seq<char> {
    s.map_values(|c: char| ascii_lower_char(c))
}

/// Relies on `str::to_ascii_lowercase`: maps `A`..`Z` to `a`..`z` and keeps
/// every other character.
#[verifier::external_body]
fn ascii_lowercase(s: &str) -> (r: String)
    ensures
        r@ == ascii_lower(s@),
{
    s.to_ascii_lowercase()
}

/// The extension of `p`, in ASCII lower case.
pub open spec fn lowered_extension(p: Seq<char>) -> Seq<char> {
    ascii_lower(path_extension(p))
}

/// Extensions of the binary plugin family.
pub open spec fn is_binary_ext(ext: Seq<char>) -> bool {
    ext == "esm"@ || ext == "esp"@ || ext == "omwaddon"@ || ext == "tmp"@
}

/// Extensions accepted for input and output: the binary family and `json`.
pub open spec fn is_recognized_ext(ext: Seq<char>) -> bool {
    is_binary_ext(ext) || ext == "json"@
}

/// Whether `p` has an extension that is recognized, compared without
/// regard to ASCII case.
pub open spec fn has_recognized_extension(p: Seq<char>) -> bool {
    is_recognized_ext(lowered_extension(p))
}

/// Whether `p` has an extension of the binary family, compared without
/// regard to ASCII case.
pub open spec fn has_binary_extension(p: Seq<char>) -> bool {
    is_binary_ext(lowered_extension(p))
}

/// The message for a path whose extension is not recognized.
pub open spec fn invalid_type_message(p: Seq<char>) -> Seq<char> {
    "\""@ + p + "\" (invalid file type)."@
}

/// The message for an input path that names no file.
pub open spec fn missing_file_message(p: Seq<char>) -> Seq<char> {
    "\""@ + p + "\" (file does not exist)."@
}

/// `"<p>"` followed by `reason`.
fn quoted_with(p: &str, reason: &str) -> (r: String)
    ensures
        r@ == "\""@ + p@ + reason@,
{
    let mut r = String::from_str("\"");
    r.append(p);
    r.append(reason);
    r
}

/// Get a path's file extension as an ASCII lowercase string.
pub fn get_extension(path: &str) -> (r: String)
    ensures
        r@ == lowered_extension(path@),
        has_no_separator(r@),
{
    let raw = raw_extension(path);
    let r = ascii_lowercase(raw.as_str());
    proof {
        assert forall|i: int| 0 <= i < r@.len() implies r@[i] != '/' by {
            let c = raw@[i];
            if is_ascii_upper(c) {
                let letters = seq!['a', 'b', 'c', 'd', 'e', 'f', 'g', 'h', 'i', 'j', 'k', 'l',
                    'm', 'n', 'o', 'p', 'q', 'r', 's', 't', 'u', 'v', 'w', 'x', 'y', 'z'];
                let k = (c as u32 - 'A' as u32) as int;
                assert(0 <= k < 26);
                assert(letters[k] != '/');
            }
        }
    }
    r
}

/// Whether two texts are equal, character by character.
fn same_text(a: &str, b: &str) -> (r: bool)
    ensures
        r == (a@ == b@),
{
    let n = a.unicode_len();
    if n != b.unicode_len() {
        return false;
    }
    let mut i: usize = 0;
    while i < n
        invariant
            n == a@.len(),
            n == b@.len(),
            i <= n,
            forall|j: int| 0 <= j < i ==> a@[j] == b@[j],
        decreases n - i,
    {
        if a.get_char(i) != b.get_char(i) {
            return false;
        }
        i = i + 1;
    }
    assert(a@ =~= b@);
    true
}

/// Whether a lowered extension belongs to the binary plugin family.
pub fn is_binary_extension(ext: &str) -> (r: bool)
    ensures
        r == is_binary_ext(ext@),
{
    same_text(ext, "esm") || same_text(ext, "esp") || same_text(ext, "omwaddon")
        || same_text(ext, "tmp")
}

/// Whether a lowered extension is one that input and output may carry.
pub fn is_recognized_extension(ext: &str) -> (r: bool)
    ensures
        r == is_recognized_ext(ext@),
{
    is_binary_extension(ext) || same_text(ext, "json")
}

/// Verify that the given path has a JSON or TES3 extension.
pub fn validate_extension(path: &str) -> (r: Result<(), String>)
    ensures
        r is Ok <==> has_recognized_extension(path@),
        r is Err ==> r->Err_0@ == invalid_type_message(path@),
{
    let ext = get_extension(path);
    if is_recognized_extension(ext.as_str()) {
        Ok(())
    } else {
        Err(quoted_with(path, "\" (invalid file type)."))
    }
}

/// The text that stands for standard input.
pub open spec fn is_stdin_sentinel(p: Seq<char>) -> bool {
    p == "-"@
}

/// What validating an input argument gives, once it is known whether a file
/// exists at it: the sentinel passes as it is; any other path needs a
/// recognized extension and then an existing file.
pub open spec fn input_arg_result(arg: Seq<char>, exists: bool) -> Result<Seq<char>, Seq<char>> {
    if is_stdin_sentinel(arg) {
        Ok(arg)
    } else if !has_recognized_extension(arg) {
        Err(invalid_type_message(arg))
    } else if !exists {
        Err(missing_file_message(arg))
    } else {
        Ok(arg)
    }
}

/// The view of a result of texts.
pub open spec fn text_result(r: Result<String, String>) -> Result<Seq<char>, Seq<char>> {
    match r {
        Ok(s) => Ok(s@),
        Err(e) => Err(e@),
    }
}

/// The standard-input sentinel is accepted whatever the file system says
/// about a file of that name.
pub proof fn lemma_stdin_needs_no_file(exists: bool)
    ensures
        input_arg_result("-"@, exists) == Ok::<Seq<char>, Seq<char>>("-"@),
{
}

/// Only the sentinel gets past validation without a recognized extension.
pub proof fn lemma_accepted_input_has_known_extension(arg: Seq<char>, exists: bool)
    requires
        input_arg_result(arg, exists) is Ok,
    ensures
        is_stdin_sentinel(arg) || (has_recognized_extension(arg) && exists),
{
}

/// A non-empty output path without a recognized extension is refused.
pub proof fn lemma_unknown_output_refused(arg: Seq<char>)
    requires
        arg.len() > 0,
        !has_recognized_extension(arg),
    ensures
        output_arg_result(arg) == Err::<Seq<char>, Seq<char>>(invalid_type_message(arg)),
{
}

/// Relies on `std::path::Path::exists`: whether the file system reports an
/// entry at the path just now. Nothing is promised of the answer.
#[verifier::external_body]
pub(crate) fn path_exists(p: &str) -> (r: bool) {
    std::path::Path::new(p).exists()
}

/// Input can either be "-" (to use stdin) or a JSON/TES3 file; `exists`
/// tells whether a file is found at `arg`.
pub fn check_input_arg(arg: &str, exists: bool) -> (r: Result<String, String>)
    ensures
        text_result(r) == input_arg_result(arg@, exists),
{
    if same_text(arg, "-") {
        return Ok(arg.to_owned());
    }
    validate_extension(arg)?;
    if !exists {
        return Err(quoted_with(arg, "\" (file does not exist)."));
    }
    Ok(arg.to_owned())
}

/// Input can either be "-" (to use stdin) or a JSON/TES3 file. The file
/// system is asked whether a file exists at any other path.
pub fn validate_input_arg(arg: &str) -> (r: Result<String, String>)
    ensures
        is_stdin_sentinel(arg@) ==> text_result(r) == Ok::<Seq<char>, Seq<char>>(arg@),
        !is_stdin_sentinel(arg@) && !has_recognized_extension(arg@)
            ==> text_result(r) == Err::<Seq<char>, Seq<char>>(invalid_type_message(arg@)),
        exists|e: bool| text_result(r) == input_arg_result(arg@, e),
{
    if same_text(arg, "-") {
        let r = Ok(arg.to_owned());
        assert(text_result(r) == input_arg_result(arg@, true));
        return r;
    }
    if let Err(e) = validate_extension(arg) {
        let r = Err(e);
        assert(text_result(r) == input_arg_result(arg@, true));
        return r;
    }
    check_input_arg(arg, path_exists(arg))
}

/// What validating an output argument gives: the empty text (standard
/// output) passes, as does any path with a recognized extension.
pub open spec fn output_arg_result(arg: Seq<char>) -> Result<Seq<char>, Seq<char>> {
    if arg.len() == 0 || has_recognized_extension(arg) {
        Ok(arg)
    } else {
        Err(invalid_type_message(arg))
    }
}

/// Output can either be empty (to use stdout) or a JSON/TES3 file.
pub fn validate_output_arg(arg: &str) -> (r: Result<String, String>)
    ensures
        text_result(r) == output_arg_result(arg@),
{
    if !arg.is_empty() {
        validate_extension(arg)?;
    }
    Ok(arg.to_owned())
}

} // verus!
