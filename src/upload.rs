use vstd::prelude::*;
use vstd::string::*;
use vstd::utf8::encode_utf8;
use crate::text::{append_decimal, decimal_text};

verus! {

/// What the file-name sanitizer makes of a name.
pub uninterp spec fn sanitized(name: Seq<char>) -> Seq<char>;

/// Relies on `sanitize_filename::sanitize_with_options`, with the rules for
/// every platform but Windows, truncation on and an empty replacement: it
/// removes `/ ? < > \ : * | "` and the control characters, empties a name
/// made only of dots, and cuts the result to at most 255 bytes at a
/// character boundary.
#[verifier::external_body]
fn sanitize_name(name: &str) -> (r: String)
    ensures
        r@ == sanitized(name@),
        forall|i: int| 0 <= i < r@.len() ==> (#[trigger] r@[i]) != '/' && r@[i] != '\\',
        encode_utf8(r@).len() <= 255,
{
    let options = sanitize_filename::Options { windows: false, truncate: true, replacement: "" };
    sanitize_filename::sanitize_with_options(name, options)
}

/// The position of the last `.` in `s` among its first `n` characters, or
/// -1 when there is none.
pub open spec fn last_dot_before(s: Seq<char>, n: int) -> int
    decreases n,
{
    if n <= 0 {
        -1
    } else if s[n - 1] == '.' {
        n - 1
    } else {
        last_dot_before(s, n - 1)
    }
}

/// The extension of a file name: what follows its last `.`, provided that
/// something precedes that dot; otherwise nothing.
pub open spec fn extension_of(name: Seq<char>) -> Seq<char> {
    let k = last_dot_before(name, name.len() as int);
    if k <= 0 {
        Seq::empty()
    } else {
        name.subrange(k + 1, name.len() as int)
    }
}

/// The object-storage key of an upload: the owner, a `/`, a unique token,
/// a `.` and the extension of the stored name.
pub open spec fn storage_key_of(user_id: i32, token: Seq<char>, name: Seq<char>) -> Seq<char> {
    decimal_text(user_id as int) + seq!['/'] + token + seq!['.'] + extension_of(name)
}

/// The extension of `name`, as `extension_of` gives it.
pub fn file_extension(name: &str) -> (r: String)
    ensures
        r@ == extension_of(name@),
{
    let n = name.unicode_len();
    let mut i: usize = n;
    while i > 0 && name.get_char(i - 1) != '.'
        invariant
            n == name@.len(),
            i <= n,
            last_dot_before(name@, n as int) == last_dot_before(name@, i as int),
        decreases i,
    {
        i = i - 1;
    }
    if i <= 1 {
        return String::new();
    }
    let mut out = String::new();
    let mut j: usize = i;
    while j < n
        invariant
            n == name@.len(),
            1 < i <= j <= n,
            out@ == name@.subrange(i as int, j as int),
        decreases n - j,
    {
        let c = name.substring_char(j, j + 1);
        out.append(c);
        assert(name@.subrange(i as int, (j + 1) as int) =~= name@.subrange(i as int, j as int)
            + name@.subrange(j as int, (j + 1) as int));
        j = j + 1;
    }
    out
}

/// The name under which an uploaded file is recorded: the client's name,
/// sanitized.
pub fn stored_file_name(filename: &str) -> (r: String)
    ensures
        r@ == sanitized(filename@),
        forall|i: int| 0 <= i < r@.len() ==> (#[trigger] r@[i]) != '/' && r@[i] != '\\',
        encode_utf8(r@).len() <= 255,
{
    sanitize_name(filename)
}

/// The object-storage key for an upload of `user_id` whose recorded name is
/// `stored_name`, made unique by `token`.
pub fn storage_key_for(user_id: i32, token: &str, stored_name: &str) -> (r: String)
    ensures
        r@ == storage_key_of(user_id, token@, stored_name@),
{
    let mut out = String::new();
    append_decimal(&mut out, user_id as i64);
    proof {
        reveal_strlit("/");
        reveal_strlit(".");
    }
    out.append("/");
    out.append(token);
    out.append(".");
    let ext = file_extension(stored_name);
    out.append(ext.as_str());
    assert(out@ =~= storage_key_of(user_id, token@, stored_name@));
    out
}

/// The recorded name and the object-storage key of an upload of `filename`
/// by `user_id`, made unique by `token`.
pub fn upload_naming(user_id: i32, token: &str, filename: &str) -> (r: (String, String))
    ensures
        r.0@ == sanitized(filename@),
        forall|i: int| 0 <= i < r.0@.len() ==> (#[trigger] r.0@[i]) != '/' && r.0@[i] != '\\',
        encode_utf8(r.0@).len() <= 255,
        r.1@ == storage_key_of(user_id, token@, sanitized(filename@)),
{
    let name = stored_file_name(filename);
    let key = storage_key_for(user_id, token, name.as_str());
    (name, key)
}

/// The storage bucket that holds the PDF files of `user_id`.
pub open spec fn pdf_bucket_of(user_id: i32) -> Seq<char> {
    "user-"@ + decimal_text(user_id as int)
}

/// The name given to an uploaded PDF that came without one.
pub open spec fn default_pdf_name(stamp: int) -> Seq<char> {
    "file-"@ + decimal_text(stamp) + ".pdf"@
}

/// The storage bucket that holds the PDF files of `user_id`.
pub fn pdf_bucket(user_id: i32) -> (r: String)
    ensures
        r@ == pdf_bucket_of(user_id),
{
    let mut out = String::new();
    out.append("user-");
    append_decimal(&mut out, user_id as i64);
    assert(out@ =~= pdf_bucket_of(user_id));
    out
}

/// The name under which an uploaded PDF is stored: the given one, or one
/// made from the upload time `stamp` (seconds).
pub fn pdf_file_name(given: Option<&str>, stamp: i64) -> (r: String)
    ensures
        match given {
            Some(n) => r@ == n@,
            None => r@ == default_pdf_name(stamp as int),
        },
{
    match given {
        Some(n) => n.to_owned(),
        None => {
            let mut out = String::new();
            out.append("file-");
            append_decimal(&mut out, stamp);
            out.append(".pdf");
            assert(out@ =~= default_pdf_name(stamp as int));
            out
        },
    }
}

/// The recorded path of a PDF of `user_id` stored as `name`: its bucket, a
/// `/`, and the name.
pub fn pdf_file_path(user_id: i32, name: &str) -> (r: String)
    ensures
        r@ == pdf_bucket_of(user_id) + seq!['/'] + name@,
{
    let mut out = pdf_bucket(user_id);
    proof {
        reveal_strlit("/");
    }
    out.append("/");
    out.append(name);
    assert(out@ =~= pdf_bucket_of(user_id) + seq!['/'] + name@);
    out
}

} // verus!
