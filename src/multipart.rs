//! Multipart form bodies for uploads.
use vstd::prelude::*;
use vstd::utf8::encode_utf8;

verus! {

#[verifier::external_type_specification]
#[verifier::external_body]
pub struct ExIoError(std::io::Error);

/// Every boundary starts with this text, followed by a random number.
pub const BOUNDARY_PREFIX: &'static str = "-----------------------------";

/// Relies on `rand::thread_rng` and `Rng::gen`: a random `u64`, of which
/// nothing is promised.
#[verifier::external_body]
fn random_u64() -> u64 {
    rand::Rng::gen::<u64>(&mut rand::thread_rng())
}

/// Relies on `std::io::Error::new`: an error of kind `Other` carrying the
/// message.
#[verifier::external_body]
fn other_io_error(msg: &str) -> std::io::Error {
    std::io::Error::new(std::io::ErrorKind::Other, msg)
}

/// Whether `k` is the position of the first `.` of the text.
pub open spec fn is_first_dot(s: Seq<char>, k: int) -> bool {
    &&& 0 <= k < s.len()
    &&& s[k] == '.'
    &&& forall|j: int| 0 <= j < k ==> s[j] != '.'
}

pub open spec fn has_dot(s: Seq<char>) -> bool {
    exists|k: int| 0 <= k < s.len() && s[k] == '.'
}

/// What follows the first `.` of a file path.
pub open spec fn extension(s: Seq<char>) -> Seq<char> {
    let k = choose|k: int| is_first_dot(s, k);
    s.subrange(k + 1, s.len() as int)
}

/// The headers of a file field's part, up to its contents.
pub open spec fn file_part_head(boundary: Seq<char>, name: Seq<char>, path: Seq<char>) -> Seq<char> {
    "--"@ + boundary + "\r\n"@ + "Content-Disposition: form-data; name=\""@ + name
        + "\"; filename=\""@ + path + "\"\r\n"@ + "Content-Type: image/"@ + extension(path)
        + "\r\n\r\n"@
}

proof fn lemma_text_part_bytes(b0: Seq<u8>, b: Seq<char>, name: Seq<char>, value: Seq<char>)
    ensures
        b0 + encode_utf8("--"@) + encode_utf8(b) + encode_utf8("\r\n"@) + encode_utf8(
            "Content-Disposition: form-data; name=\""@,
        ) + encode_utf8(name) + encode_utf8("\"\r\n\r\n"@) + encode_utf8(value) + encode_utf8(
            "\r\n"@,
        ) =~= b0 + encode_utf8(text_part(b, name, value)),
{
    let s0 = "--"@;
    let s1 = s0 + b;
    let s2 = s1 + "\r\n"@;
    let s3 = s2 + "Content-Disposition: form-data; name=\""@;
    let s4 = s3 + name;
    let s5 = s4 + "\"\r\n\r\n"@;
    let s6 = s5 + value;
    lemma_encode_utf8_concat(s0, b);
    lemma_encode_utf8_concat(s1, "\r\n"@);
    lemma_encode_utf8_concat(s2, "Content-Disposition: form-data; name=\""@);
    lemma_encode_utf8_concat(s3, name);
    lemma_encode_utf8_concat(s4, "\"\r\n\r\n"@);
    lemma_encode_utf8_concat(s5, value);
    lemma_encode_utf8_concat(s6, "\r\n"@);
    assert(s6 + "\r\n"@ == text_part(b, name, value));
}

proof fn lemma_extension_at(s: Seq<char>, k: int)
    requires
        is_first_dot(s, k),
    ensures
        extension(s) == s.subrange(k + 1, s.len() as int),
{
    let c = choose|c: int| is_first_dot(s, c);
    assert(is_first_dot(s, c));
    if c < k {
        assert(s[c] != '.');
    }
    if k < c {
        assert(s[k] != '.');
    }
}

#[verifier::rlimit(50)]
proof fn lemma_file_head_bytes(
    b0: Seq<u8>,
    b: Seq<char>,
    name: Seq<char>,
    path: Seq<char>,
    ext: Seq<char>,
)
    requires
        ext == extension(path),
    ensures
        b0 + encode_utf8("--"@) + encode_utf8(b) + encode_utf8("\r\n"@) + encode_utf8(
            "Content-Disposition: form-data; name=\""@,
        ) + encode_utf8(name) + encode_utf8("\"; filename=\""@) + encode_utf8(path)
            + encode_utf8("\"\r\n"@) + encode_utf8("Content-Type: image/"@) + encode_utf8(ext)
            + encode_utf8("\r\n\r\n"@) =~= b0 + encode_utf8(file_part_head(b, name, path)),
{
    let s0 = "--"@;
    let s1 = s0 + b;
    let s2 = s1 + "\r\n"@;
    let s3 = s2 + "Content-Disposition: form-data; name=\""@;
    let s4 = s3 + name;
    let s5 = s4 + "\"; filename=\""@;
    let s6 = s5 + path;
    let s7 = s6 + "\"\r\n"@;
    let s8 = s7 + "Content-Type: image/"@;
    let s9 = s8 + ext;
    lemma_encode_utf8_concat(s0, b);
    lemma_encode_utf8_concat(s1, "\r\n"@);
    lemma_encode_utf8_concat(s2, "Content-Disposition: form-data; name=\""@);
    lemma_encode_utf8_concat(s3, name);
    lemma_encode_utf8_concat(s4, "\"; filename=\""@);
    lemma_encode_utf8_concat(s5, path);
    lemma_encode_utf8_concat(s6, "\"\r\n"@);
    lemma_encode_utf8_concat(s7, "Content-Type: image/"@);
    lemma_encode_utf8_concat(s8, ext);
    lemma_encode_utf8_concat(s9, "\r\n\r\n"@);
    assert(s9 + "\r\n\r\n"@ == file_part_head(b, name, path));
}

fn first_dot(s: &str) -> (r: Option<usize>)
    ensures
        r matches Some(k) ==> is_first_dot(s@, k as int),
        r is None ==> !has_dot(s@),
{
    let n = s.unicode_len();
    let mut k: usize = 0;
    while k < n
        invariant
            n == s@.len(),
            k <= n,
            forall|j: int| 0 <= j < k ==> s@[j] != '.',
        decreases n - k,
    {
        if s.get_char(k) == '.' {
            return Some(k);
        }
        k = k + 1;
    }
    None
}

/// A multipart form body under construction, with its boundary.
pub struct MultipartFormData {
    pub boundary: String,
    pub body: Vec<u8>,
}

/// The UTF-8 encoding of a concatenation is the concatenation of the
/// encodings.
pub proof fn lemma_encode_utf8_concat(a: Seq<char>, b: Seq<char>)
    ensures
        encode_utf8(a + b) == encode_utf8(a) + encode_utf8(b),
    decreases a.len(),
{
    if a.len() == 0 {
        assert(a + b =~= b);
        assert(encode_utf8(a) =~= Seq::<u8>::empty());
        assert(encode_utf8(a) + encode_utf8(b) =~= encode_utf8(b));
    } else {
        assert((a + b).drop_first() =~= a.drop_first() + b);
        assert((a + b)[0] == a[0]);
        lemma_encode_utf8_concat(a.drop_first(), b);
    }
}

/// Appends the UTF-8 encoding of the text.
fn append_text(body: &mut Vec<u8>, s: &str)
    ensures
        final(body)@ == old(body)@ + encode_utf8(s@),
{
    body.extend_from_slice(s.as_bytes());
    assert(body@ =~= old(body)@ + encode_utf8(s@));
}

/// The text of a form field's part.
pub open spec fn text_part(boundary: Seq<char>, name: Seq<char>, value: Seq<char>) -> Seq<char> {
    "--"@ + boundary + "\r\n"@ + "Content-Disposition: form-data; name=\""@ + name
        + "\"\r\n\r\n"@ + value + "\r\n"@
}

/// The text that closes a form body.
pub open spec fn closing_part(boundary: Seq<char>) -> Seq<char> {
    "--"@ + boundary + "--\r\n"@
}

impl MultipartFormData {
    /// A new, empty form body with a fresh random boundary.
    pub fn new() -> (r: Self)
        ensures
            r.body@.len() == 0,
            r.boundary@.len() >= BOUNDARY_PREFIX@.len(),
            r.boundary@.subrange(0, BOUNDARY_PREFIX@.len() as int) == BOUNDARY_PREFIX@,
    {
        let n = random_u64();
        let mut boundary = BOUNDARY_PREFIX.to_string();
        boundary.append(n.to_string().as_str());
        assert(boundary@.subrange(0, BOUNDARY_PREFIX@.len() as int) =~= BOUNDARY_PREFIX@);
        MultipartFormData { boundary, body: Vec::new() }
    }

    /// Appends a text field: its boundary line, its disposition header with
    /// the field's name, and its value.
    pub fn add_text(&mut self, name: &str, value: &str) -> (r: Result<(), std::io::Error>)
        ensures
            r is Ok,
            final(self).boundary == old(self).boundary,
            final(self).body@ == old(self).body@ + encode_utf8(
                text_part(old(self).boundary@, name@, value@),
            ),
    {
        let ghost b0 = self.body@;
        append_text(&mut self.body, "--");
        append_text(&mut self.body, self.boundary.as_str());
        append_text(&mut self.body, "\r\n");
        append_text(&mut self.body, "Content-Disposition: form-data; name=\"");
        append_text(&mut self.body, name);
        append_text(&mut self.body, "\"\r\n\r\n");
        append_text(&mut self.body, value);
        append_text(&mut self.body, "\r\n");
        proof {
            lemma_text_part_bytes(b0, self.boundary@, name@, value@);
        }
        Ok(())
    }

    /// Appends a file field: its boundary line, its disposition header with
    /// the field's name and the file's path, a content type taken from what
    /// follows the path's first `.`, and the file's contents. A path without
    /// a `.` is refused and nothing is appended.
    pub fn add_file(&mut self, name: &str, path: &str, contents: &[u8]) -> (r: Result<
        (),
        std::io::Error,
    >)
        ensures
            r is Ok <==> has_dot(path@),
            final(self).boundary == old(self).boundary,
            !has_dot(path@) ==> final(self).body@ == old(self).body@,
            has_dot(path@) ==> final(self).body@ == old(self).body@ + encode_utf8(
                file_part_head(old(self).boundary@, name@, path@),
            ) + contents@ + encode_utf8("\r\n"@),
    {
        let k = match first_dot(path) {
            Some(k) => k,
            None => {
                return Err(other_io_error("Invalid file path"));
            },
        };
        let n = path.unicode_len();
        let ext = path.substring_char(k + 1, n);
        proof {
            lemma_extension_at(path@, k as int);
        }
        let ghost b0 = self.body@;
        append_text(&mut self.body, "--");
        append_text(&mut self.body, self.boundary.as_str());
        append_text(&mut self.body, "\r\n");
        append_text(&mut self.body, "Content-Disposition: form-data; name=\"");
        append_text(&mut self.body, name);
        append_text(&mut self.body, "\"; filename=\"");
        append_text(&mut self.body, path);
        append_text(&mut self.body, "\"\r\n");
        append_text(&mut self.body, "Content-Type: image/");
        append_text(&mut self.body, ext);
        append_text(&mut self.body, "\r\n\r\n");
        let ghost b1 = self.body@;
        self.body.extend_from_slice(contents);
        assert(self.body@ =~= b1 + contents@);
        append_text(&mut self.body, "\r\n");
        proof {
            lemma_file_head_bytes(b0, self.boundary@, name@, path@, ext@);
            assert(self.body@ =~= b0 + encode_utf8(file_part_head(self.boundary@, name@, path@))
                + contents@ + encode_utf8("\r\n"@));
        }
        Ok(())
    }

    /// Closes the form body with the final boundary line.
    pub fn end_body(&mut self) -> (r: Result<(), std::io::Error>)
        ensures
            r is Ok,
            final(self).boundary == old(self).boundary,
            final(self).body@ == old(self).body@ + encode_utf8(closing_part(old(self).boundary@)),
    {
        let ghost b0 = self.body@;
        append_text(&mut self.body, "--");
        append_text(&mut self.body, self.boundary.as_str());
        append_text(&mut self.body, "--\r\n");
        proof {
            let b = self.boundary@;
            lemma_encode_utf8_concat("--"@, b);
            lemma_encode_utf8_concat("--"@ + b, "--\r\n"@);
            assert(self.body@ =~= b0 + encode_utf8(closing_part(b)));
        }
        Ok(())
    }
}

} // verus!
