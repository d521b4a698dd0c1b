use vstd::prelude::*;

use crate::text::{chars_to_string, lines_view, split_at_char, split_vec, str_to_chars,
    strings_view};

verus! {

/// The four request methods the form can submit, in the order the method
/// field cycles through them.
#[derive(Clone, Copy, Debug, PartialEq, Eq, Structural)]
pub enum HttpMethod {
    Get,
    Post,
    Put,
    Delete,
}

impl HttpMethod {
    /// The method at a position of the cycling order.
    pub open spec fn at_index(i: int) -> HttpMethod {
        if i == 0 {
            HttpMethod::Get
        } else if i == 1 {
            HttpMethod::Post
        } else if i == 2 {
            HttpMethod::Put
        } else {
            HttpMethod::Delete
        }
    }

    /// The method's name as it appears on the wire.
    pub fn as_str(&self) -> (r: &'static str)
        ensures
            *self is Get ==> r@ == "GET"@,
            *self is Post ==> r@ == "POST"@,
            *self is Put ==> r@ == "PUT"@,
            *self is Delete ==> r@ == "DELETE"@,
    {
        match *self {
            HttpMethod::Get => "GET",
            HttpMethod::Post => "POST",
            HttpMethod::Put => "PUT",
            HttpMethod::Delete => "DELETE",
        }
    }
}

/// Everything the form shows of one completed call: populated wholesale,
/// replaced wholesale, never updated in part.
pub struct Response {
    pub status: u16,
    pub header: Vec<(String, String)>,
    pub body: Vec<String>,
    pub delay_ms: u64,
}

/// The mathematical content of a `Response`.
pub struct ResponseView {
    pub status: u16,
    pub header: Seq<(Seq<char>, Seq<char>)>,
    pub body: Seq<Seq<char>>,
    pub delay_ms: u64,
}

impl View for Response {
    type V = ResponseView;

    open spec fn view(&self) -> ResponseView {
        ResponseView {
            status: self.status,
            header: self.header@.map_values(|p: (String, String)| (p.0@, p.1@)),
            body: strings_view(self.body@),
            delay_ms: self.delay_ms,
        }
    }
}

/// The pretty-printed form of a JSON text, as the formatter renders it:
/// two-space indents, line-feed newlines, no trailing whitespace.
pub uninterp spec fn pretty_of(s: Seq<char>) -> Seq<char>;

/// Relies on jsonxf::pretty_print: the result is the pretty-printed form
/// of the JSON input, determined by the input text alone.  The call always
/// succeeds: its only error paths propagate reader and writer failures,
/// and here the reader is an in-memory slice and the writer a byte vector,
/// neither of which can fail; the formatter copies the input's characters
/// in whole byte runs between its own ASCII separators, so decoding the
/// output back to a string cannot fail either.
#[verifier::external_body]
fn pretty_print(s: &str) -> (r: Result<String, String>)
    ensures
        r is Ok,
        r matches Ok(p) ==> p@ == pretty_of(s@),
{
    jsonxf::pretty_print(s)
}

/// `s` cut into display lines at every line feed.
pub fn split_lines(s: &str) -> (r: Vec<String>)
    ensures
        strings_view(r@) == split_at_char(s@, '\n'),
        r@.len() >= 1,
{
    let chars = str_to_chars(s);
    let parts = split_vec(&chars, '\n');
    let n = parts.len();
    let mut r: Vec<String> = Vec::new();
    let mut i: usize = 0;
    while i < n
        invariant
            i <= n,
            n == parts@.len(),
            r@.len() == i,
            forall|j: int| 0 <= j < i ==> r@[j]@ == parts@[j]@,
        decreases n - i,
    {
        let line = chars_to_string(&parts[i]);
        r.push(line);
        i = i + 1;
    }
    proof {
        assert forall|j: int| 0 <= j < n implies strings_view(r@)[j] == lines_view(parts@)[j] by {
            assert(strings_view(r@)[j] == r@[j]@);
            assert(lines_view(parts@)[j] == parts@[j]@);
        }
        assert(strings_view(r@) =~= lines_view(parts@));
    }
    r
}

/// The display lines of a response body: the raw text pretty-printed as
/// JSON and cut at line feeds.  The formatter never rejects an in-memory
/// input, so every response body yields at least one display line.
pub fn body_lines(raw: &str) -> (r: Vec<String>)
    ensures
        strings_view(r@) == split_at_char(pretty_of(raw@), '\n'),
        r@.len() >= 1,
{
    match pretty_print(raw) {
        Ok(pretty) => split_lines(pretty.as_str()),
        Err(_) => unreached(),
    }
}

} // verus!
