use vstd::prelude::*;
use vstd::utf8::encode_utf8;

use crate::status::HTTPResponse;

verus! {

/// The ASCII decimal digits of `n`, most significant first, without leading zeros.
pub open spec fn decimal(n: nat) -> Seq<u8>
    decreases n,
{
    if n < 10 {
        seq![(n + 48) as u8]
    } else {
        decimal(n / 10).push((n % 10 + 48) as u8)
    }
}

/// One header line, `<key>: <value>\n`.
pub open spec fn header_line(key: Seq<char>, value: Seq<char>) -> Seq<u8> {
    encode_utf8(key) + encode_utf8(": "@) + encode_utf8(value) + encode_utf8("\n"@)
}

/// The header lines of `headers`, in order.
pub open spec fn header_block(headers: Seq<(Seq<char>, Seq<char>)>) -> Seq<u8>
    decreases headers.len(),
{
    if headers.len() == 0 {
        Seq::empty()
    } else {
        header_block(headers.drop_last()) + header_line(headers.last().0, headers.last().1)
    }
}

/// The status line, `HTTP/1.1 <code> <reason>\n`.
pub open spec fn status_line(status: HTTPResponse) -> Seq<u8> {
    encode_utf8("HTTP/1.1 "@) + decimal(status.spec_code()) + encode_utf8(" "@) + encode_utf8(
        status.reason(),
    ) + encode_utf8("\n"@)
}

/// The complete wire form of a response: status line, a `content-length` line
/// giving the body's length, the supplied headers, a blank line, then the body.
pub open spec fn serialize(
    status: HTTPResponse,
    headers: Seq<(Seq<char>, Seq<char>)>,
    body: Seq<u8>,
) -> Seq<u8> {
    status_line(status) + encode_utf8("content-length: "@) + decimal(body.len()) + encode_utf8(
        "\n"@,
    ) + header_block(headers) + encode_utf8("\n"@) + body
}

/// Serializing depends on the status, headers and body alone: the same
/// response serialized twice gives byte-identical output.
pub proof fn lemma_serialize_deterministic(a: &HTTPResponseBuilder, b: &HTTPResponseBuilder)
    requires
        a.response == b.response,
        a.header_view() == b.header_view(),
        a.payload@ == b.payload@,
    ensures
        a.wire() == b.wire(),
{
}

/// Appends the UTF-8 bytes of `s` to `out`.
fn push_text(out: &mut Vec<u8>, s: &str)
    ensures
        final(out)@ == old(out)@ + encode_utf8(s@),
{
    let bytes = s.as_bytes();
    let ghost start = out@;
    let mut i: usize = 0;
    while i < bytes.len()
        invariant
            i <= bytes@.len(),
            bytes@ == encode_utf8(s@),
            out@ == start + bytes@.subrange(0, i as int),
        decreases bytes@.len() - i,
    {
        out.push(bytes[i]);
        i = i + 1;
        assert(out@ =~= start + bytes@.subrange(0, i as int));
    }
    assert(bytes@.subrange(0, i as int) =~= bytes@);
}

/// Appends the decimal digits of `n` to `out`.
fn push_decimal(out: &mut Vec<u8>, n: usize)
    ensures
        final(out)@ == old(out)@ + decimal(n as nat),
    decreases n,
{
    if n >= 10 {
        push_decimal(out, n / 10);
    }
    let digit: u8 = (n % 10) as u8 + 48;
    out.push(digit);
    assert(out@ =~= old(out)@ + decimal(n as nat));
}

/// A response under construction: a status, headers with distinct names, and a body.
pub struct HTTPResponseBuilder {
    pub headers: Vec<(String, String)>,
    pub response: HTTPResponse,
    pub payload: Vec<u8>,
}

impl HTTPResponseBuilder {
    /// The headers as name/value pairs of characters.
    pub open spec fn header_view(&self) -> Seq<(Seq<char>, Seq<char>)> {
        self.headers@.map_values(|p: (String, String)| (p.0@, p.1@))
    }

    /// No header name occurs twice.
    pub open spec fn wf(&self) -> bool {
        forall|i: int, j: int|
            0 <= i < j < self.headers@.len() ==> #[trigger] self.header_view()[i].0
                != #[trigger] self.header_view()[j].0
    }

    /// The bytes that `build` produces.
    pub open spec fn wire(&self) -> Seq<u8> {
        serialize(self.response, self.header_view(), self.payload@)
    }

    /// A `200 OK` response with no headers and an empty body.
    pub fn new() -> (r: Self)
        ensures
            r.response == HTTPResponse::Success,
            r.headers@.len() == 0,
            r.payload@.len() == 0,
            r.wf(),
    {
        HTTPResponseBuilder { headers: Vec::new(), response: HTTPResponse::Success, payload: Vec::new() }
    }

    /// Sets header `key` to `value`: replaces the value where `key` is already
    /// present, and adds the pair at the end otherwise.
    pub fn insert_header(&mut self, key: &str, value: &str)
        requires
            old(self).wf(),
        ensures
            final(self).wf(),
            final(self).response == old(self).response,
            final(self).payload@ == old(self).payload@,
            (exists|i: int|
                0 <= i < old(self).headers@.len() && old(self).header_view()[i].0 == key@) ==> (
            exists|i: int|
                0 <= i < old(self).headers@.len() && old(self).header_view()[i].0 == key@
                    && final(self).header_view() == old(self).header_view().update(
                    i,
                    (key@, value@),
                )),
            !(exists|i: int|
                0 <= i < old(self).headers@.len() && old(self).header_view()[i].0 == key@)
                ==> final(self).header_view() == old(self).header_view().push((key@, value@)),
    {
        let name = String::from_str(key);
        let text = String::from_str(value);
        let ghost view = self.header_view();
        let mut i: usize = 0;
        while i < self.headers.len()
            invariant
                i <= self.headers@.len(),
                view == self.header_view(),
                view == old(self).header_view(),
                self.wf(),
                name@ == key@,
                text@ == value@,
                self.response == old(self).response,
                self.payload@ == old(self).payload@,
                forall|k: int| 0 <= k < i ==> view[k].0 != key@,
            decreases self.headers@.len() - i,
        {
            assert(view[i as int].0 == self.headers@[i as int].0@);
            if self.headers[i].0 == name {
                self.headers.set(i, (name, text));
                assert(self.header_view() =~= view.update(i as int, (key@, value@)));
                assert(forall|k: int|
                    0 <= k < view.len() ==> #[trigger] self.header_view()[k].0 == view[k].0);
                return;
            }
            i = i + 1;
        }
        self.headers.push((name, text));
        assert(self.header_view() =~= view.push((key@, value@)));
    }

    /// Serializes the response into its wire form.
    pub fn build(self) -> (r: Vec<u8>)
        ensures
            r@ == self.wire(),
    {
        let ghost view = self.header_view();
        let mut payload = self.payload;
        let ghost body = payload@;
        let mut result: Vec<u8> = Vec::new();
        push_text(&mut result, "HTTP/1.1 ");
        push_decimal(&mut result, self.response.code() as usize);
        push_text(&mut result, " ");
        push_text(&mut result, self.response.status_code());
        push_text(&mut result, "\n");
        push_text(&mut result, "content-length: ");
        push_decimal(&mut result, payload.len());
        push_text(&mut result, "\n");
        let ghost head = result@;
        assert(head =~= status_line(self.response) + encode_utf8("content-length: "@) + decimal(
            body.len(),
        ) + encode_utf8("\n"@));
        let mut i: usize = 0;
        while i < self.headers.len()
            invariant
                i <= self.headers@.len(),
                view == self.header_view(),
                result@ == head + header_block(view.subrange(0, i as int)),
            decreases self.headers@.len() - i,
        {
            let pair = &self.headers[i];
            push_text(&mut result, pair.0.as_str());
            push_text(&mut result, ": ");
            push_text(&mut result, pair.1.as_str());
            push_text(&mut result, "\n");
            assert(view.subrange(0, i + 1).drop_last() =~= view.subrange(0, i as int));
            i = i + 1;
            assert(result@ =~= head + header_block(view.subrange(0, i as int)));
        }
        assert(view.subrange(0, i as int) =~= view);
        push_text(&mut result, "\n");
        result.append(&mut payload);
        assert(result@ =~= self.wire());
        result
    }
}

} // verus!
