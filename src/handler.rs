use vstd::prelude::*;

use crate::mime::{content_type_of, path_content_type};
use crate::response::HTTPResponseBuilder;
use crate::status::HTTPResponse;

verus! {

/// What reading the requested file gave: its bytes, or a failure classified
/// as "does not exist" or as anything else.
pub enum ReadOutcome {
    Contents(Vec<u8>),
    NotFound,
    OtherError,
}

/// The response to a request for the file at `file_path`, given how reading it went:
/// the file's bytes with its content type, `404` for a missing file, `500` otherwise.
pub fn respond(file_path: &str, read: ReadOutcome) -> (r: HTTPResponseBuilder)
    ensures
        r.wf(),
        match read {
            ReadOutcome::Contents(data) => r.response == HTTPResponse::Success && r.payload@
                == data@ && r.header_view() == seq![("content-type"@, content_type_of(file_path@))],
            ReadOutcome::NotFound => r.response == HTTPResponse::NotFound && r.header_view()
                == Seq::<(Seq<char>, Seq<char>)>::empty() && r.payload@ == Seq::<u8>::empty(),
            ReadOutcome::OtherError => r.response == HTTPResponse::ServerError && r.header_view()
                == Seq::<(Seq<char>, Seq<char>)>::empty() && r.payload@ == Seq::<u8>::empty(),
        },
{
    let mut builder = HTTPResponseBuilder::new();
    assert(builder.header_view() =~= Seq::<(Seq<char>, Seq<char>)>::empty());
    match read {
        ReadOutcome::Contents(data) => {
            builder.payload = data;
            builder.insert_header("content-type", path_content_type(file_path));
            assert(builder.header_view() =~= seq![("content-type"@, content_type_of(file_path@))]);
        },
        ReadOutcome::NotFound => {
            builder.response = HTTPResponse::NotFound;
        },
        ReadOutcome::OtherError => {
            builder.response = HTTPResponse::ServerError;
        },
    }
    builder
}

} // verus!
