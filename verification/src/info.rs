use vstd::prelude::*;

use crate::escape::escape_bytes;
use crate::escape::escape_into;

verus! {

/// The one record the server sends besides evaluation results: a plain
/// message, used by the liveness endpoint and by every failure response.
#[derive(Debug)]
pub struct Info {
    pub message: String,
}

/// The bytes of `{"message":"` — the opening of the rendered record.
pub open spec fn info_prefix() -> Seq<u8> {
    seq![
        0x7bu8,
        0x22u8,
        0x6du8,
        0x65u8,
        0x73u8,
        0x73u8,
        0x61u8,
        0x67u8,
        0x65u8,
        0x22u8,
        0x3au8,
        0x22u8,
    ]
}

/// The bytes of `"}` — the closing of the rendered record.
pub open spec fn info_suffix() -> Seq<u8> {
    seq![0x22u8, 0x7du8]
}

/// The JSON document for an info record: an object with the single field
/// `message`, its value the message with every byte escaped for a JSON
/// string literal.
pub open spec fn info_json(message: Seq<char>) -> Seq<u8> {
    info_prefix() + escape_bytes(vstd::utf8::encode_utf8(message)) + info_suffix()
}

impl Info {
    /// The liveness message the index endpoint answers with.
    pub fn welcome() -> (r: Info)
        ensures
            r.message@ == "Welcome to Zen Engine!"@,
    {
        Info { message: "Welcome to Zen Engine!".to_owned() }
    }

    /// Renders the record as JSON bytes, ready to be sent as a response body.
    pub fn render_json(&self) -> (r: Vec<u8>)
        ensures
            r@ == info_json(self.message@),
    {
        let mut out: Vec<u8> = Vec::new();
        out.push(0x7b);
        out.push(0x22);
        out.push(0x6d);
        out.push(0x65);
        out.push(0x73);
        out.push(0x73);
        out.push(0x61);
        out.push(0x67);
        out.push(0x65);
        out.push(0x22);
        out.push(0x3a);
        out.push(0x22);
        proof {
            assert(out@ =~= info_prefix());
        }
        escape_into(self.message.as_str().as_bytes(), &mut out);
        out.push(0x22);
        out.push(0x7d);
        proof {
            assert(out@ =~= info_json(self.message@));
        }
        out
    }
}

} // verus!
