//! The argument vector that the host hands to a module: byte strings that
//! must each be valid UTF-8 text.
use vstd::prelude::*;
use vstd::string::StringSliceAdditionalSpecFns;
use vstd::utf8::valid_utf8;

verus! {

/// Every argument is valid UTF-8.
pub open spec fn all_text(raw: Seq<Vec<u8>>) -> bool {
    forall|i: int| 0 <= i < raw.len() ==> valid_utf8(#[trigger] raw[i]@)
}

/// `args` holds the text of `raw`: as many strings, in the same order, each
/// encoded as exactly the bytes of its argument.
pub open spec fn same_text(args: Seq<&str>, raw: Seq<Vec<u8>>) -> bool {
    &&& args.len() == raw.len()
    &&& forall|i: int| 0 <= i < raw.len() ==> (#[trigger] args[i]).spec_bytes() == raw[i]@
}

/// Relies on `std::str::from_utf8`: it gives the text that `bytes` encode
/// when they are valid UTF-8, and an error otherwise.
#[verifier::external_body]
fn text_of<'a>(bytes: &'a [u8]) -> (r: Option<&'a str>)
    ensures
        r is Some <==> valid_utf8(bytes@),
        r matches Some(s) ==> s.spec_bytes() == bytes@,
{
    std::str::from_utf8(bytes).ok()
}

/// Reads each argument as text. Gives `None` when any argument is not valid
/// UTF-8, and otherwise the arguments as string slices, in order.
pub fn decode_args<'a>(raw: &'a [Vec<u8>]) -> (r: Option<Vec<&'a str>>)
    ensures
        r is Some <==> all_text(raw@),
        r matches Some(args) ==> same_text(args@, raw@),
{
    let mut args: Vec<&'a str> = Vec::with_capacity(raw.len());
    let mut i: usize = 0;
    while i < raw.len()
        invariant
            i <= raw@.len(),
            same_text(args@, raw@.subrange(0, i as int)),
            all_text(raw@.subrange(0, i as int)),
        decreases raw@.len() - i,
    {
        match text_of(raw[i].as_slice()) {
            Some(s) => {
                args.push(s);
            },
            None => {
                assert(!all_text(raw@)) by {
                    assert(!valid_utf8(raw@[i as int]@));
                }
                return None;
            },
        }
        i = i + 1;
        assert(all_text(raw@.subrange(0, i as int))) by {
            assert forall|j: int| 0 <= j < i implies valid_utf8(
                #[trigger] raw@.subrange(0, i as int)[j]@,
            ) by {
                if j < i - 1 {
                    assert(raw@.subrange(0, i as int)[j] == raw@.subrange(0, i - 1)[j]);
                }
            }
        }
    }
    assert(raw@.subrange(0, i as int) =~= raw@);
    Some(args)
}

} // verus!
