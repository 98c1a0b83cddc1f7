use vstd::prelude::*;

verus! {

/// The bytes that end a request of the demonstration server.
pub open spec fn request_terminator() -> Seq<u8> {
    seq![13u8, 10u8, 13u8, 10u8]
}

/// Whether `data` holds a whole request: more than four bytes, the last
/// four being CR LF CR LF.
pub open spec fn is_request_complete_spec(data: Seq<u8>) -> bool {
    data.len() > 4 && data.subrange(data.len() - 4, data.len() as int) == request_terminator()
}

/// Whether the bytes received so far hold a whole request.
pub fn is_request_complete(data: &[u8]) -> (r: bool)
    ensures
        r == is_request_complete_spec(data@),
{
    let n = data.len();
    if n <= 4 {
        return false;
    }
    let r = data[n - 4] == 13 && data[n - 3] == 10 && data[n - 2] == 13 && data[n - 1] == 10;
    proof {
        let tail = data@.subrange(n - 4, n as int);
        if r {
            assert(tail =~= request_terminator());
        } else {
            if tail == request_terminator() {
                assert(tail[0] == data@[n - 4]);
                assert(tail[1] == data@[n - 3]);
                assert(tail[2] == data@[n - 2]);
                assert(tail[3] == data@[n - 1]);
            }
        }
    }
    r
}

} // verus!
