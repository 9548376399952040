//! The decision core of a toy web server: which request a raw buffer
//! holds, which status line and file answer it, and the full HTTP response
//! text, with the content length written out in decimal. A stub thread
//! pool rounds the module off.

use vstd::prelude::*;
use vstd::string::StringExecFns;
use vstd::string::StringSliceAdditionalSpecFns;

verus! {

/// `b` begins with the bytes of `p`.
pub open spec fn bytes_start_with(b: Seq<u8>, p: Seq<u8>) -> bool {
    p.len() <= b.len() && b.subrange(0, p.len() as int) == p
}

/// Whether the buffer begins with the given prefix.
pub fn starts_with_bytes(buffer: &[u8], prefix: &[u8]) -> (r: bool)
    ensures
        r == bytes_start_with(buffer@, prefix@),
{
    if prefix.len() > buffer.len() {
        return false;
    }
    let mut i: usize = 0;
    while i < prefix.len()
        invariant
            prefix@.len() <= buffer@.len(),
            0 <= i <= prefix@.len(),
            forall|k: int| 0 <= k < i ==> buffer@[k] == prefix@[k],
        decreases prefix@.len() - i,
    {
        if buffer[i] != prefix[i] {
            proof {
                assert(buffer@.subrange(0, prefix@.len() as int)[i as int] == buffer@[i as int]);
            }
            return false;
        }
        i = i + 1;
    }
    proof {
        assert(buffer@.subrange(0, prefix@.len() as int) =~= prefix@);
    }
    true
}

/// The requests the server answers: the root page, the deliberately slow
/// page, and everything else.
#[derive(Debug, Clone, Copy, PartialEq, Eq, Structural)]
pub enum RequestKind {
    Root,
    Sleep,
    NotFound,
}

/// The bytes of the request line `GET / HTTP/1.1` with its line ending,
/// which asks for the root page.
pub open spec fn get_root_line() -> Seq<u8> {
    seq![71u8, 69u8, 84u8, 32u8, 47u8, 32u8, 72u8, 84u8, 84u8, 80u8, 47u8, 49u8, 46u8, 49u8, 13u8, 10u8]
}

/// The bytes of the request line `GET /sleep HTTP/1.1` with its line
/// ending, which asks for the slow page.
pub open spec fn get_sleep_line() -> Seq<u8> {
    seq![71u8, 69u8, 84u8, 32u8, 47u8, 115u8, 108u8, 101u8, 101u8, 112u8, 32u8, 72u8, 84u8, 84u8, 80u8, 47u8, 49u8, 46u8, 49u8, 13u8, 10u8]
}

/// Reads the request kind off the start of the raw buffer: `GET /` is the
/// root page, `GET /sleep` the slow page, anything else is not found.
pub fn classify_request(buffer: &[u8]) -> (r: RequestKind)
    ensures
        r == (if bytes_start_with(buffer@, get_root_line()) {
            RequestKind::Root
        } else if bytes_start_with(buffer@, get_sleep_line()) {
            RequestKind::Sleep
        } else {
            RequestKind::NotFound
        }),
{
    let get: Vec<u8> = vec![71, 69, 84, 32, 47, 32, 72, 84, 84, 80, 47, 49, 46, 49, 13, 10];
    let sleep: Vec<u8> = vec![71, 69, 84, 32, 47, 115, 108, 101, 101, 112, 32, 72, 84, 84, 80, 47, 49, 46, 49, 13, 10];
    proof {
        assert(get@ =~= get_root_line());
        assert(sleep@ =~= get_sleep_line());
    }
    if starts_with_bytes(buffer, get.as_slice()) {
        RequestKind::Root
    } else if starts_with_bytes(buffer, sleep.as_slice()) {
        RequestKind::Sleep
    } else {
        RequestKind::NotFound
    }
}

/// The status line and the file that answer each kind of request. Both
/// known pages answer with the greeting file; the slow one is served after
/// a pause that the caller performs.
pub fn response_parts(kind: RequestKind) -> (r: (&'static str, &'static str))
    ensures
        kind is NotFound ==> r.0@ == "HTTP/1.1 404 NOT FOUND"@ && r.1@ == "404.html"@,
        !(kind is NotFound) ==> r.0@ == "HTTP/1.1 200 OK"@ && r.1@ == "hello.html"@,
{
    match kind {
        RequestKind::Root => ("HTTP/1.1 200 OK", "hello.html"),
        RequestKind::Sleep => ("HTTP/1.1 200 OK", "hello.html"),
        RequestKind::NotFound => ("HTTP/1.1 404 NOT FOUND", "404.html"),
    }
}

/// The decimal digit for `d`.
pub open spec fn digit_char(d: int) -> char {
    if d == 0 {
        '0'
    } else if d == 1 {
        '1'
    } else if d == 2 {
        '2'
    } else if d == 3 {
        '3'
    } else if d == 4 {
        '4'
    } else if d == 5 {
        '5'
    } else if d == 6 {
        '6'
    } else if d == 7 {
        '7'
    } else if d == 8 {
        '8'
    } else {
        '9'
    }
}

/// The decimal digits of `n`, most significant first, with no leading
/// zeros (a single `0` for zero itself).
pub open spec fn decimal_digits(n: nat) -> Seq<char>
    decreases n,
{
    if n < 10 {
        seq![digit_char(n as int)]
    } else {
        decimal_digits(n / 10) + seq![digit_char((n % 10) as int)]
    }
}

/// Appends the single decimal digit `d`.
fn append_digit(s: &mut String, d: usize)
    requires
        d < 10,
    ensures
        final(s)@ == old(s)@ + seq![digit_char(d as int)],
{
    proof {
        reveal_strlit("0");
        reveal_strlit("1");
        reveal_strlit("2");
        reveal_strlit("3");
        reveal_strlit("4");
        reveal_strlit("5");
        reveal_strlit("6");
        reveal_strlit("7");
        reveal_strlit("8");
        reveal_strlit("9");
        assert("0"@ =~= seq!['0']);
        assert("1"@ =~= seq!['1']);
        assert("2"@ =~= seq!['2']);
        assert("3"@ =~= seq!['3']);
        assert("4"@ =~= seq!['4']);
        assert("5"@ =~= seq!['5']);
        assert("6"@ =~= seq!['6']);
        assert("7"@ =~= seq!['7']);
        assert("8"@ =~= seq!['8']);
        assert("9"@ =~= seq!['9']);
    }
    if d == 0 {
        s.append("0");
    } else if d == 1 {
        s.append("1");
    } else if d == 2 {
        s.append("2");
    } else if d == 3 {
        s.append("3");
    } else if d == 4 {
        s.append("4");
    } else if d == 5 {
        s.append("5");
    } else if d == 6 {
        s.append("6");
    } else if d == 7 {
        s.append("7");
    } else if d == 8 {
        s.append("8");
    } else {
        s.append("9");
    }
}

/// Appends `n` in decimal.
fn append_decimal(s: &mut String, n: usize)
    ensures
        final(s)@ == old(s)@ + decimal_digits(n as nat),
    decreases n,
{
    if n < 10 {
        append_digit(s, n);
    } else {
        append_decimal(s, n / 10);
        append_digit(s, n % 10);
    }
}

/// The full HTTP response: the status line, a `Content-Length` header
/// carrying the byte length of the body in decimal, a blank line, and the
/// body.
pub fn build_response(status_line: &str, contents: &str) -> (r: String)
    ensures
        r@ == status_line@ + "\r\nContent-Length: "@ + decimal_digits(
            (contents.spec_bytes().len() as usize) as nat,
        ) + "\r\n\r\n"@ + contents@,
{
    let mut response = String::from_str(status_line);
    response.append("\r\nContent-Length: ");
    append_decimal(&mut response, contents.len());
    response.append("\r\n\r\n");
    response.append(contents);
    proof {
        assert(response@ =~= status_line@ + "\r\nContent-Length: "@ + decimal_digits(
            (contents.spec_bytes().len() as usize) as nat,
        ) + "\r\n\r\n"@ + contents@);
    }
    response
}

/// A pool of worker threads; deliberately still a scaffold that accepts
/// work and does nothing with it.
pub struct ThreadPool;

impl ThreadPool {
    /// Builds a pool that would hold `size` threads.
    pub fn new(size: usize) -> ThreadPool {
        ThreadPool
    }

    /// Accepts a job; the scaffold drops it instead of running it.
    pub fn execute<F>(&self, f: F) where F: FnOnce() + Send + 'static {
    }
}

} // verus!
