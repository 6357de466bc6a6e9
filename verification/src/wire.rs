//! The connect request that opens a tunneled stream, and how it is framed.
use vstd::prelude::*;
use vstd::string::StringExecFns;

use crate::text::decimal_string;

verus! {

/// ALPN used by the Rusternetes iroh service-overlay protocol: the ASCII bytes of
/// `rusternetes/iroh-overlay/1`.
pub const RUSTERNETES_IROH_ALPN: [u8; 26] = [
    114, 117, 115, 116, 101, 114, 110, 101, 116, 101, 115, 47, 105,
    114, 111, 104, 45, 111, 118, 101, 114, 108, 97, 121, 47, 49,
];

/// Asks the node that owns a backend to connect to it.
#[derive(Debug)]
pub struct TcpConnectRequest {
    pub dst_ip: String,
    pub dst_port: u16,
}

/// A connect request, with text as a character sequence.
pub struct RequestModel {
    pub dst_ip: Seq<char>,
    pub dst_port: u16,
}

impl View for TcpConnectRequest {
    type V = RequestModel;

    open spec fn view(&self) -> RequestModel {
        RequestModel { dst_ip: self.dst_ip@, dst_port: self.dst_port }
    }
}

impl Clone for TcpConnectRequest {
    fn clone(&self) -> (request: TcpConnectRequest)
        ensures
            request@ == self@,
    {
        TcpConnectRequest { dst_ip: self.dst_ip.clone(), dst_port: self.dst_port }
    }
}

/// The longest request body that is accepted, in bytes.
pub const MAX_REQUEST_LEN: usize = 8192;

/// The four bytes of `n`, most significant first.
pub open spec fn be_bytes(n: nat) -> Seq<u8> {
    seq![
        (n / 0x100_0000 % 256) as u8,
        (n / 0x1_0000 % 256) as u8,
        (n / 0x100 % 256) as u8,
        (n % 256) as u8,
    ]
}

/// The number whose bytes these four are, most significant first.
pub open spec fn be_value(bytes: Seq<u8>) -> nat {
    (bytes[0] * 0x100_0000 + bytes[1] * 0x1_0000 + bytes[2] * 0x100 + bytes[3]) as nat
}

/// What goes out for a request body: its length in four bytes, then the body. A length of
/// 2^32 and more is cut to its lowest four bytes.
pub open spec fn framed(body: Seq<u8>) -> Seq<u8> {
    be_bytes(body.len()) + body
}

/// Whether a request body of this length is accepted.
pub open spec fn length_ok(len: nat) -> bool {
    0 < len <= MAX_REQUEST_LEN
}

/// Why a request is not read.
#[derive(Debug, Clone, Copy, PartialEq, Eq, Structural)]
pub enum RequestError {
    /// The header announces a body of this length.
    InvalidLength(usize),
}

impl RequestError {
    /// The sentence that tells an operator about the error.
    pub open spec fn message_spec(self) -> Seq<char> {
        match self {
            RequestError::InvalidLength(len) => "invalid request length "@ + crate::text::decimal(
                len as nat,
            ),
        }
    }

    /// The sentence that tells an operator about the error.
    pub fn message(&self) -> (s: String)
        ensures
            s@ == self.message_spec(),
    {
        match self {
            RequestError::InvalidLength(len) => "invalid request length ".to_owned().concat(
                decimal_string(*len as u64).as_str(),
            ),
        }
    }
}

/// The header that goes out before a request body of the given length.
pub fn request_header(body_len: usize) -> (header: [u8; 4])
    ensures
        header@ == be_bytes(body_len as nat),
{
    let n: u64 = body_len as u64;
    let header: [u8; 4] = [
        (n / 0x100_0000 % 256) as u8,
        (n / 0x1_0000 % 256) as u8,
        (n / 0x100 % 256) as u8,
        (n % 256) as u8,
    ];
    assert(header@ =~= be_bytes(body_len as nat));
    header
}

/// A serialized request with the header that goes out before it.
#[derive(Debug)]
pub struct FramedRequest {
    pub header: [u8; 4],
    pub body: Vec<u8>,
}

impl View for FramedRequest {
    type V = Seq<u8>;

    /// The bytes that go out: the header, then the body.
    open spec fn view(&self) -> Seq<u8> {
        self.header@ + self.body@
    }
}

/// Puts the header before a request body.
pub fn frame_request(body: Vec<u8>) -> (frame: FramedRequest)
    ensures
        frame@ == framed(body@),
        frame.header@ == be_bytes(body@.len()),
        frame.body@ == body@,
{
    let header = request_header(body.len());
    FramedRequest { header, body }
}

/// Reads a request header: how long the body is that follows. An empty body and one that is too
/// long are refused.
pub fn request_length(header: [u8; 4]) -> (len: Result<usize, RequestError>)
    ensures
        len == (if length_ok(be_value(header@)) {
            Ok(be_value(header@) as usize)
        } else {
            Err(RequestError::InvalidLength(be_value(header@) as usize))
        }),
{
    let n: u32 = header[0] as u32 * 0x100_0000 + header[1] as u32 * 0x1_0000 + header[2] as u32
        * 0x100 + header[3] as u32;
    let len: usize = n as usize;
    if len == 0 || len > MAX_REQUEST_LEN {
        Err(RequestError::InvalidLength(len))
    } else {
        Ok(len)
    }
}

impl RequestModel {
    /// The destination as text: the address, a colon, and the port.
    pub open spec fn destination(self) -> Seq<char> {
        self.dst_ip + ":"@ + crate::text::decimal(self.dst_port as nat)
    }
}

impl TcpConnectRequest {
    /// The destination to connect to, as text: the address, a colon, and the port.
    pub fn destination(&self) -> (dst: String)
        ensures
            dst@ == self@.destination(),
    {
        let mut dst = self.dst_ip.clone();
        dst.append(":");
        dst.append(decimal_string(self.dst_port as u64).as_str());
        dst
    }
}

/// What goes out for a request tells its two parts: the header is the first four bytes, the
/// body the rest.
pub proof fn law_frame_has_two_parts(frame: FramedRequest, body: Seq<u8>)
    requires
        frame@ == framed(body),
    ensures
        frame.header@ == be_bytes(body.len()),
        frame.body@ == body,
{
    assert(frame.header@ =~= frame@.take(4));
    assert(frame.body@ =~= frame@.skip(4));
    assert(framed(body).take(4) =~= be_bytes(body.len()));
    assert(framed(body).skip(4) =~= body);
}

/// The header tells how long the body is: of what goes out for a body below 2^32 bytes, the
/// first four bytes give its length back, the body follows, and behind it comes what was sent
/// next.
pub proof fn law_framing_reads_back(body: Seq<u8>, rest: Seq<u8>)
    requires
        body.len() < 0x1_0000_0000,
    ensures
        be_value((framed(body) + rest).take(4)) == body.len(),
        (framed(body) + rest).skip(4).take(body.len() as int) == body,
        (framed(body) + rest).skip(4 + body.len() as int) == rest,
{
    let n = body.len();
    assert((framed(body) + rest).take(4) =~= be_bytes(n));
    assert((framed(body) + rest).skip(4).take(n as int) =~= body);
    assert((framed(body) + rest).skip(4 + n as int) =~= rest);
    assert(n == n / 0x100_0000 * 0x100_0000 + n / 0x1_0000 % 256 * 0x1_0000 + n / 0x100 % 256
        * 0x100 + n % 256);
}

/// The protocol name is the ASCII text `rusternetes/iroh-overlay/1`.
pub proof fn law_alpn_spells_the_protocol()
    ensures
        RUSTERNETES_IROH_ALPN@.len() == "rusternetes/iroh-overlay/1"@.len(),
        forall|i: int|
            0 <= i < RUSTERNETES_IROH_ALPN@.len() ==> #[trigger] RUSTERNETES_IROH_ALPN@[i] as int
                == "rusternetes/iroh-overlay/1"@[i] as int,
{
    reveal_strlit("rusternetes/iroh-overlay/1");
}

/// Of a number, four digits to the base 256 are kept.
proof fn lemma_four_digits(n: nat)
    ensures
        n / 0x100_0000 % 256 * 0x100_0000 + n / 0x1_0000 % 256 * 0x1_0000 + n / 0x100 % 256 * 0x100
            + n % 256 == n % 0x1_0000_0000,
{
    let (p, q, r) = (n / 0x100, n / 0x1_0000, n / 0x100_0000);
    assert(q == p / 256 && r == q / 256);
    assert(n == 256 * p + n % 256);
    assert(p == 256 * q + p % 256);
    assert(q == 256 * r + q % 256);
    let t = r / 256;
    assert(r == 256 * t + r % 256);
    let m = r % 256 * 0x100_0000 + q % 256 * 0x1_0000 + p % 256 * 0x100 + n % 256;
    assert(n == 0x1_0000_0000 * t + m);
    assert(0 <= m < 0x1_0000_0000);
}

/// Four digits to the base 256 are those of the number that they make.
proof fn lemma_digits_of_four(b0: nat, b1: nat, b2: nat, b3: nat)
    requires
        b0 < 256,
        b1 < 256,
        b2 < 256,
        b3 < 256,
    ensures
        ({
            let n = b0 * 0x100_0000 + b1 * 0x1_0000 + b2 * 0x100 + b3;
            &&& n < 0x1_0000_0000
            &&& n / 0x100_0000 % 256 == b0
            &&& n / 0x1_0000 % 256 == b1
            &&& n / 0x100 % 256 == b2
            &&& n % 256 == b3
        }),
{
    let n = b0 * 0x100_0000 + b1 * 0x1_0000 + b2 * 0x100 + b3;
    assert(n / 0x100 == b0 * 0x1_0000 + b1 * 0x100 + b2);
    assert(n / 0x1_0000 == b0 * 0x100 + b1);
    assert(n / 0x100_0000 == b0);
}

/// The four bytes of a number are its digits to the base 256, most significant first, without
/// those above the fourth; and four bytes are read as the number that has these digits.
pub proof fn law_headers_are_big_endian(n: nat, header: [u8; 4])
    ensures
        be_bytes(n).len() == 4,
        be_bytes(n)[0] * 0x100_0000 + be_bytes(n)[1] * 0x1_0000 + be_bytes(n)[2] * 0x100 + be_bytes(
            n,
        )[3] == n % 0x1_0000_0000,
        be_value(header@) < 0x1_0000_0000,
        be_bytes(be_value(header@)) == header@,
{
    lemma_four_digits(n);
    let h = header@;
    lemma_digits_of_four(h[0] as nat, h[1] as nat, h[2] as nat, h[3] as nat);
    assert(be_bytes(be_value(h)) =~= h);
}

/// What goes out for a request body is four bytes more than the body: they are the length of the
/// body to the base 256, most significant digit first, and the body follows them. This holds of
/// every body below 2^32 bytes.
pub proof fn law_request_goes_out_whole(body: Seq<u8>)
    requires
        body.len() < 0x1_0000_0000,
    ensures
        framed(body).len() == 4 + body.len(),
        framed(body)[0] * 0x100_0000 + framed(body)[1] * 0x1_0000 + framed(body)[2] * 0x100
            + framed(body)[3] == body.len(),
        framed(body).skip(4) == body,
{
    law_headers_are_big_endian(body.len(), [0u8, 0u8, 0u8, 0u8]);
    assert(framed(body).skip(4) =~= body);
}

/// Request bodies of 1 to 8192 bytes are accepted, and no others.
pub proof fn law_accepted_lengths(len: nat)
    ensures
        length_ok(len) <==> 1 <= len <= 8192,
{
}

/// A destination is the address of the request, a colon, and the numeral of its port.
pub proof fn law_destination_text(request: TcpConnectRequest)
    ensures
        request@.destination() == request.dst_ip@ + seq![':'] + crate::text::decimal(
            request.dst_port as nat,
        ),
{
    reveal_strlit(":");
    assert(":"@ =~= seq![':']);
}

/// The sentence of a refused length names it.
pub proof fn law_refused_length_is_named(len: usize)
    ensures
        RequestError::InvalidLength(len).message_spec() == "invalid request length "@
            + crate::text::decimal(len as nat),
{
}

}
