//! The scanner's output lines.
//!
//! Each probed port yields zero, one or two lines: an open port is
//! announced at once, then either its banner (the whole fixed-size
//! buffer, decoded as UTF-8 with lossy replacement, so a short banner
//! carries the trailing zero bytes of the buffer with it) or a note that
//! the banner could not be read. Closed ports and unresolvable addresses
//! yield no line. Line text is built and pinned down character by
//! character, including the decimal rendering of the port number.

use vstd::prelude::*;

use crate::scan::{classify, classify_spec, ConnectOutcome, ScanResult};

verus! {

pub open spec fn digit_char(d: nat) -> char
    recommends
        d < 10,
{
    if d == 0 {
        '0'
    } else if d == 1 {
        '1'
    } else if d == 2 {
        '2'
    } else if d == 3 {
        '3'
    } else if d == 4 {
        '4'
    } else if d == 5 {
        '5'
    } else if d == 6 {
        '6'
    } else if d == 7 {
        '7'
    } else if d == 8 {
        '8'
    } else {
        '9'
    }
}

/// The decimal rendering of a number, most significant digit first.
pub open spec fn dec_seq(n: nat) -> Seq<char>
    decreases n,
{
    if n < 10 {
        seq![digit_char(n)]
    } else {
        dec_seq(n / 10) + seq![digit_char(n % 10)]
    }
}

fn digit_str(d: u16) -> (r: &'static str)
    requires
        d < 10,
    ensures
        r@ == seq![digit_char(d as nat)],
{
    proof {
        reveal_strlit("0");
        reveal_strlit("1");
        reveal_strlit("2");
        reveal_strlit("3");
        reveal_strlit("4");
        reveal_strlit("5");
        reveal_strlit("6");
        reveal_strlit("7");
        reveal_strlit("8");
        reveal_strlit("9");
    }
    let r: &'static str = match d {
        0 => "0",
        1 => "1",
        2 => "2",
        3 => "3",
        4 => "4",
        5 => "5",
        6 => "6",
        7 => "7",
        8 => "8",
        _ => "9",
    };
    proof {
        assert(r@ =~= seq![digit_char(d as nat)]);
    }
    r
}

/// Renders a port number in decimal.
pub fn dec_string(n: u16) -> (r: String)
    ensures
        r@ == dec_seq(n as nat),
    decreases n,
{
    if n < 10 {
        String::from_str(digit_str(n))
    } else {
        let mut s = dec_string(n / 10);
        s.append(digit_str(n % 10));
        proof {
            assert(s@ =~= dec_seq(n as nat));
        }
        s
    }
}

/// The line announcing an open port.
pub open spec fn open_line_spec(port: u16) -> Seq<char> {
    "Port "@ + dec_seq(port as nat) + " is open"@
}

/// The line reporting a banner.
pub open spec fn banner_line_spec(port: u16, banner: Seq<char>) -> Seq<char> {
    "Banner on port "@ + dec_seq(port as nat) + ": "@ + banner
}

/// The line reporting that no banner could be read from an open port.
pub open spec fn failed_line_spec(port: u16) -> Seq<char> {
    "Failed to read banner on port "@ + dec_seq(port as nat)
}

pub fn open_line(port: u16) -> (r: String)
    ensures
        r@ == open_line_spec(port),
{
    let mut s = String::from_str("Port ");
    let p = dec_string(port);
    s.append(p.as_str());
    s.append(" is open");
    proof {
        assert(s@ =~= open_line_spec(port));
    }
    s
}

pub fn banner_line(port: u16, banner: &str) -> (r: String)
    ensures
        r@ == banner_line_spec(port, banner@),
{
    let mut s = String::from_str("Banner on port ");
    let p = dec_string(port);
    s.append(p.as_str());
    s.append(": ");
    s.append(banner);
    proof {
        assert(s@ =~= banner_line_spec(port, banner@));
    }
    s
}

pub fn failed_line(port: u16) -> (r: String)
    ensures
        r@ == failed_line_spec(port),
{
    let mut s = String::from_str("Failed to read banner on port ");
    let p = dec_string(port);
    s.append(p.as_str());
    proof {
        assert(s@ =~= failed_line_spec(port));
    }
    s
}

/// What the lossy UTF-8 decoding of a byte sequence reads as; the result
/// depends on the bytes alone.
pub uninterp spec fn utf8_lossy_of(bytes: Seq<u8>) -> Seq<char>;

/// Whether every byte is ASCII, zero bytes included.
pub open spec fn all_ascii(bytes: Seq<u8>) -> bool {
    forall|i: int| 0 <= i < bytes.len() ==> bytes[i] < 128
}

/// Each ASCII byte as the character of the same scalar value.
pub open spec fn ascii_chars_of(bytes: Seq<u8>) -> Seq<char> {
    bytes.map(|i: int, b: u8| b as char)
}

/// Relies on String::from_utf8_lossy: valid UTF-8 decodes as itself and
/// each invalid sequence becomes the replacement character, a function of
/// the bytes alone. In particular all-ASCII bytes (zero bytes included)
/// decode to exactly their characters, and empty bytes to the empty text.
#[verifier::external_body]
fn utf8_lossy(bytes: &Vec<u8>) -> (r: String)
    ensures
        r@ == utf8_lossy_of(bytes@),
        bytes@.len() == 0 ==> r@.len() == 0,
        all_ascii(bytes@) ==> r@ == ascii_chars_of(bytes@),
{
    String::from_utf8_lossy(bytes.as_slice()).into_owned()
}

/// A banner buffer as the scanner reads it: the bytes actually received,
/// padded with zero bytes to the fixed buffer size.
pub open spec fn padded_spec(data: Seq<u8>, size: nat) -> Seq<u8>
    recommends
        data.len() <= size,
{
    data + Seq::new((size - data.len()) as nat, |i: int| 0u8)
}

/// Pads the received bytes with zeros up to the fixed buffer size; the
/// banner is decoded from this whole buffer, trailing zeros included.
pub fn padded(data: &Vec<u8>, size: usize) -> (r: Vec<u8>)
    requires
        data@.len() <= size,
    ensures
        r@ == padded_spec(data@, size as nat),
        r@.len() == size,
{
    let mut r: Vec<u8> = Vec::new();
    let mut i: usize = 0;
    while i < data.len()
        invariant
            i <= data@.len(),
            r@ == data@.take(i as int),
        decreases data@.len() - i,
    {
        r.push(data[i]);
        proof {
            assert(r@ =~= data@.take(i + 1));
        }
        i += 1;
    }
    proof {
        assert(r@ =~= data@);
    }
    while r.len() < size
        invariant
            data@.len() <= r@.len() <= size,
            r@.take(data@.len() as int) == data@,
            forall|k: int| data@.len() <= k < r@.len() ==> r@[k] == 0u8,
        decreases size - r@.len(),
    {
        let ghost prev = r@;
        r.push(0u8);
        proof {
            assert(r@.take(data@.len() as int) =~= prev.take(data@.len() as int));
        }
    }
    proof {
        assert(r@ =~= padded_spec(data@, size as nat));
    }
    r
}

/// The output lines of one probed port: none for a closed port or an
/// unresolvable address, the open line and a banner line for an open
/// port whose read returned, the open line and the failure line for an
/// open port whose read did not.
pub fn report_lines(port: u16, result: &ScanResult) -> (r: Vec<String>)
    ensures
        result is Unresolved || result is Closed ==> r@.len() == 0,
        result matches ScanResult::OpenWithBanner { banner } ==> r@.len() == 2
            && r@[0]@ == open_line_spec(port)
            && r@[1]@ == banner_line_spec(port, utf8_lossy_of(banner@)),
        result matches ScanResult::OpenWithBanner { banner } ==> (all_ascii(banner@)
            ==> r@[1]@ == banner_line_spec(port, ascii_chars_of(banner@))),
        result is OpenNoBanner ==> r@.len() == 2
            && r@[0]@ == open_line_spec(port)
            && r@[1]@ == failed_line_spec(port),
{
    let mut r: Vec<String> = Vec::new();
    match result {
        ScanResult::Unresolved => {},
        ScanResult::Closed => {},
        ScanResult::OpenWithBanner { banner } => {
            r.push(open_line(port));
            let text = utf8_lossy(banner);
            r.push(banner_line(port, text.as_str()));
        },
        ScanResult::OpenNoBanner => {
            r.push(open_line(port));
            r.push(failed_line(port));
        },
    }
    r
}

/// The output lines of one probe outcome: classification and reporting
/// in one step, as a scan task performs them.
pub fn probe_lines(port: u16, outcome: ConnectOutcome) -> (r: Vec<String>)
    ensures
        classify_spec(outcome) is Unresolved || classify_spec(outcome) is Closed ==> r@.len()
            == 0,
        classify_spec(outcome) matches ScanResult::OpenWithBanner { banner } ==> r@.len() == 2
            && r@[0]@ == open_line_spec(port)
            && r@[1]@ == banner_line_spec(port, utf8_lossy_of(banner@)),
        classify_spec(outcome) matches ScanResult::OpenWithBanner { banner } ==> (all_ascii(
            banner@,
        ) ==> r@[1]@ == banner_line_spec(port, ascii_chars_of(banner@))),
        classify_spec(outcome) is OpenNoBanner ==> r@.len() == 2
            && r@[0]@ == open_line_spec(port)
            && r@[1]@ == failed_line_spec(port),
{
    let result = classify(outcome);
    report_lines(port, &result)
}

/// The textual socket address of one port on the host, `host:port`.
pub fn socket_addr_text(host: &str, port: u16) -> (r: String)
    ensures
        r@ == host@ + ":"@ + dec_seq(port as nat),
{
    let mut s = String::from_str(host);
    s.append(":");
    let p = dec_string(port);
    s.append(p.as_str());
    proof {
        assert(s@ =~= host@ + ":"@ + dec_seq(port as nat));
    }
    s
}

} // verus!

