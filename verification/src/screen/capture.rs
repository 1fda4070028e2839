//! What becomes of a captured screenshot: the PNG is handed on base64-encoded,
//! and the platforms without a capture path report so.
use base64::Engine;
use vstd::prelude::*;
use vstd::string::*;

verus! {

/// The operating system the application runs on.
#[derive(Clone, Copy, Debug, PartialEq, Eq, Structural)]
pub enum Platform {
    MacOs,
    Windows,
    Other,
}

/// The character of the standard base64 alphabet for a 6-bit value.
pub open spec fn b64_char(v: int) -> char {
    if v < 26 {
        (65 + v) as char
    } else if v < 52 {
        (97 + v - 26) as char
    } else if v < 62 {
        (48 + v - 52) as char
    } else if v == 62 {
        '+'
    } else {
        '/'
    }
}

/// Standard base64 (RFC 4648 alphabet, `=` padding) of `b`.
pub open spec fn base64_standard(b: Seq<u8>) -> Seq<char>
    decreases b.len(),
{
    if b.len() == 0 {
        Seq::empty()
    } else {
        let b0 = b[0] as int;
        if b.len() == 1 {
            seq![b64_char(b0 / 4), b64_char((b0 % 4) * 16), '=', '=']
        } else {
            let b1 = b[1] as int;
            if b.len() == 2 {
                seq![b64_char(b0 / 4), b64_char((b0 % 4) * 16 + b1 / 16), b64_char((b1 % 16) * 4), '=']
            } else {
                let b2 = b[2] as int;
                seq![
                    b64_char(b0 / 4),
                    b64_char((b0 % 4) * 16 + b1 / 16),
                    b64_char((b1 % 16) * 4 + b2 / 64),
                    b64_char(b2 % 64),
                ] + base64_standard(b.skip(3))
            }
        }
    }
}

/// Whether the encoded length of `n` bytes fits in a `usize`, which the
/// encoder checks before it allocates.
pub open spec fn base64_len_fits(n: nat) -> bool {
    (n / 3) * 4 + (if n % 3 == 0 { 0nat } else { 4nat }) <= usize::MAX
}

/// The encoded text is padded to whole groups of four characters: four for
/// every started group of three bytes.
pub proof fn law_base64_length(b: Seq<u8>)
    ensures
        base64_standard(b).len() == 4 * ((b.len() + 2) / 3),
    decreases b.len(),
{
    if b.len() >= 3 {
        law_base64_length(b.skip(3));
    }
}

/// `base64::engine::general_purpose::STANDARD.encode`: claimed to give the
/// standard base64 text of the bytes, padded with `=`. The encoder panics when
/// the encoded length overflows `usize`, which `requires` leaves out.
#[verifier::external_body]
fn base64_encode(bytes: &[u8]) -> (s: String)
    requires
        base64_len_fits(bytes@.len()),
    ensures
        s@ == base64_standard(bytes@),
{
    base64::engine::general_purpose::STANDARD.encode(bytes)
}

/// The message reported where no screenshot can be taken.
pub open spec fn unsupported_message() -> Seq<char> {
    "Screenshot not implemented for this OS"@
}

/// The message reported on Windows.
pub open spec fn windows_message() -> Seq<char> {
    "Windows screenshot not yet implemented -- use win32 BitBlt or DXGI"@
}

/// The Windows capture path, which reports that it does not exist yet.
pub fn take_screenshot_windows() -> (r: Result<String, String>)
    ensures
        r matches Err(e) && e@ == windows_message(),
{
    Err(String::from_str("Windows screenshot not yet implemented -- use win32 BitBlt or DXGI"))
}

/// The screenshot as base64-encoded PNG text. On macOS `captured_png` is what
/// the system capture produced (or why it failed) and is encoded; Windows and
/// other systems report that they have no capture path.
pub fn take_screenshot(platform: Platform, captured_png: Result<Vec<u8>, String>) -> (r: Result<String, String>)
    requires
        platform == Platform::MacOs ==> (captured_png matches Ok(png) ==> base64_len_fits(png@.len())),
    ensures
        platform == Platform::MacOs ==> match captured_png {
            Ok(png) => r matches Ok(s) && s@ == base64_standard(png@),
            Err(e) => r matches Err(m) && m@ == e@,
        },
        platform == Platform::Windows ==> (r matches Err(m) && m@ == windows_message()),
        platform == Platform::Other ==> (r matches Err(m) && m@ == unsupported_message()),
{
    match platform {
        Platform::MacOs => match captured_png {
            Ok(png) => Ok(base64_encode(png.as_slice())),
            Err(e) => Err(e),
        },
        Platform::Windows => take_screenshot_windows(),
        Platform::Other => Err(String::from_str("Screenshot not implemented for this OS")),
    }
}

} // verus!
