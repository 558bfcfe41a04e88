//! The in-band console protocol of the watched process: command lines
//! written into its input stream must be encoded in the legacy single-byte
//! windows-1251 encoding the console expects, not in UTF-8. This is a
//! byte-exact compatibility requirement.

use vstd::prelude::*;

verus! {

/// The windows-1251 encoding of a string, as encoding_rs computes it:
/// unmappable characters become decimal numeric character references.
pub uninterp spec fn win1251_of(s: Seq<char>) -> Seq<u8>;

/// Relies on encoding_rs's `Encoding::encode` on `WINDOWS_1251`: the
/// resulting bytes are a function of the input characters alone, and an
/// empty string encodes to no bytes. The length bound keeps clear of the
/// one documented panic, an overflowing buffer-size calculation.
#[verifier::external_body]
fn encode_windows_1251(s: &str) -> (r: Vec<u8>)
    requires
        s@.len() < 0x10000000,
    ensures
        r@ == win1251_of(s@),
        s@.len() == 0 ==> r@.len() == 0,
{
    let (bytes, _, _) = encoding_rs::WINDOWS_1251.encode(s);
    bytes.into_owned()
}

/// The console line that announces a message to the watched process's
/// players: the broadcast command, the message, and a newline, encoded
/// for the console. A message too long to encode safely is refused.
pub fn broadcast_command(message: &str) -> (r: Option<Vec<u8>>)
    ensures
        r is Some <==> message@.len() <= 0xffffff,
        r matches Some(b) ==> b@ == win1251_of("broadcast "@ + message@ + "\n"@),
{
    let len = message.unicode_len();
    if len > 0xffffff {
        return None;
    }
    proof {
        reveal_strlit("broadcast ");
        reveal_strlit("\n");
    }
    let mut cmd = "broadcast ".to_owned();
    cmd.append(message);
    cmd.append("\n");
    Some(encode_windows_1251(cmd.as_str()))
}

} // verus!
