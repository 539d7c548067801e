//! What the settings store holds: its keys, the limits of its values, and
//! the pin layout.

use vstd::prelude::*;
use vstd::string::*;
use vstd::utf8::*;

verus! {

/// Namespace of the settings in the store.
pub const NAMESPACE: &'static str = "ossm";

/// Key of the network name.
pub const KEY_SSID: &'static str = "ssid";

/// Key of the network password.
pub const KEY_PASSWORD: &'static str = "password";

/// Key of the pin layout, which is stored as JSON.
pub const KEY_PIN_CONFIGURATION: &'static str = "pin_configuration";

/// Key of the motion configuration, which is stored as JSON.
pub const KEY_MOTOR_CONFIG: &'static str = "motor_config";

/// Most bytes that a network name may have.
pub const SSID_CAPACITY: usize = 32;

/// Most bytes that a network password may have.
pub const PASSWORD_CAPACITY: usize = 64;

/// Size of the buffer that a stored text is read into.
pub const TEXT_CAPACITY: usize = 1024;

/// The pins of the Modbus link, each by its index among the pins of the
/// board.
#[derive(Clone, Copy, Debug, PartialEq, Eq, Structural)]
pub struct PinConfiguration {
    pub modbus_tx: u32,
    pub modbus_rx: u32,
    pub modbus_de_re: u32,
}

impl Default for PinConfiguration {
    fn default() -> (r: Self)
        ensures
            r == (PinConfiguration { modbus_tx: 18, modbus_rx: 19, modbus_de_re: 20 }),
    {
        PinConfiguration { modbus_tx: 18, modbus_rx: 19, modbus_de_re: 20 }
    }
}


/// The place of the first zero byte of `buf` from `from` on; the length of
/// `buf` where there is none.
pub open spec fn nul_at(buf: Seq<u8>, from: int) -> int
    decreases buf.len() - from,
{
    if from < 0 || from >= buf.len() {
        buf.len() as int
    } else if buf[from] == 0 {
        from
    } else {
        nul_at(buf, from + 1)
    }
}

/// The bytes of a text that was read into `buf`: what stands before the
/// first zero byte, or all of `buf` where it holds none.
pub open spec fn text_bytes(buf: Seq<u8>) -> Seq<u8> {
    buf.subrange(0, nul_at(buf, 0))
}

/// A stored text holds no zero byte, and it is all that stands before the
/// first one: where the buffer holds a zero byte, the text ends right
/// before it.
pub proof fn law_text_ends_at_nul(buf: Seq<u8>, from: int)
    requires
        0 <= from <= buf.len(),
    ensures
        from <= nul_at(buf, from) <= buf.len(),
        nul_at(buf, from) < buf.len() ==> buf[nul_at(buf, from)] == 0,
        forall|i: int| from <= i < nul_at(buf, from) ==> buf[i] != 0,
        from == 0 ==> forall|i: int| 0 <= i < text_bytes(buf).len() ==> text_bytes(buf)[i] != 0,
    decreases buf.len() - from,
{
    if from < buf.len() && buf[from] != 0 {
        law_text_ends_at_nul(buf, from + 1);
    }
}

/// Calls `core::str::from_utf8`. It gives a string exactly for bytes that
/// are valid UTF-8, and the string has those bytes.
#[verifier::external_body]
fn utf8(bytes: &[u8]) -> (r: Option<&str>)
    ensures
        r is Some <==> valid_utf8(bytes@),
        r matches Some(s) ==> s.spec_bytes() == bytes@,
{
    core::str::from_utf8(bytes).ok()
}

/// The length of the text that was read into `buf`.
pub fn text_len(buf: &[u8]) -> (r: usize)
    ensures
        r == nul_at(buf@, 0),
        r <= buf@.len(),
{
    let mut i: usize = 0;
    while i < buf.len() && buf[i] != 0
        invariant
            i <= buf.len(),
            nul_at(buf@, 0) == nul_at(buf@, i as int),
        decreases buf.len() - i,
    {
        i = i + 1;
    }
    i
}

/// The text that was read into `buf` from the store, where it is valid
/// UTF-8.
pub fn stored_text(buf: &[u8]) -> (r: Option<String>)
    ensures
        r is Some <==> valid_utf8(text_bytes(buf@)),
        r matches Some(s) ==> s@ == decode_utf8(text_bytes(buf@)),
{
    let end = text_len(buf);
    let bytes = vstd::slice::slice_subrange(buf, 0, end);
    match utf8(bytes) {
        Some(s) => {
            proof {
                encode_utf8_decode_utf8(s@);
            }
            Some(s.to_owned())
        },
        None => None,
    }
}

/// What is to be done about the network with the credentials that the
/// store holds.
#[derive(Clone, Copy, Debug, PartialEq, Eq, Structural)]
pub enum WifiPlan {
    /// The name or the password is not in the store.
    NotConfigured,
    /// The name is empty.
    EmptySsid,
    /// Connect with the name and the password.
    Connect,
}

/// Why the stored credentials cannot be used.
#[derive(Clone, Copy, Debug, PartialEq, Eq, Structural)]
pub enum WifiError {
    /// The name has more than `SSID_CAPACITY` bytes.
    SsidTooLong,
    /// The password has more than `PASSWORD_CAPACITY` bytes.
    PasswordTooLong,
}

/// The plan for the credentials `ssid` and `password`, each `None` where
/// the store does not hold it. An empty name is no error; the length of the
/// name is tested before that of the password.
pub open spec fn wifi_plan_for(ssid: Option<Seq<u8>>, password: Option<Seq<u8>>) -> Result<
    WifiPlan,
    WifiError,
> {
    match (ssid, password) {
        (Some(name), Some(word)) => if name.len() == 0 {
            Ok(WifiPlan::EmptySsid)
        } else if name.len() > SSID_CAPACITY {
            Err(WifiError::SsidTooLong)
        } else if word.len() > PASSWORD_CAPACITY {
            Err(WifiError::PasswordTooLong)
        } else {
            Ok(WifiPlan::Connect)
        },
        _ => Ok(WifiPlan::NotConfigured),
    }
}

/// The bytes of a text, where there is one.
pub open spec fn bytes_of(text: Option<&str>) -> Option<Seq<u8>> {
    match text {
        Some(s) => Some(s.spec_bytes()),
        None => None,
    }
}

/// What is to be done about the network with the credentials `ssid` and
/// `password`, each `None` where the store does not hold it.
pub fn wifi_plan(ssid: Option<&str>, password: Option<&str>) -> (r: Result<WifiPlan, WifiError>)
    ensures
        r == wifi_plan_for(bytes_of(ssid), bytes_of(password)),
{
    match (ssid, password) {
        (Some(name), Some(word)) => if name.as_bytes().len() == 0 {
            Ok(WifiPlan::EmptySsid)
        } else if name.as_bytes().len() > SSID_CAPACITY {
            Err(WifiError::SsidTooLong)
        } else if word.as_bytes().len() > PASSWORD_CAPACITY {
            Err(WifiError::PasswordTooLong)
        } else {
            Ok(WifiPlan::Connect)
        },
        _ => Ok(WifiPlan::NotConfigured),
    }
}

} // verus!
