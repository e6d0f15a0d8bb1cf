//! Reading the bridge's configuration values, and hex text.
use vstd::prelude::*;
use vstd::string::StringSliceAdditionalSpecFns;

use crate::model::Config;
use crate::text::hex_of;

verus! {

/// The value of one hex digit, in either case.
pub open spec fn hex_value(c: u8) -> Option<u8> {
    if 48 <= c <= 57 {
        Some((c - 48) as u8)
    } else if 97 <= c <= 102 {
        Some((c - 87) as u8)
    } else if 65 <= c <= 70 {
        Some((c - 55) as u8)
    } else {
        None
    }
}

/// Whether `b` is hex text: an even number of hex digits.
pub open spec fn is_hex_text(b: Seq<u8>) -> bool {
    b.len() % 2 == 0 && forall|i: int| 0 <= i < b.len() ==> (#[trigger] hex_value(b[i])) is Some
}

/// The bytes that hex text stands for, two digits each, high digit first.
pub open spec fn unhex(b: Seq<u8>) -> Seq<u8> {
    Seq::new(
        b.len() / 2,
        |i: int| (hex_value(b[2 * i])->Some_0 * 16 + hex_value(b[2 * i + 1])->Some_0) as u8,
    )
}

/// Relies on hex::decode: it accepts an even number of hex digits of
/// either case and gives one byte for each pair, high digit first.
#[verifier::external_body]
fn hex_decode(s: &str) -> (r: Option<Vec<u8>>)
    ensures
        r is Some <==> is_hex_text(s.spec_bytes()),
        r matches Some(v) ==> v@ == unhex(s.spec_bytes()),
{
    hex::decode(s).ok()
}

/// Relies on hex::encode: two lower-case digits for each byte.
#[verifier::external_body]
pub(crate) fn hex_encode(b: &Vec<u8>) -> (r: String)
    ensures
        r@ == hex_of(b@),
{
    hex::encode(b)
}

/// Why a configuration was refused.
#[derive(Clone, Copy, Debug, PartialEq, Eq, Structural)]
pub enum ConfigError {
    /// The group key is not hex text.
    InvalidHex,
    /// The group key does not decode to 32 bytes; the length it has.
    KeyLength(usize),
}

impl Config {
    /// Builds the configuration from the group key as hex text and the
    /// channel slot that `/channel` describes.
    pub fn from_raw(group_key: &str, channel_index: usize) -> (r: Result<Config, ConfigError>)
        ensures
            r is Ok <==> (is_hex_text(group_key.spec_bytes()) && unhex(group_key.spec_bytes()).len()
                == 32),
            !is_hex_text(group_key.spec_bytes()) <==> r == Err::<Config, ConfigError>(
                ConfigError::InvalidHex,
            ),
            is_hex_text(group_key.spec_bytes()) && unhex(group_key.spec_bytes()).len() != 32
                <==> r == Err::<Config, ConfigError>(
                ConfigError::KeyLength(unhex(group_key.spec_bytes()).len() as usize),
            ),
            r matches Ok(c) ==> c.group_key@ == unhex(group_key.spec_bytes()) && c.channel_index
                == channel_index,
    {
        let bytes = match hex_decode(group_key) {
            Some(b) => b,
            None => {
                return Err(ConfigError::InvalidHex);
            },
        };
        if bytes.len() != 32 {
            return Err(ConfigError::KeyLength(bytes.len()));
        }
        let mut key: [u8; 32] = [0u8; 32];
        let mut i: usize = 0;
        while i < 32
            invariant
                bytes@.len() == 32,
                i <= 32,
                forall|j: int| 0 <= j < i ==> key[j] == bytes@[j],
            decreases 32 - i,
        {
            key.set(i, bytes[i]);
            i = i + 1;
        }
        assert(key@ =~= bytes@);
        Ok(Config { group_key: key, channel_index })
    }
}

} // verus!
