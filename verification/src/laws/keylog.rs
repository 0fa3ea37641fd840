//! What the key log promises.
use vstd::prelude::*;

use crate::keylog::{hex_digit, hex_text, texts_of, TlsSecrets};

verus! {

/// A hexadecimal digit.
pub open spec fn digit(value: int) -> char {
    if value == 0 {
        '0'
    } else if value == 1 {
        '1'
    } else if value == 2 {
        '2'
    } else if value == 3 {
        '3'
    } else if value == 4 {
        '4'
    } else if value == 5 {
        '5'
    } else if value == 6 {
        '6'
    } else if value == 7 {
        '7'
    } else if value == 8 {
        '8'
    } else if value == 9 {
        '9'
    } else if value == 10 {
        'a'
    } else if value == 11 {
        'b'
    } else if value == 12 {
        'c'
    } else if value == 13 {
        'd'
    } else if value == 14 {
        'e'
    } else {
        'f'
    }
}

/// The digits of `data`, byte by byte.
pub open spec fn digits(data: Seq<u8>) -> Seq<char>
    decreases data.len(),
{
    if data.len() == 0 {
        Seq::empty()
    } else {
        seq![digit(data[0] as int / 16), digit(data[0] as int % 16)] + digits(data.drop_first())
    }
}

/// The two ways to put it agree.
proof fn digits_are_hex_text(data: Seq<u8>)
    ensures
        digits(data) == hex_text(data),
    decreases data.len(),
{
    assert(forall|value: int| 0 <= value < 16 ==> #[trigger] digit(value) == hex_digit(value));
    if data.len() > 0 {
        let rest = data.drop_first();
        digits_are_hex_text(rest);
        assert forall|i: int| 0 <= i < hex_text(data).len() implies #[trigger] hex_text(data)[i]
            == digits(data)[i] by {
            if i >= 2 {
                assert(digits(data)[i] == hex_text(rest)[i - 2]);
                assert((i - 2) / 2 == i / 2 - 1);
                assert((i - 2) % 2 == i % 2);
                assert(rest[i / 2 - 1] == data[i / 2]);
            } else {
                assert(digit(data[0] as int / 16) == hex_digit(data[0] as int / 16));
                assert(digit(data[0] as int % 16) == hex_digit(data[0] as int % 16));
            }
        }
        assert(digits(data) =~= hex_text(data));
    } else {
        assert(digits(data) =~= hex_text(data));
    }
}

/// What a flag counts for.
pub open spec fn one_if(set: bool) -> int {
    if set {
        1
    } else {
        0
    }
}

/// `line` names the secret by its label, then the client random in digits, nothing where that is
/// not set, and then as many bytes of the secret in digits as count.
pub open spec fn logs(
    line: Seq<char>,
    label: Seq<char>,
    secrets: TlsSecrets,
    secret: Seq<u8>,
) -> bool {
    let random = if secrets.is_set.client_random {
        digits(secrets.client_random@)
    } else {
        Seq::empty()
    };
    let length = if secrets.secret_length < 64 {
        secrets.secret_length as int
    } else {
        64
    };
    line == label + " "@ + random + " "@ + digits(secret.take(length))
}

/// The key log has a line for each secret that is set and none for the others, always in the same
/// order, and each line has the label and the bytes of its secret.
pub proof fn every_secret_is_logged(secrets: &TlsSecrets, lines: Vec<String>)
    requires
        call_ensures(TlsSecrets::key_log_lines, (secrets,), lines),
    ensures
        ({
            let set = secrets.is_set;
            let second = one_if(set.client_early_traffic_secret);
            let third = second + one_if(set.client_handshake_traffic_secret);
            let fourth = third + one_if(set.server_handshake_traffic_secret);
            let fifth = fourth + one_if(set.client_traffic_secret_0);
            &&& lines@.len() == fifth + one_if(set.server_traffic_secret_0)
            &&& set.client_early_traffic_secret ==> logs(
                lines@[0]@,
                "CLIENT_EARLY_TRAFFIC_SECRET"@,
                *secrets,
                secrets.client_early_traffic_secret@,
            )
            &&& set.client_handshake_traffic_secret ==> logs(
                lines@[second]@,
                "CLIENT_HANDSHAKE_TRAFFIC_SECRET"@,
                *secrets,
                secrets.client_handshake_traffic_secret@,
            )
            &&& set.server_handshake_traffic_secret ==> logs(
                lines@[third]@,
                "SERVER_HANDSHAKE_TRAFFIC_SECRET"@,
                *secrets,
                secrets.server_handshake_traffic_secret@,
            )
            &&& set.client_traffic_secret_0 ==> logs(
                lines@[fourth]@,
                "CLIENT_TRAFFIC_SECRET_0"@,
                *secrets,
                secrets.client_traffic_secret_0@,
            )
            &&& set.server_traffic_secret_0 ==> logs(
                lines@[fifth]@,
                "SERVER_TRAFFIC_SECRET_0"@,
                *secrets,
                secrets.server_traffic_secret_0@,
            )
        }),
{
    let length = secrets.used_length();
    digits_are_hex_text(secrets.client_random@);
    digits_are_hex_text(secrets.client_early_traffic_secret@.take(length));
    digits_are_hex_text(secrets.client_handshake_traffic_secret@.take(length));
    digits_are_hex_text(secrets.server_handshake_traffic_secret@.take(length));
    digits_are_hex_text(secrets.client_traffic_secret_0@.take(length));
    digits_are_hex_text(secrets.server_traffic_secret_0@.take(length));
    assert(texts_of(lines@).len() == lines@.len());
    assert(forall|i: int| 0 <= i < lines@.len() ==> texts_of(lines@)[i] == #[trigger] lines@[i]@);
}

} // verus!
