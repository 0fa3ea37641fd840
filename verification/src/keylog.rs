//! TLS secrets as lines of a key log.
use vstd::prelude::*;
use vstd::string::StringExecFns;

verus! {

/// The most bytes that a secret has.
pub const TLS_SECRETS_MAX_SECRET_LEN: usize = 64;

/// The character for a hexadecimal digit.
pub open spec fn hex_digit(digit: int) -> char {
    if digit < 10 {
        (48 + digit) as char
    } else {
        (97 + digit - 10) as char
    }
}

/// Two hexadecimal digits for each byte, the high one first.
pub open spec fn hex_text(data: Seq<u8>) -> Seq<char> {
    Seq::new(
        2 * data.len(),
        |i: int|
            if i % 2 == 0 {
                hex_digit(data[i / 2] as int / 16)
            } else {
                hex_digit(data[i / 2] as int % 16)
            },
    )
}

/// `hex::encode` writes each byte as two lower-case hexadecimal digits.
#[verifier::external_body]
fn hex_encode(data: &[u8]) -> (text: String)
    ensures
        text@ == hex_text(data@),
{
    hex::encode(data)
}

/// Which of the secrets are set.
#[derive(Clone, Copy, Debug, PartialEq, Eq, Structural)]
pub struct TlsSecretsSet {
    pub client_random: bool,
    pub client_early_traffic_secret: bool,
    pub client_handshake_traffic_secret: bool,
    pub server_handshake_traffic_secret: bool,
    pub client_traffic_secret_0: bool,
    pub server_traffic_secret_0: bool,
}

/// The TLS secrets of a connection, as MsQuic fills them in.
#[derive(Debug)]
pub struct TlsSecrets {
    pub is_set: TlsSecretsSet,
    pub secret_length: u8,
    pub client_random: [u8; 32],
    pub client_early_traffic_secret: [u8; 64],
    pub client_handshake_traffic_secret: [u8; 64],
    pub server_handshake_traffic_secret: [u8; 64],
    pub client_traffic_secret_0: [u8; 64],
    pub server_traffic_secret_0: [u8; 64],
}

/// A line of the log: a label, the client random and a secret.
pub open spec fn log_line(label: Seq<char>, client_random: Seq<char>, secret: Seq<u8>) -> Seq<
    char,
> {
    label + " "@ + client_random + " "@ + hex_text(secret)
}

/// The line where the secret is set, nothing where it is not.
pub open spec fn log_line_if(
    is_set: bool,
    label: Seq<char>,
    client_random: Seq<char>,
    secret: Seq<u8>,
) -> Seq<Seq<char>> {
    if is_set {
        seq![log_line(label, client_random, secret)]
    } else {
        Seq::empty()
    }
}

impl TlsSecrets {
    /// How many bytes of each secret count: no more than there is room for.
    pub open spec fn used_length(&self) -> int {
        if self.secret_length <= TLS_SECRETS_MAX_SECRET_LEN {
            self.secret_length as int
        } else {
            TLS_SECRETS_MAX_SECRET_LEN as int
        }
    }

    /// The client random in the log: empty where it is not set.
    pub open spec fn client_random_text(&self) -> Seq<char> {
        if self.is_set.client_random {
            hex_text(self.client_random@)
        } else {
            Seq::empty()
        }
    }

    /// The lines of the log, one for each secret that is set, always in the same order.
    pub open spec fn key_log(&self) -> Seq<Seq<char>> {
        let length = self.used_length();
        let random = self.client_random_text();
        log_line_if(
            self.is_set.client_early_traffic_secret,
            "CLIENT_EARLY_TRAFFIC_SECRET"@,
            random,
            self.client_early_traffic_secret@.take(length),
        ) + log_line_if(
            self.is_set.client_handshake_traffic_secret,
            "CLIENT_HANDSHAKE_TRAFFIC_SECRET"@,
            random,
            self.client_handshake_traffic_secret@.take(length),
        ) + log_line_if(
            self.is_set.server_handshake_traffic_secret,
            "SERVER_HANDSHAKE_TRAFFIC_SECRET"@,
            random,
            self.server_handshake_traffic_secret@.take(length),
        ) + log_line_if(
            self.is_set.client_traffic_secret_0,
            "CLIENT_TRAFFIC_SECRET_0"@,
            random,
            self.client_traffic_secret_0@.take(length),
        ) + log_line_if(
            self.is_set.server_traffic_secret_0,
            "SERVER_TRAFFIC_SECRET_0"@,
            random,
            self.server_traffic_secret_0@.take(length),
        )
    }

    /// The lines to write to the log, each without its line break.
    pub fn key_log_lines(&self) -> (lines: Vec<String>)
        ensures
            texts_of(lines@) == self.key_log(),
    {
        let client_random: String = if self.is_set.client_random {
            hex_encode(self.client_random.as_slice())
        } else {
            String::new()
        };
        let secret_len: usize = if (self.secret_length as usize) < TLS_SECRETS_MAX_SECRET_LEN {
            self.secret_length as usize
        } else {
            TLS_SECRETS_MAX_SECRET_LEN
        };
        assert(client_random@ =~= self.client_random_text());
        let mut lines: Vec<String> = Vec::new();
        assert(texts_of(lines@) =~= Seq::empty());
        push_line(
            &mut lines,
            self.is_set.client_early_traffic_secret,
            "CLIENT_EARLY_TRAFFIC_SECRET",
            client_random.as_str(),
            &self.client_early_traffic_secret,
            secret_len,
        );
        push_line(
            &mut lines,
            self.is_set.client_handshake_traffic_secret,
            "CLIENT_HANDSHAKE_TRAFFIC_SECRET",
            client_random.as_str(),
            &self.client_handshake_traffic_secret,
            secret_len,
        );
        push_line(
            &mut lines,
            self.is_set.server_handshake_traffic_secret,
            "SERVER_HANDSHAKE_TRAFFIC_SECRET",
            client_random.as_str(),
            &self.server_handshake_traffic_secret,
            secret_len,
        );
        push_line(
            &mut lines,
            self.is_set.client_traffic_secret_0,
            "CLIENT_TRAFFIC_SECRET_0",
            client_random.as_str(),
            &self.client_traffic_secret_0,
            secret_len,
        );
        push_line(
            &mut lines,
            self.is_set.server_traffic_secret_0,
            "SERVER_TRAFFIC_SECRET_0",
            client_random.as_str(),
            &self.server_traffic_secret_0,
            secret_len,
        );
        assert(texts_of(lines@) =~= self.key_log());
        lines
    }
}

/// The texts of a list of strings.
pub open spec fn texts_of(lines: Seq<String>) -> Seq<Seq<char>> {
    lines.map_values(|line: String| line@)
}

/// Add the line of a secret to `lines`, if the secret is set.
fn push_line(
    lines: &mut Vec<String>,
    is_set: bool,
    label: &str,
    client_random: &str,
    secret: &[u8; 64],
    secret_len: usize,
)
    requires
        secret_len <= TLS_SECRETS_MAX_SECRET_LEN,
    ensures
        texts_of(final(lines)@) == texts_of(old(lines)@) + log_line_if(
            is_set,
            label@,
            client_random@,
            secret@.take(secret_len as int),
        ),
{
    if is_set {
        let secret_text = hex_encode(
            vstd::slice::slice_subrange(secret.as_slice(), 0, secret_len),
        );
        let mut line: String = String::new();
        line.append(label);
        line.append(" ");
        line.append(client_random);
        line.append(" ");
        line.append(secret_text.as_str());
        assert(secret@.subrange(0, secret_len as int) =~= secret@.take(secret_len as int));
        assert(line@ =~= log_line(label@, client_random@, secret@.take(secret_len as int)));
        lines.push(line);
        assert(texts_of(lines@) =~= texts_of(old(lines)@).push(line@));
    }
    assert(texts_of(lines@) =~= texts_of(old(lines)@) + log_line_if(
        is_set,
        label@,
        client_random@,
        secret@.take(secret_len as int),
    ));
}

} // verus!
