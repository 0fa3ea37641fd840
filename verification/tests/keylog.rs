//! Key log lines.
use msquic_async::keylog::{TlsSecrets, TlsSecretsSet};

fn secrets() -> TlsSecrets {
    let mut client_random = [0u8; 32];
    client_random[0] = 0xf9;
    client_random[31] = 0x0a;
    TlsSecrets {
        is_set: TlsSecretsSet {
            client_random: true,
            client_early_traffic_secret: true,
            client_handshake_traffic_secret: true,
            server_handshake_traffic_secret: true,
            client_traffic_secret_0: true,
            server_traffic_secret_0: true,
        },
        secret_length: 2,
        client_random,
        client_early_traffic_secret: [0x01; 64],
        client_handshake_traffic_secret: [0x23; 64],
        server_handshake_traffic_secret: [0x45; 64],
        client_traffic_secret_0: [0xab; 64],
        server_traffic_secret_0: [0xef; 64],
    }
}

fn random_text() -> String {
    format!("f9{}0a", "00".repeat(30))
}

#[test]
fn each_secret_that_is_set_has_a_line() {
    let random = random_text();
    assert_eq!(
        secrets().key_log_lines(),
        vec![
            format!("CLIENT_EARLY_TRAFFIC_SECRET {random} 0101"),
            format!("CLIENT_HANDSHAKE_TRAFFIC_SECRET {random} 2323"),
            format!("SERVER_HANDSHAKE_TRAFFIC_SECRET {random} 4545"),
            format!("CLIENT_TRAFFIC_SECRET_0 {random} abab"),
            format!("SERVER_TRAFFIC_SECRET_0 {random} efef"),
        ]
    );
}

#[test]
fn a_secret_that_is_not_set_has_none() {
    let mut secrets = secrets();
    secrets.is_set.client_early_traffic_secret = false;
    secrets.is_set.server_handshake_traffic_secret = false;
    secrets.is_set.client_traffic_secret_0 = false;
    secrets.is_set.server_traffic_secret_0 = false;
    let random = random_text();
    assert_eq!(
        secrets.key_log_lines(),
        vec![format!("CLIENT_HANDSHAKE_TRAFFIC_SECRET {random} 2323")]
    );
}

#[test]
fn a_client_random_that_is_not_set_is_left_out() {
    let mut secrets = secrets();
    secrets.is_set.client_random = false;
    assert_eq!(secrets.key_log_lines()[3], "CLIENT_TRAFFIC_SECRET_0  abab");
}

#[test]
fn no_more_than_there_is_room_for_counts() {
    let mut secrets = secrets();
    secrets.secret_length = 255;
    let line = &secrets.key_log_lines()[4];
    assert_eq!(
        *line,
        format!("SERVER_TRAFFIC_SECRET_0 {} {}", random_text(), "ef".repeat(64))
    );
    secrets.secret_length = 0;
    let line = &secrets.key_log_lines()[4];
    assert_eq!(*line, format!("SERVER_TRAFFIC_SECRET_0 {} ", random_text()));
}
