use futures_util::future::join;
use openssl::asn1::Asn1Time;
use openssl::bn::BigNum;
use openssl::hash::MessageDigest;
use openssl::pkey::{PKey, Private};
use openssl::rsa::Rsa;
use openssl::ssl::{Ssl, SslAcceptor, SslConnector, SslMethod, SslVerifyMode};
use openssl::x509::{X509Name, X509};
use std::pin::Pin;
use std::sync::Arc;
use tls_hot_reload::listener::{Accepted, OpensslListener, PendingHandshake, ReloadOutcome};
use tls_hot_reload::stream::{NextIo, TlsConnStream};
use tokio::io::{AsyncReadExt, AsyncWriteExt, DuplexStream};
use tokio_openssl::SslStream;

fn identity(common_name: &str) -> (X509, PKey<Private>) {
    let key = PKey::from_rsa(Rsa::generate(2048).unwrap()).unwrap();
    let mut name = X509Name::builder().unwrap();
    name.append_entry_by_text("CN", common_name).unwrap();
    let name = name.build();
    let mut cert = X509::builder().unwrap();
    cert.set_version(2).unwrap();
    let serial = BigNum::from_u32(1).unwrap().to_asn1_integer().unwrap();
    cert.set_serial_number(&serial).unwrap();
    cert.set_subject_name(&name).unwrap();
    cert.set_issuer_name(&name).unwrap();
    cert.set_pubkey(&key).unwrap();
    cert.set_not_before(&Asn1Time::days_from_now(0).unwrap()).unwrap();
    cert.set_not_after(&Asn1Time::days_from_now(1).unwrap()).unwrap();
    cert.sign(&key, MessageDigest::sha256()).unwrap();
    (cert.build(), key)
}

fn acceptor_for(common_name: &str) -> SslAcceptor {
    let (cert, key) = identity(common_name);
    let mut builder = SslAcceptor::mozilla_intermediate(SslMethod::tls()).unwrap();
    builder.set_certificate(&cert).unwrap();
    builder.set_private_key(&key).unwrap();
    builder.build()
}

fn client_session() -> Ssl {
    let mut connector = SslConnector::builder(SslMethod::tls()).unwrap();
    connector.set_verify(SslVerifyMode::NONE);
    let connector = connector.build();
    let mut config = connector.configure().unwrap();
    config.set_verify_hostname(false);
    config.into_ssl("localhost").unwrap()
}

fn accept(
    listener: &OpensslListener<(), ()>,
    stream: DuplexStream,
) -> Accepted<PendingHandshake<DuplexStream>, u16> {
    let raw = Accepted { stream, local_addr: 5800u16, remote_addr: 40000u16 };
    match listener.on_connection(Ok(raw)) {
        Ok(accepted) => accepted,
        Err(error) => panic!("refused: {}", error.message()),
    }
}

async fn serve(pending: PendingHandshake<DuplexStream>) -> Result<SslStream<DuplexStream>, String> {
    let (session, raw) = pending.open_session()?;
    let mut stream = SslStream::new(session, raw).map_err(|e| e.to_string())?;
    Pin::new(&mut stream).accept().await.map_err(|e| e.to_string())?;
    Ok(stream)
}

async fn connect(raw: DuplexStream) -> SslStream<DuplexStream> {
    let mut stream = SslStream::new(client_session(), raw).unwrap();
    Pin::new(&mut stream).connect().await.unwrap();
    stream
}

fn common_name(cert: &X509) -> String {
    let entry = cert.subject_name().entries().next().unwrap();
    entry.data().as_utf8().unwrap().to_string()
}

fn run<F: std::future::Future>(future: F) -> F::Output {
    tokio::runtime::Builder::new_current_thread().build().unwrap().block_on(future)
}

#[test]
fn client_text_is_read_back_decrypted_by_the_server() {
    let mut listener = OpensslListener::new((), ());
    assert!(matches!(listener.install(acceptor_for("one.example")), ReloadOutcome::Loaded));
    let (client_end, server_end) = tokio::io::duplex(16 * 1024);
    let accepted = accept(&listener, server_end);
    assert_eq!(accepted.local_addr, 5800);
    assert_eq!(accepted.remote_addr, 40000);
    let lazy: TlsConnStream<PendingHandshake<DuplexStream>, SslStream<DuplexStream>> =
        TlsConnStream::new(accepted.stream);
    assert_eq!(lazy.next_io(), NextIo::DriveHandshake);

    run(async move {
        let pending = match lazy {
            TlsConnStream::Handshaking(pending) => pending,
            _ => panic!("a new stream is still negotiating"),
        };
        let server = async move {
            let outcome = serve(pending).await;
            let lazy: TlsConnStream<(), SslStream<DuplexStream>> = TlsConnStream::new(());
            lazy.finish(outcome)
        };
        let client = async move {
            let mut stream = connect(client_end).await;
            stream.write_all(b"hello over tls").await.unwrap();
            stream.flush().await.unwrap();
            stream
        };
        let (lazy, _client) = join(server, client).await;
        assert_eq!(lazy.next_io(), NextIo::UseSession);
        let mut session = match lazy {
            TlsConnStream::Ready(session) => session,
            _ => panic!("the handshake succeeded"),
        };
        let mut text = [0u8; 14];
        session.read_exact(&mut text).await.unwrap();
        assert_eq!(&text, b"hello over tls");
    });
}

#[test]
fn reload_during_a_handshake_does_not_change_its_certificate() {
    let mut listener = OpensslListener::new((), ());
    listener.install(acceptor_for("one.example"));
    let config1 = listener.current().unwrap();
    let (client1, server1) = tokio::io::duplex(16 * 1024);
    let first = accept(&listener, server1);

    assert!(matches!(listener.install(acceptor_for("two.example")), ReloadOutcome::Changed));
    let (client2, server2) = tokio::io::duplex(16 * 1024);
    let second = accept(&listener, server2);
    assert!(Arc::ptr_eq(&first.stream.acceptor, &config1));

    run(async move {
        let (served1, seen1) = join(serve(first.stream), connect(client1)).await;
        let (served2, seen2) = join(serve(second.stream), connect(client2)).await;
        assert!(served1.is_ok());
        assert!(served2.is_ok());
        assert_eq!(common_name(&seen1.ssl().peer_certificate().unwrap()), "one.example");
        assert_eq!(common_name(&seen2.ssl().peer_certificate().unwrap()), "two.example");
    });
}

#[test]
fn broken_client_hello_fails_only_its_own_stream() {
    let mut listener = OpensslListener::new((), ());
    listener.install(acceptor_for("one.example"));
    let (mut bad_client, bad_server) = tokio::io::duplex(16 * 1024);
    let broken = accept(&listener, bad_server);
    let (good_client, good_server) = tokio::io::duplex(16 * 1024);

    run(async move {
        bad_client.write_all(b"GET / HTTP/1.1\r\n\r\n").await.unwrap();
        let outcome = serve(broken.stream).await;
        assert!(outcome.is_err());
        let lazy: TlsConnStream<(), SslStream<DuplexStream>> = TlsConnStream::new(());
        let lazy = lazy.finish(outcome);
        assert_eq!(lazy.next_io(), NextIo::Refuse);

        let next = accept(&listener, good_server);
        let (served, _client) = join(serve(next.stream), connect(good_client)).await;
        assert!(served.is_ok());
    });
}

#[test]
fn opened_session_is_paired_with_the_raw_stream() {
    let mut listener = OpensslListener::new((), ());
    listener.install(acceptor_for("one.example"));
    let context = listener.current().unwrap();
    let (_client, server) = tokio::io::duplex(1024);
    let pending = accept(&listener, server).stream;
    let session = Ssl::new(context.context()).unwrap();
    let opened = pending.with_session(Ok(session));
    assert!(opened.is_ok());
}

#[test]
fn failure_to_open_a_session_is_passed_on_in_the_same_words() {
    let mut listener = OpensslListener::new((), ());
    listener.install(acceptor_for("one.example"));
    let (_client, server) = tokio::io::duplex(1024);
    let pending = accept(&listener, server).stream;
    match pending.with_session(Err("out of memory".to_string())) {
        Err(reason) => assert_eq!(reason, "out of memory"),
        Ok(_) => panic!("expected the failure to be passed on"),
    }
}
