use darksky::{decode, request_target, uri, BodyEvent, BodyReader, BodyStep, ForecastError};

const BODY: &[u8] = br#"{"latitude":37.8267,"longitude":-122.423,"timezone":"America/Los_Angeles","currently":{"time":1450000000,"summary":"Clear"}}"#;

fn stream(chunks: &[&[u8]]) -> BodyStep {
    let mut reader = BodyReader::new();
    for c in chunks {
        match reader.step(BodyEvent::Chunk(c.to_vec())) {
            BodyStep::Pending => {}
            _ => panic!("a chunk must not end the read"),
        }
        assert!(reader.is_reading());
    }
    reader.step(BodyEvent::End)
}

#[test]
fn streamed_and_buffered_bodies_decode_alike() {
    let buffered = decode(BODY).unwrap();
    let (a, rest) = BODY.split_at(7);
    let (b, c) = rest.split_at(40);
    match stream(&[a, b, c]) {
        BodyStep::Done(Ok(v)) => assert_eq!(v, buffered),
        _ => panic!("the streamed body must decode"),
    }
    assert_eq!(buffered["currently"]["summary"], "Clear");
}

#[test]
fn empty_chunks_change_nothing() {
    let buffered = decode(BODY).unwrap();
    match stream(&[b"", BODY, b""]) {
        BodyStep::Done(Ok(v)) => assert_eq!(v, buffered),
        _ => panic!("the streamed body must decode"),
    }
}

#[test]
fn unparseable_body_is_decode_error() {
    assert!(matches!(decode(b"{\"latitude\": 37.8"), Err(ForecastError::Decode(_))));
    assert!(matches!(decode(b""), Err(ForecastError::Decode(_))));
    assert!(matches!(decode(b"<html>"), Err(ForecastError::Decode(_))));
    assert!(matches!(stream(&[b"{\"a\":", b"1"]), BodyStep::Done(Err(ForecastError::Decode(_)))));
}

#[test]
fn failed_read_is_transport_error() {
    let mut reader = BodyReader::new();
    assert!(matches!(reader.step(BodyEvent::Chunk(b"{}".to_vec())), BodyStep::Pending));
    match reader.step(BodyEvent::Failed("connection reset".to_string())) {
        BodyStep::Done(Err(ForecastError::Transport(m))) => assert_eq!(m, "connection reset"),
        _ => panic!("a failed read must give a transport error"),
    }
    assert!(!reader.is_reading());
}

#[test]
fn cancelled_read_releases_without_decoding() {
    let mut reader = BodyReader::new();
    assert!(matches!(reader.step(BodyEvent::Chunk(BODY.to_vec())), BodyStep::Pending));
    assert!(matches!(reader.step(BodyEvent::Cancelled), BodyStep::Released));
    assert!(!reader.is_reading());
}

#[test]
fn illegal_token_is_uri_error() {
    assert!(matches!(request_target("a b", "1", "2"), Err(ForecastError::Uri(_))));
    assert!(matches!(request_target("tok<en>", "1", "2"), Err(ForecastError::Uri(_))));
    assert!(matches!(request_target("tok\nen", "1", "2"), Err(ForecastError::Uri(_))));
}

#[test]
fn legal_token_gives_the_simple_uri_as_target() {
    let target = request_target("abc", "-7.3", "8.17").unwrap();
    assert_eq!(target.to_string(), uri("abc", "-7.3", "8.17"));
    assert_eq!(target.host(), Some("api.darksky.net"));
    assert_eq!(target.path(), "/forecast/abc/-7.3,8.17");
    assert_eq!(target.query(), Some("units=auto"));
}

#[test]
fn every_two_chunk_split_decodes_like_the_buffer() {
    let buffered = decode(BODY).unwrap();
    for at in 0..=BODY.len() {
        let (a, b) = BODY.split_at(at);
        match stream(&[a, b]) {
            BodyStep::Done(Ok(v)) => assert_eq!(v, buffered),
            _ => panic!("the streamed body must decode"),
        }
    }
}
