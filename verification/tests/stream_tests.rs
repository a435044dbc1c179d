use basic_http_server::response::StreamedBody;
use basic_http_server::stream::{BodyStream, Pull, CHUNK_SIZE};

fn body(trailer: &str) -> StreamedBody {
    StreamedBody { path: "/srv/a.html".to_string(), file_len: 0, trailer: trailer.to_string() }
}

/// Streams a body whose file gives the chunks of `file` and then ends.
fn stream_all(trailer: &str, file: &[&[u8]]) -> Vec<Vec<u8>> {
    let mut stream = BodyStream::new(&body(trailer));
    let mut reads = file.iter();
    let mut out = Vec::new();
    loop {
        match stream.next() {
            Pull::ReadFile { at_most } => {
                assert_eq!(at_most, CHUNK_SIZE);
                let chunk = reads.next().map(|c| c.to_vec()).unwrap_or_default();
                if let Some(bytes) = stream.file_gave(chunk) {
                    out.push(bytes);
                }
            }
            Pull::Send(bytes) => out.push(bytes),
            Pull::End => break,
        }
    }
    assert_eq!(stream.next(), Pull::End);
    assert_eq!(stream.file_gave(b"late".to_vec()), None);
    assert_eq!(stream.next(), Pull::End);
    out
}

#[test]
fn file_chunks_come_in_order_and_the_trailer_last() {
    let out = stream_all("<script>x</script>", &[b"<html>", b"<body>", b"</html>"]);
    assert_eq!(
        out,
        vec![
            b"<html>".to_vec(),
            b"<body>".to_vec(),
            b"</html>".to_vec(),
            b"<script>x</script>".to_vec(),
        ]
    );
}

#[test]
fn body_without_trailer_is_the_file_alone() {
    let out = stream_all("", &[b"a{}", b"b{}"]);
    assert_eq!(out, vec![b"a{}".to_vec(), b"b{}".to_vec()]);
}

#[test]
fn empty_file_sends_the_trailer_alone() {
    assert_eq!(stream_all("tail", &[]), vec![b"tail".to_vec()]);
    assert_eq!(stream_all("", &[]), Vec::<Vec<u8>>::new());
}

#[test]
fn trailer_is_sent_as_utf8() {
    assert_eq!(stream_all("h\u{e9}", &[b"x"]), vec![b"x".to_vec(), vec![0x68, 0xC3, 0xA9]]);
}

#[test]
fn first_pull_asks_for_the_file() {
    let mut stream = BodyStream::new(&body("t"));
    assert_eq!(stream.next(), Pull::ReadFile { at_most: 8192 });
    assert_eq!(stream.next(), Pull::ReadFile { at_most: 8192 });
    assert_eq!(stream.file_gave(vec![1, 2, 3]), Some(vec![1, 2, 3]));
    assert_eq!(stream.next(), Pull::ReadFile { at_most: 8192 });
    assert_eq!(stream.file_gave(vec![]), None);
    assert_eq!(stream.next(), Pull::Send(vec![b't']));
    assert_eq!(stream.next(), Pull::End);
}
