use heliotrope::{
    from_text, proxy, proxy_reply, reply, GalleryInfo, Images, ProxyBlob, ProxyError, TransportError,
};

fn failure() -> TransportError {
    TransportError { message: "connection reset".to_string() }
}

#[test]
fn base64_body_is_decoded() {
    let blob = proxy("AQIDBAU=").ok().expect("the body is base64");
    assert_eq!(blob.len(), 5);
    assert_eq!(blob.bytes(), vec![1, 2, 3, 4, 5]);
    assert_eq!(blob.into_vec(), vec![1, 2, 3, 4, 5]);
}

#[test]
fn base64_text_is_not_handed_back_as_bytes() {
    let blob = proxy("aGVsbG8gd29ybGQ=").ok().unwrap();
    assert_eq!(blob.bytes(), b"hello world".to_vec());
    assert_ne!(blob.bytes(), b"aGVsbG8gd29ybGQ=".to_vec());
}

#[test]
fn empty_body_is_an_empty_blob() {
    let blob = proxy("").ok().expect("nothing is base64 for no bytes");
    assert_eq!(blob.len(), 0);
    assert!(blob.bytes().is_empty());
}

#[test]
fn body_outside_base64_is_a_failure() {
    assert!(proxy("not base64!").is_err());
    assert!(proxy("AQID BAU=").is_err());
    assert!(proxy("A").is_err());
    assert!(proxy("{\"status\":404}").is_err());
}

#[test]
fn blob_holds_the_bytes_it_was_given() {
    let blob = ProxyBlob::from_vec(vec![9, 8, 7]);
    assert_eq!(blob.len(), 3);
    let mut copy = blob.bytes();
    copy.push(6);
    assert_eq!(blob.bytes(), vec![9, 8, 7]);
}

#[test]
fn transport_failure_is_not_absence() {
    let got = reply::<GalleryInfo>(Err(failure()));
    match got {
        Err(error) => assert_eq!(error.message, "connection reset"),
        Ok(_) => panic!("a failed request was reported as a reply"),
    }
}

#[test]
fn unreadable_body_is_absence_not_failure() {
    for body in ["", "<html>502 Bad Gateway</html>", "{}", "{\"status\":200}"] {
        match reply::<GalleryInfo>(Ok(body.to_string())) {
            Ok(None) => {}
            Ok(Some(_)) => panic!("{:?} was read as a gallery", body),
            Err(_) => panic!("{:?} was reported as a failed request", body),
        }
    }
}

#[test]
fn readable_body_is_present() {
    let got = reply::<Images>(Ok("{\"status\":200,\"images\":[]}".to_string()));
    match got {
        Ok(Some(images)) => assert_eq!(images.status(), 200),
        _ => panic!("a good reply was not read"),
    }
}

#[test]
fn the_two_failures_of_the_proxy_stay_apart() {
    match proxy_reply(Err(failure())) {
        Err(ProxyError::Transport(error)) => assert_eq!(error.message, "connection reset"),
        _ => panic!("a failed request was not reported as one"),
    }
    match proxy_reply(Ok("***".to_string())) {
        Err(ProxyError::Undecodable) => {}
        _ => panic!("an unreadable body was not reported as one"),
    }
    match proxy_reply(Ok("/w==".to_string())) {
        Ok(blob) => assert_eq!(blob.into_vec(), vec![255]),
        Err(_) => panic!("a good reply was not read"),
    }
}

#[test]
fn schema_is_chosen_by_the_caller() {
    let body = "{\"status\":200,\"images\":[]}";
    assert!(from_text::<Images>(body).is_some());
    assert!(from_text::<GalleryInfo>(body).is_none());
    assert_eq!(from_text::<Vec<usize>>("[1]"), Some(vec![1]));
    assert_eq!(from_text::<String>("\"a\\nb\""), Some("a\nb".to_string()));
    assert_eq!(from_text::<usize>("12"), Some(12));
}
